//! What is known of a model's tensors before they are loaded.

use crate::element::{blck_size, type_size, ElementType};
use vstd::prelude::*;

verus! {

/// Information about a tensor that is being read.
#[derive(Debug)]
pub struct TensorLoadInfo {
    /// The name of the tensor.
    pub name: String,
    /// The number of dimensions in the tensor.
    pub n_dims: usize,
    /// The dimensions of the tensor.
    pub dims: Vec<usize>,
    /// The type of the elements in the tensor.
    pub element_type: ElementType,
    /// The place of the tensor's data, counted from the start of the file.
    pub start_offset: u64,
}

/// The number of elements of a tensor with the given dimensions: their product.
pub open spec fn element_count(dims: Seq<usize>) -> nat
    decreases dims.len(),
{
    if dims.len() == 0 {
        1
    } else {
        element_count(dims.drop_last()) * dims.last() as nat
    }
}

/// The product of the dimensions, taken from the first to the last, stays within `usize`.
pub open spec fn element_count_fits(dims: Seq<usize>) -> bool {
    forall|i: int| 0 <= i <= dims.len() ==> #[trigger] element_count(dims.take(i)) <= usize::MAX
}

impl TensorLoadInfo {
    /// The number of bytes that the tensor's values take.
    pub open spec fn data_bytes(self) -> nat {
        crate::element::block_bytes(self.element_type) * element_count(self.dims@)
            / crate::element::block_elements(self.element_type)
    }

    /// The number of bytes that the tensor's values take can be computed within `usize`.
    pub open spec fn data_bytes_fit(self) -> bool {
        &&& element_count_fits(self.dims@)
        &&& crate::element::block_bytes(self.element_type) * element_count(self.dims@)
            <= usize::MAX
    }

    /// The number of bytes that the tensor takes in a context: those of its header, and those
    /// of its values unless they are mapped from the file.
    pub open spec fn context_bytes(self, header_size: usize, mmap: bool) -> nat {
        if mmap {
            header_size as nat
        } else {
            header_size as nat + self.data_bytes()
        }
    }

    /// Calculates the size of the tensor's values in bytes; nothing if the calculation
    /// exceeds `usize`.
    pub fn calc_size(&self) -> (bytes: Option<usize>)
        ensures
            bytes is Some <==> self.data_bytes_fit(),
            bytes matches Some(n) ==> n == self.data_bytes(),
    {
        let mut count: usize = 1;
        let mut i: usize = 0;
        while i < self.dims.len()
            invariant
                i <= self.dims@.len(),
                count == element_count(self.dims@.take(i as int)),
                forall|j: int|
                    0 <= j <= i ==> #[trigger] element_count(self.dims@.take(j)) <= usize::MAX,
            decreases self.dims@.len() - i,
        {
            assert(self.dims@.take(i + 1).drop_last() =~= self.dims@.take(i as int));
            assert(element_count(self.dims@.take(i + 1)) == count * self.dims@[i as int]);
            match count.checked_mul(self.dims[i]) {
                Some(product) => {
                    count = product;
                },
                None => {
                    return None;
                },
            }
            i += 1;
        }
        assert(self.dims@.take(i as int) =~= self.dims@);
        let unit: usize = type_size(self.element_type);
        match unit.checked_mul(count) {
            Some(bytes) => Some(bytes / blck_size(self.element_type)),
            None => None,
        }
    }

    /// Calculates the size of the tensor in a context; nothing if the calculation exceeds
    /// `usize`.
    pub fn calc_absolute_size(&self, header_size: usize, mmap: bool) -> (bytes: Option<usize>)
        ensures
            bytes is Some <==> {
                &&& !mmap ==> self.data_bytes_fit()
                &&& self.context_bytes(header_size, mmap) <= usize::MAX
            },
            bytes matches Some(n) ==> n == self.context_bytes(header_size, mmap),
    {
        if mmap {
            Some(header_size)
        } else {
            match self.calc_size() {
                Some(size) => header_size.checked_add(size),
                None => None,
            }
        }
    }
}

/// The infos of `infos` by the names of their tensors; of several infos under one name the
/// last one counts.
pub open spec fn by_name(infos: Seq<TensorLoadInfo>) -> Map<Seq<char>, TensorLoadInfo>
    decreases infos.len(),
{
    if infos.len() == 0 {
        Map::empty()
    } else {
        by_name(infos.drop_last()).insert(infos.last().name@, infos.last())
    }
}

/// No two infos have the same name.
pub open spec fn names_distinct(infos: Seq<TensorLoadInfo>) -> bool {
    forall|i: int, j: int|
        0 <= i < j < infos.len() ==> (#[trigger] infos[i]).name@ != (#[trigger] infos[j]).name@
}

/// The number of bytes that a context for all the tensors of `infos` needs.
pub open spec fn total_bytes(infos: Seq<TensorLoadInfo>, header_size: usize, mmap: bool) -> nat
    decreases infos.len(),
{
    if infos.len() == 0 {
        0
    } else {
        total_bytes(infos.drop_last(), header_size, mmap) + infos.last().context_bytes(
            header_size,
            mmap,
        )
    }
}

/// The number of bytes for all the tensors of `infos` can be computed within `usize`.
pub open spec fn total_bytes_fit(
    infos: Seq<TensorLoadInfo>,
    header_size: usize,
    mmap: bool,
) -> bool {
    &&& !mmap ==> forall|i: int| 0 <= i < infos.len() ==> (#[trigger] infos[i]).data_bytes_fit()
    &&& total_bytes(infos, header_size, mmap) <= usize::MAX
}

/// The infos of a model's tensors, one for each name.
#[derive(Debug)]
pub struct TensorTable {
    infos: Vec<TensorLoadInfo>,
}

impl View for TensorTable {
    type V = Seq<TensorLoadInfo>;

    closed spec fn view(&self) -> Seq<TensorLoadInfo> {
        self.infos@
    }
}

impl TensorTable {
    /// Every name occurs once.
    #[verifier::type_invariant]
    spec fn well_formed(self) -> bool {
        names_distinct(self.infos@)
    }

    /// The infos by the names of their tensors.
    pub open spec fn as_map(self) -> Map<Seq<char>, TensorLoadInfo> {
        by_name(self@)
    }

    /// A table without tensors.
    pub fn new() -> (table: Self)
        ensures
            table@ == Seq::<TensorLoadInfo>::empty(),
            table.as_map() == Map::<Seq<char>, TensorLoadInfo>::empty(),
    {
        TensorTable { infos: Vec::new() }
    }

    /// The place of the tensor `name` in the table.
    fn position(&self, name: &str) -> (place: Option<usize>)
        ensures
            match place {
                Some(i) => i < self@.len() && self@[i as int].name@ == name@,
                None => forall|i: int| 0 <= i < self@.len() ==> (#[trigger] self@[i]).name@
                    != name@,
            },
    {
        let key: String = name.to_owned();
        let mut i: usize = 0;
        while i < self.infos.len()
            invariant
                i <= self.infos@.len(),
                key@ == name@,
                forall|j: int| 0 <= j < i ==> (#[trigger] self.infos@[j]).name@ != name@,
            decreases self.infos@.len() - i,
        {
            if self.infos[i].name == key {
                return Some(i);
            }
            i += 1;
        }
        None
    }

    /// The info of the tensor `name`.
    pub fn get(&self, name: &str) -> (info: Option<&TensorLoadInfo>)
        ensures
            info is Some <==> self.as_map().contains_key(name@),
            info matches Some(found) ==> *found == self.as_map()[name@] && found.name@ == name@,
            forall|i: int|
                0 <= i < self@.len() && (#[trigger] self@[i]).name@ == name@ ==> info == Some(
                    &self@[i],
                ),
            names_distinct(self@),
    {
        proof {
            use_type_invariant(self);
            by_name_finds_each(self@);
            by_name_holds_no_other(self@, name@);
        }
        match self.position(name) {
            Some(i) => Some(&self.infos[i]),
            None => None,
        }
    }

    /// Puts `info` in the table, in place of an earlier one of the same name.
    pub fn insert(&mut self, info: TensorLoadInfo)
        ensures
            final(self).as_map() == old(self).as_map().insert(info.name@, info),
            !old(self).as_map().contains_key(info.name@) ==> final(self)@ == old(self)@.push(info),
            old(self).as_map().contains_key(info.name@) ==> exists|i: int|
                0 <= i < old(self)@.len() && (#[trigger] old(self)@[i]).name@ == info.name@
                    && final(self)@ == old(self)@.update(i, info),
            names_distinct(final(self)@),
            final(self)@.contains(info),
            forall|i: int|
                0 <= i < old(self)@.len() && (#[trigger] old(self)@[i]).name@ != info.name@
                    ==> final(self)@.contains(old(self)@[i]),
            forall|i: int|
                0 <= i < final(self)@.len() ==> (#[trigger] final(self)@[i]) == info || old(
                    self,
                )@.contains(final(self)@[i]),
    {
        proof {
            use_type_invariant(&*self);
            by_name_holds_no_other(self@, info.name@);
        }
        let place: Option<usize> = self.position(info.name.as_str());
        let ghost before = self@;
        let mut infos: Vec<TensorLoadInfo> = Vec::new();
        std::mem::swap(&mut infos, &mut self.infos);
        match place {
            Some(i) => {
                infos[i] = info;
                proof {
                    assert(infos@ =~= before.update(i as int, info));
                    assert(infos@[i as int] == info);
                    assert forall|j: int|
                        0 <= j < before.len() && (#[trigger] before[j]).name@
                            != info.name@ implies infos@.contains(before[j]) by {
                        assert(infos@[j] == before[j]);
                    }
                    assert(before[i as int].name@ == info.name@);
                    by_name_after_update(before, i as int, info);
                }
            },
            None => {
                infos.push(info);
                assert(infos@.drop_last() =~= before);
                assert(infos@[before.len() as int] == info);
                assert forall|j: int| 0 <= j < before.len() implies infos@.contains(
                    #[trigger] before[j],
                ) by {
                    assert(infos@[j] == before[j]);
                }
            },
        }
        self.infos = infos;
    }

    /// The number of tensors.
    pub fn len(&self) -> (count: usize)
        ensures
            count == self@.len(),
            count == self.as_map().dom().len(),
            names_distinct(self@),
    {
        proof {
            use_type_invariant(self);
            by_name_size(self@);
        }
        self.infos.len()
    }

    /// The infos of all the tensors.
    pub fn infos(&self) -> (infos: &Vec<TensorLoadInfo>)
        ensures
            infos@ == self@,
            names_distinct(infos@),
    {
        proof {
            use_type_invariant(self);
        }
        &self.infos
    }
}

/// Every info of a sequence without repeated names is found under its name.
pub proof fn by_name_finds_each(infos: Seq<TensorLoadInfo>)
    requires
        names_distinct(infos),
    ensures
        forall|i: int|
            0 <= i < infos.len() ==> {
                &&& by_name(infos).contains_key((#[trigger] infos[i]).name@)
                &&& by_name(infos)[infos[i].name@] == infos[i]
            },
    decreases infos.len(),
{
    if infos.len() > 0 {
        let init = infos.drop_last();
        assert forall|i: int, j: int| 0 <= i < j < init.len() implies (#[trigger] init[i]).name@ != (
        #[trigger] init[j]).name@ by {
            assert(infos[i].name@ != infos[j].name@);
        }
        by_name_finds_each(init);
        assert forall|i: int| 0 <= i < infos.len() implies {
            &&& by_name(infos).contains_key((#[trigger] infos[i]).name@)
            &&& by_name(infos)[infos[i].name@] == infos[i]
        } by {
            if i < infos.len() - 1 {
                assert(infos[i] == init[i]);
                assert(infos[i].name@ != infos[infos.len() - 1].name@);
            }
        }
    }
}

/// A name that no info has is not found.
pub proof fn by_name_holds_no_other(infos: Seq<TensorLoadInfo>, name: Seq<char>)
    ensures
        by_name(infos).contains_key(name) <==> exists|i: int|
            0 <= i < infos.len() && (#[trigger] infos[i]).name@ == name,
    decreases infos.len(),
{
    if infos.len() > 0 {
        let init = infos.drop_last();
        by_name_holds_no_other(init, name);
        if by_name(infos).contains_key(name) {
            if infos.last().name@ == name {
                assert(infos[infos.len() - 1].name@ == name);
            } else {
                let i = choose|i: int| 0 <= i < init.len() && (#[trigger] init[i]).name@ == name;
                assert(infos[i].name@ == name);
            }
        }
        if exists|i: int| 0 <= i < infos.len() && (#[trigger] infos[i]).name@ == name {
            let i = choose|i: int| 0 <= i < infos.len() && (#[trigger] infos[i]).name@ == name;
            if i < init.len() {
                assert(init[i].name@ == name);
            }
        }
    }
}

/// Replacing an info by one of the same name changes what is found under that name only.
proof fn by_name_after_update(infos: Seq<TensorLoadInfo>, place: int, info: TensorLoadInfo)
    requires
        names_distinct(infos),
        0 <= place < infos.len(),
        infos[place].name@ == info.name@,
    ensures
        names_distinct(infos.update(place, info)),
        by_name(infos.update(place, info)) == by_name(infos).insert(info.name@, info),
{
    let updated = infos.update(place, info);
    assert forall|i: int, j: int| 0 <= i < j < updated.len() implies (#[trigger] updated[i]).name@
        != (#[trigger] updated[j]).name@ by {
        assert(infos[i].name@ != infos[j].name@);
    }
    by_name_finds_each(infos);
    by_name_finds_each(updated);
    assert(updated[place] == info);
    assert forall|name: Seq<char>| by_name(updated).contains_key(name) <==> #[trigger] by_name(
        infos,
    ).insert(info.name@, info).contains_key(name) by {
        by_name_holds_no_other(infos, name);
        by_name_holds_no_other(updated, name);
        if by_name(updated).contains_key(name) {
            let i = choose|i: int|
                0 <= i < updated.len() && (#[trigger] updated[i]).name@ == name;
            assert(infos[i].name@ == name);
        }
        if by_name(infos).contains_key(name) {
            let i = choose|i: int| 0 <= i < infos.len() && (#[trigger] infos[i]).name@ == name;
            assert(updated[i].name@ == name);
        }
    }
    assert forall|name: Seq<char>| #[trigger]
        by_name(updated).contains_key(name) implies by_name(updated)[name] == by_name(infos).insert(
        info.name@,
        info,
    )[name] by {
        by_name_holds_no_other(updated, name);
        let i = choose|i: int| 0 <= i < updated.len() && (#[trigger] updated[i]).name@ == name;
        if i != place {
            assert(infos[i] == updated[i]);
            if i < place {
                assert(infos[i].name@ != infos[place].name@);
            } else {
                assert(infos[place].name@ != infos[i].name@);
            }
        }
    }
    assert(by_name(updated) =~= by_name(infos).insert(info.name@, info));
}

/// There are as many names as infos.
pub proof fn by_name_size(infos: Seq<TensorLoadInfo>)
    requires
        names_distinct(infos),
    ensures
        by_name(infos).dom().finite(),
        by_name(infos).dom().len() == infos.len(),
    decreases infos.len(),
{
    if infos.len() > 0 {
        let init = infos.drop_last();
        assert forall|i: int, j: int| 0 <= i < j < init.len() implies (#[trigger] init[i]).name@ != (
        #[trigger] init[j]).name@ by {
            assert(infos[i].name@ != infos[j].name@);
        }
        by_name_size(init);
        by_name_holds_no_other(init, infos.last().name@);
        if by_name(init).contains_key(infos.last().name@) {
            let i = choose|i: int|
                0 <= i < init.len() && (#[trigger] init[i]).name@ == infos.last().name@;
            assert(infos[i].name@ != infos[infos.len() - 1].name@);
        }
        assert(by_name(infos).dom() =~= by_name(init).dom().insert(infos.last().name@));
    } else {
        assert(by_name(infos).dom() =~= Set::<Seq<char>>::empty());
    }
}

/// Whether any of the tensors holds quantized elements.
pub open spec fn any_quantized(infos: Seq<TensorLoadInfo>) -> bool {
    exists|i: int| 0 <= i < infos.len() && (#[trigger] infos[i]).element_type.quantized()
}

/// Whether any of the tensors of `table` holds quantized elements.
pub fn has_quantized(table: &TensorTable) -> (found: bool)
    ensures
        found == any_quantized(table@),
{
    let infos: &Vec<TensorLoadInfo> = table.infos();
    let mut i: usize = 0;
    while i < infos.len()
        invariant
            i <= infos@.len(),
            infos@ == table@,
            forall|j: int| 0 <= j < i ==> !(#[trigger] infos@[j]).element_type.quantized(),
        decreases infos@.len() - i,
    {
        if infos[i].element_type.is_quantized() {
            assert(table@[i as int].element_type.quantized());
            return true;
        }
        i += 1;
    }
    false
}

/// Calculates the size of a context for all the tensors of `table`; nothing if the
/// calculation exceeds `usize`.
pub fn context_size(table: &TensorTable, header_size: usize, mmap: bool) -> (bytes: Option<usize>)
    ensures
        bytes is Some <==> total_bytes_fit(table@, header_size, mmap),
        bytes matches Some(n) ==> n == total_bytes(table@, header_size, mmap),
{
    let infos: &Vec<TensorLoadInfo> = table.infos();
    let mut total: usize = 0;
    let mut i: usize = 0;
    while i < infos.len()
        invariant
            i <= infos@.len(),
            infos@ == table@,
            total == total_bytes(infos@.take(i as int), header_size, mmap),
            !mmap ==> forall|j: int| 0 <= j < i ==> (#[trigger] infos@[j]).data_bytes_fit(),
        decreases infos@.len() - i,
    {
        proof {
            assert(infos@.take(i + 1).drop_last() =~= infos@.take(i as int));
            assert(total_bytes(infos@.take(i + 1), header_size, mmap) == total
                + infos@[i as int].context_bytes(header_size, mmap));
            total_bytes_grow(infos@, i + 1, header_size, mmap);
        }
        match infos[i].calc_absolute_size(header_size, mmap) {
            Some(size) => {
                match total.checked_add(size) {
                    Some(sum) => {
                        total = sum;
                    },
                    None => {
                        return None;
                    },
                }
            },
            None => {
                return None;
            },
        }
        i += 1;
    }
    assert(infos@.take(i as int) =~= infos@);
    Some(total)
}

/// Fewer tensors need no more bytes.
proof fn total_bytes_grow(infos: Seq<TensorLoadInfo>, count: int, header_size: usize, mmap: bool)
    requires
        0 <= count <= infos.len(),
    ensures
        total_bytes(infos.take(count), header_size, mmap) <= total_bytes(infos, header_size, mmap),
    decreases infos.len(),
{
    if count == infos.len() {
        assert(infos.take(count) =~= infos);
    } else {
        total_bytes_grow(infos.drop_last(), count, header_size, mmap);
        assert(infos.drop_last().take(count) =~= infos.take(count));
    }
}

/// With mapped tensor data a context needs room for the headers only, whatever the tensors'
/// dimensions and types are.
pub proof fn mapped_tensors_need_headers_only(infos: Seq<TensorLoadInfo>, header_size: usize)
    ensures
        total_bytes(infos, header_size, true) == header_size * infos.len(),
        total_bytes_fit(infos, header_size, true) <==> header_size * infos.len() <= usize::MAX,
    decreases infos.len(),
{
    if infos.len() > 0 {
        mapped_tensors_need_headers_only(infos.drop_last(), header_size);
        assert(header_size * infos.len() == header_size * (infos.len() - 1) + header_size)
            by (nonlinear_arith)
            requires
                infos.len() > 0,
        ;
    } else {
        assert(header_size * infos.len() == 0) by (nonlinear_arith)
            requires
                infos.len() == 0,
        ;
    }
}

/// Taking an info out takes its bytes out of the total.
proof fn total_bytes_without(
    infos: Seq<TensorLoadInfo>,
    place: int,
    header_size: usize,
    mmap: bool,
)
    requires
        0 <= place < infos.len(),
    ensures
        total_bytes(infos, header_size, mmap) == total_bytes(
            infos.remove(place),
            header_size,
            mmap,
        ) + infos[place].context_bytes(header_size, mmap),
    decreases infos.len(),
{
    let init = infos.drop_last();
    if place == infos.len() - 1 {
        assert(infos.remove(place) =~= init);
    } else {
        total_bytes_without(init, place, header_size, mmap);
        assert(infos.remove(place).drop_last() =~= init.remove(place));
        assert(infos.remove(place).last() == infos.last());
    }
}

/// The size of a context does not depend on the order in which the tensors are counted.
pub proof fn total_bytes_without_order(
    a: Seq<TensorLoadInfo>,
    b: Seq<TensorLoadInfo>,
    header_size: usize,
    mmap: bool,
)
    requires
        a.to_multiset() == b.to_multiset(),
    ensures
        total_bytes(a, header_size, mmap) == total_bytes(b, header_size, mmap),
    decreases a.len(),
{
    broadcast use vstd::seq_lib::group_to_multiset_ensures;

    assert(a.len() == a.to_multiset().len() && b.len() == b.to_multiset().len());
    if a.len() > 0 {
        let last = a.last();
        assert(a.contains(last)) by {
            assert(a[a.len() - 1] == last);
        }
        assert(b.to_multiset().count(last) > 0);
        assert(b.contains(last));
        let place = choose|i: int| 0 <= i < b.len() && b[i] == last;
        let init = a.drop_last();
        assert(init =~= a.remove(a.len() - 1));
        assert(init.to_multiset() =~= b.remove(place).to_multiset());
        total_bytes_without_order(init, b.remove(place), header_size, mmap);
        total_bytes_without(b, place, header_size, mmap);
    }
}

/// The product of dimensions, from the first to the last.
pub open spec fn product(dims: Seq<usize>) -> int {
    dims.fold_left(1int, |product: int, dim: usize| product * dim)
}

/// A tensor has as many elements as its dimensions give multiplied.
proof fn elements_are_the_product(dims: Seq<usize>)
    ensures
        element_count(dims) == product(dims),
    decreases dims.len(),
{
    if dims.len() > 0 {
        elements_are_the_product(dims.drop_last());
    }
}

/// The values of a tensor take the blocks that its elements fill, each as large as a block of
/// their type; they are counted wherever no product on the way exceeds `usize`.
pub proof fn values_take_their_blocks(info: TensorLoadInfo, bytes: Option<usize>)
    requires
        call_ensures(TensorLoadInfo::calc_size, (&info,), bytes),
    ensures
        ({
            let elements = product(info.dims@);
            let in_blocks = crate::element::block_bytes(info.element_type) * elements;
            let per_block = crate::element::block_elements(info.element_type);
            &&& bytes is Some <==> in_blocks <= usize::MAX && forall|i: int|
                0 <= i <= info.dims@.len() ==> #[trigger] product(info.dims@.take(i)) <= usize::MAX
            &&& bytes matches Some(n) ==> per_block * n <= in_blocks < per_block * n + per_block
        }),
{
    elements_are_the_product(info.dims@);
    assert forall|i: int| 0 <= i <= info.dims@.len() implies element_count(info.dims@.take(i))
        == #[trigger] product(info.dims@.take(i)) by {
        elements_are_the_product(info.dims@.take(i));
    }
    assert forall|i: int| 0 <= i <= info.dims@.len() implies #[trigger] element_count(
        info.dims@.take(i),
    ) == product(info.dims@.take(i)) by {
        elements_are_the_product(info.dims@.take(i));
    }
    if let Some(n) = bytes {
        let in_blocks = (crate::element::block_bytes(info.element_type) * element_count(
            info.dims@,
        )) as int;
        let per_block = crate::element::block_elements(info.element_type) as int;
        vstd::arithmetic::div_mod::lemma_fundamental_div_mod(in_blocks, per_block);
    }
}

/// In a context a tensor takes its header, and its values behind it unless they are mapped.
pub proof fn tensors_take_header_and_values(
    info: TensorLoadInfo,
    header_size: usize,
    values: Option<usize>,
    mapped: Option<usize>,
    read: Option<usize>,
)
    requires
        call_ensures(TensorLoadInfo::calc_size, (&info,), values),
        call_ensures(TensorLoadInfo::calc_absolute_size, (&info, header_size, true), mapped),
        call_ensures(TensorLoadInfo::calc_absolute_size, (&info, header_size, false), read),
    ensures
        mapped == Some(header_size),
        read is Some <==> values is Some && header_size + values->0 <= usize::MAX,
        read is Some ==> read->0 == header_size + values->0,
{
}

/// A context takes exactly what its tensors take one by one, and has no size where one of them
/// has none or where they exceed `usize` together.
pub proof fn contexts_take_what_tensors_take(
    table: TensorTable,
    header_size: usize,
    mmap: bool,
    sizes: Seq<Option<usize>>,
    bytes: Option<usize>,
)
    requires
        call_ensures(context_size, (&table, header_size, mmap), bytes),
        sizes.len() == table@.len(),
        forall|i: int|
            0 <= i < sizes.len() ==> call_ensures(
                TensorLoadInfo::calc_absolute_size,
                (&table@[i], header_size, mmap),
                #[trigger] sizes[i],
            ),
    ensures
        ({
            let all = sizes.fold_left(
                0int,
                |sum: int, size: Option<usize>| sum + (size->0),
            );
            let known = forall|i: int| 0 <= i < sizes.len() ==> (#[trigger] sizes[i]) is Some;
            &&& bytes is Some <==> known && all <= usize::MAX
            &&& bytes is Some ==> bytes->0 == all
        }),
{
    let known = forall|i: int| 0 <= i < sizes.len() ==> (#[trigger] sizes[i]) is Some;
    if known {
        sizes_add_up(table@, header_size, mmap, sizes);
    }
    assert forall|i: int| 0 <= i < sizes.len() && bytes is Some implies (
    #[trigger] sizes[i]) is Some by {
        let info = table@[i];
        total_bytes_without(table@, i, header_size, mmap);
        assert(call_ensures(
            TensorLoadInfo::calc_absolute_size,
            (&table@[i], header_size, mmap),
            sizes[i],
        ));
    }
    if known && !mmap {
        assert forall|i: int| 0 <= i < table@.len() implies (
        #[trigger] table@[i]).data_bytes_fit() by {
            assert(sizes[i] is Some);
        }
    }
}

/// The sizes of tensors add up to the size of them all.
proof fn sizes_add_up(
    infos: Seq<TensorLoadInfo>,
    header_size: usize,
    mmap: bool,
    sizes: Seq<Option<usize>>,
)
    requires
        sizes.len() == infos.len(),
        forall|i: int|
            0 <= i < sizes.len() ==> (#[trigger] sizes[i]) is Some && call_ensures(
                TensorLoadInfo::calc_absolute_size,
                (&infos[i], header_size, mmap),
                sizes[i],
            ),
    ensures
        sizes.fold_left(0int, |sum: int, size: Option<usize>| sum + (size->0)) == total_bytes(
            infos,
            header_size,
            mmap,
        ),
    decreases infos.len(),
{
    if infos.len() > 0 {
        let init = infos.drop_last();
        let init_sizes = sizes.drop_last();
        assert forall|i: int| 0 <= i < init_sizes.len() implies (#[trigger] init_sizes[i]) is Some
            && call_ensures(
            TensorLoadInfo::calc_absolute_size,
            (&init[i], header_size, mmap),
            init_sizes[i],
        ) by {
            assert(sizes[i] == init_sizes[i]);
        }
        sizes_add_up(init, header_size, mmap, init_sizes);
        assert(sizes[sizes.len() - 1] is Some);
    }
}

/// A model has quantized tensors where one of its tensors is of another type than `I32`, `F16`
/// and `F32`.
pub proof fn quantized_tensors_are_found(table: TensorTable, found: bool)
    requires
        call_ensures(has_quantized, (&table,), found),
    ensures
        found == any_quantized(table@),
        found <==> exists|i: int|
            0 <= i < table@.len() && !((#[trigger] table@[i]).element_type is I32
                || table@[i].element_type is F16 || table@[i].element_type is F32),
{
    if found {
        let i = choose|i: int|
            0 <= i < table@.len() && (#[trigger] table@[i]).element_type.quantized();
        assert(!(table@[i].element_type is I32 || table@[i].element_type is F16
            || table@[i].element_type is F32));
    }
}

/// What is found under a name is the info of the table with that name, and nothing is found
/// where there is none.
pub proof fn infos_are_found_by_name(table: TensorTable, name: &str, found: Option<&TensorLoadInfo>)
    requires
        call_ensures(TensorTable::get, (&table, name), found),
    ensures
        found is None <==> forall|i: int|
            0 <= i < table@.len() ==> (#[trigger] table@[i]).name@ != name@,
        forall|i: int|
            0 <= i < table@.len() && (#[trigger] table@[i]).name@ == name@ ==> found == Some(
                &table@[i],
            ),
{
    by_name_finds_each(table@);
    by_name_holds_no_other(table@, name@);
}

/// A new table is empty.
pub proof fn new_tables_are_empty(
    table: TensorTable,
    name: &str,
    found: Option<&TensorLoadInfo>,
    count: usize,
)
    requires
        call_ensures(TensorTable::new, (), table),
        call_ensures(TensorTable::get, (&table, name), found),
        call_ensures(TensorTable::len, (&table,), count),
    ensures
        found is None,
        count == 0,
        table@.len() == 0,
{
}

/// After an info is put in a table, it is found under its name, in place of what was found
/// there, and under any other name is found what was found before; the table has grown by one
/// exactly where the name is new.
pub proof fn infos_are_found_again(
    table: &mut TensorTable,
    info: TensorLoadInfo,
    key: &str,
    name: &str,
    found: Option<&TensorLoadInfo>,
    held: Option<&TensorLoadInfo>,
    count: usize,
)
    requires
        call_ensures(TensorTable::get, (&*old(table), name), found),
        key@ == info.name@,
        call_ensures(TensorTable::get, (&*old(table), key), held),
        call_ensures(TensorTable::len, (&*old(table),), count),
        call_ensures(TensorTable::insert, (table, info), ()),
    ensures
        forall|now: Option<&TensorLoadInfo>| #[trigger]
            call_ensures(TensorTable::get, (&*final(table), name), now) ==> (if name@
                == info.name@ {
                now == Some(&info)
            } else {
                now == found
            }),
        forall|now: usize| #[trigger]
            call_ensures(TensorTable::len, (&*final(table),), now) ==> now == (if held is Some {
                count as int
            } else {
                count + 1
            }),
{
}

/// The infos of a table are all of its tensors, and as many as it counts.
pub proof fn tables_hand_out_all_infos(table: TensorTable, infos: &Vec<TensorLoadInfo>, count: usize)
    requires
        call_ensures(TensorTable::infos, (&table,), infos),
        call_ensures(TensorTable::len, (&table,), count),
    ensures
        infos@ == table@,
        count == infos@.len(),
        forall|i: int, j: int|
            0 <= i < j < infos@.len() ==> (#[trigger] infos@[i]).name@ != (
            #[trigger] infos@[j]).name@,
{
}

} // verus!
