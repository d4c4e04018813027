//! LoRA adapters: files whose tensors patch those of a model.

use crate::names::NameSet;
use crate::tensors::{TensorLoadInfo, TensorTable};
use crate::text::name_stem;
use std::path::PathBuf;
use vstd::prelude::*;

verus! {

/// The names of the tensors that the tensors of a LoRA file patch: of every name in the file
/// that holds a `.`, the part before the last one.
pub open spec fn patch_targets(infos: Seq<TensorLoadInfo>) -> Set<Seq<char>> {
    Set::new(
        |target: Seq<char>|
            exists|i: int|
                0 <= i < infos.len() && crate::text::stem((#[trigger] infos[i]).name@) == Some(
                    target,
                ),
    )
}

/// A LoRA file that was read.
#[derive(Debug)]
pub struct LoraAdapter {
    /// The tensors of the file.
    pub tensors: TensorTable,
    /// The names of the tensors that should be patched.
    pub tensors_to_patch: NameSet,
    /// The path of the file.
    pub path: PathBuf,
}

impl LoraAdapter {
    /// This is the adapter that the file at `path` with `tensors` gives.
    pub open spec fn made_of(self, tensors: TensorTable, path: PathBuf) -> bool {
        &&& self.tensors == tensors
        &&& self.tensors_to_patch@ == patch_targets(tensors@)
        &&& self.path == path
    }

    /// The adapter that the file at `path` with `tensors` gives.
    pub fn new(tensors: TensorTable, path: PathBuf) -> (adapter: Self)
        ensures
            adapter.made_of(tensors, path),
    {
        let tensors_to_patch: NameSet = tensors_to_patch(&tensors);
        LoraAdapter { tensors, tensors_to_patch, path }
    }
}

/// Collects the names of the tensors that the tensors of a LoRA file patch.
pub fn tensors_to_patch(tensors: &TensorTable) -> (targets: NameSet)
    ensures
        targets@ == patch_targets(tensors@),
{
    let infos: &Vec<TensorLoadInfo> = tensors.infos();
    let mut targets: NameSet = NameSet::new();
    let mut i: usize = 0;
    assert(targets@ =~= patch_targets(infos@.take(0)));
    while i < infos.len()
        invariant
            i <= infos@.len(),
            infos@ == tensors@,
            targets@ == patch_targets(infos@.take(i as int)),
        decreases infos@.len() - i,
    {
        proof {
            patch_targets_with_one_more(infos@, i as int);
        }
        match name_stem(infos[i].name.as_str()) {
            Some(target) => {
                targets.insert(target);
            },
            None => {},
        }
        i += 1;
    }
    assert(infos@.take(i as int) =~= infos@);
    targets
}

/// One more tensor adds the target of its name, if it has one.
proof fn patch_targets_with_one_more(infos: Seq<TensorLoadInfo>, count: int)
    requires
        0 <= count < infos.len(),
    ensures
        patch_targets(infos.take(count + 1)) == (match crate::text::stem(infos[count].name@) {
            Some(target) => patch_targets(infos.take(count)).insert(target),
            None => patch_targets(infos.take(count)),
        }),
{
    let before = infos.take(count);
    let after = infos.take(count + 1);
    assert(after[count] == infos[count]);
    assert forall|target: Seq<char>| patch_targets(before).contains(target) implies #[trigger]
        patch_targets(after).contains(target) by {
        let i = choose|i: int|
            0 <= i < before.len() && crate::text::stem((#[trigger] before[i]).name@) == Some(target);
        assert(after[i] == before[i]);
    }
    assert forall|target: Seq<char>| #[trigger]
        patch_targets(after).contains(target) implies patch_targets(before).contains(target)
        || crate::text::stem(infos[count].name@) == Some(target) by {
        let i = choose|i: int|
            0 <= i < after.len() && crate::text::stem((#[trigger] after[i]).name@) == Some(target);
        if i < count {
            assert(before[i] == after[i]);
        }
    }
    match crate::text::stem(infos[count].name@) {
        Some(target) => {
            assert(patch_targets(after) =~= patch_targets(before).insert(target));
        },
        None => {
            assert(patch_targets(after) =~= patch_targets(before));
        },
    }
}

/// A tensor is patched by a LoRA file exactly where the file holds a tensor whose name is that
/// of the patched one, a `.`, and an ending without a `.`.
pub proof fn patched_names(table: TensorTable, targets: NameSet)
    requires
        call_ensures(tensors_to_patch, (&table,), targets),
    ensures
        targets@ == patch_targets(table@),
        forall|i: int, target: Seq<char>, ending: Seq<char>|
            0 <= i < table@.len() && (#[trigger] table@[i]).name@ == #[trigger] (target + seq!['.']
                + ending) && !ending.contains('.') ==> targets@.contains(target),
        forall|target: Seq<char>| #[trigger]
            targets@.contains(target) ==> exists|i: int, ending: Seq<char>|
                0 <= i < table@.len() && (#[trigger] table@[i]).name@ == #[trigger] (target
                    + seq!['.'] + ending) && !ending.contains('.'),
{
    assert forall|i: int, target: Seq<char>, ending: Seq<char>|
        0 <= i < table@.len() && (#[trigger] table@[i]).name@ == #[trigger] (target + seq!['.']
            + ending) && !ending.contains('.') implies targets@.contains(target) by {
        let name = table@[i].name@;
        crate::text::stem_splits_at_the_last_dot(name);
        let dot = target.len() as int;
        assert(name[dot] == '.');
        assert(name.contains('.'));
        let prefix = crate::text::stem(name)->0;
        assert forall|j: int| dot < j < name.len() implies name[j] != '.' by {
            assert(name[j] == ending[j - dot - 1]);
        }
        assert(prefix.len() == dot);
        assert(prefix =~= target);
    }
    assert forall|target: Seq<char>| #[trigger] targets@.contains(target) implies exists|
        i: int,
        ending: Seq<char>,
    |
        0 <= i < table@.len() && (#[trigger] table@[i]).name@ == #[trigger] (target + seq!['.']
            + ending) && !ending.contains('.') by {
        let i = choose|i: int|
            0 <= i < table@.len() && crate::text::stem((#[trigger] table@[i]).name@) == Some(
                target,
            );
        let name = table@[i].name@;
        crate::text::stem_splits_at_the_last_dot(name);
        let ending = name.skip(target.len() as int + 1);
        assert forall|j: int| 0 <= j < ending.len() implies ending[j] != '.' by {
            assert(ending[j] == name[target.len() + 1 + j]);
        }
        assert(name =~= target + seq!['.'] + ending);
        assert(table@[i].name@ == target + seq!['.'] + ending);
    }
}

/// An adapter keeps the tensors and the path of its file, and patches what the file patches.
pub proof fn adapters_are_made_of_their_files(
    tensors: TensorTable,
    path: PathBuf,
    targets: NameSet,
    adapter: LoraAdapter,
)
    requires
        call_ensures(tensors_to_patch, (&tensors,), targets),
        call_ensures(LoraAdapter::new, (tensors, path), adapter),
    ensures
        adapter.tensors == tensors,
        adapter.path == path,
        adapter.tensors_to_patch@ == targets@,
{
}

} // verus!
