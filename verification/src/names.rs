//! Sets of names.

use vstd::prelude::*;

verus! {

/// A set of names.
#[derive(Debug)]
pub struct NameSet {
    names: Vec<String>,
}

impl View for NameSet {
    type V = Set<Seq<char>>;

    closed spec fn view(&self) -> Set<Seq<char>> {
        self.keys().to_set()
    }
}

impl NameSet {
    /// The names as they are stored.
    spec fn keys(self) -> Seq<Seq<char>> {
        Seq::new(self.names@.len(), |i: int| self.names@[i]@)
    }

    /// No name is stored twice.
    #[verifier::type_invariant]
    spec fn stored_once(self) -> bool {
        self.keys().no_duplicates()
    }

    /// The empty set.
    pub fn new() -> (set: Self)
        ensures
            set@ == Set::<Seq<char>>::empty(),
    {
        let set = NameSet { names: Vec::new() };
        assert(set@ =~= Set::<Seq<char>>::empty());
        set
    }

    /// Whether `name` is in the set.
    pub fn contains(&self, name: &str) -> (found: bool)
        ensures
            found == self@.contains(name@),
    {
        let key: String = name.to_owned();
        let mut i: usize = 0;
        while i < self.names.len()
            invariant
                i <= self.names@.len(),
                key@ == name@,
                forall|j: int| 0 <= j < i ==> self.keys()[j] != name@,
            decreases self.names@.len() - i,
        {
            if self.names[i] == key {
                assert(self.keys()[i as int] == name@);
                return true;
            }
            i += 1;
        }
        false
    }

    /// The number of names in the set.
    pub fn len(&self) -> (count: usize)
        ensures
            count == self@.len(),
            self@.finite(),
    {
        proof {
            use_type_invariant(self);
            self.keys().unique_seq_to_set();
            vstd::seq_lib::seq_to_set_is_finite(self.keys());
        }
        self.names.len()
    }

    /// Puts `name` in the set.
    pub fn insert(&mut self, name: String)
        ensures
            final(self)@ == old(self)@.insert(name@),
    {
        proof {
            use_type_invariant(&*self);
        }
        if self.contains(name.as_str()) {
            assert(self@ =~= old(self)@.insert(name@));
        } else {
            let ghost before = self.keys();
            let mut names: Vec<String> = Vec::new();
            std::mem::swap(&mut names, &mut self.names);
            names.push(name);
            assert(NameSet { names }.keys() =~= before.push(name@));
            self.names = names;
            proof {
                before.lemma_push_to_set_commute(name@);
            }
            assert(self.keys() =~= before.push(name@));
        }
    }
}

/// A new set holds no name.
pub proof fn new_sets_are_empty(set: NameSet, name: &str, found: bool, count: usize)
    requires
        call_ensures(NameSet::new, (), set),
        call_ensures(NameSet::contains, (&set, name), found),
        call_ensures(NameSet::len, (&set,), count),
    ensures
        !found,
        count == 0,
{
}

/// After a name is put in a set, it is found there, and any other name is found exactly where it
/// was found before; the set has grown by one exactly where the name is new.
pub proof fn names_are_found_again(
    set: &mut NameSet,
    name: String,
    key: &str,
    other: &str,
    found: bool,
    held: bool,
    count: usize,
)
    requires
        call_ensures(NameSet::contains, (&*old(set), other), found),
        key@ == name@,
        call_ensures(NameSet::contains, (&*old(set), key), held),
        call_ensures(NameSet::len, (&*old(set),), count),
        call_ensures(NameSet::insert, (set, name), ()),
    ensures
        forall|now: bool| #[trigger]
            call_ensures(NameSet::contains, (&*final(set), other), now) ==> now == (found
                || other@ == name@),
        forall|now: usize| #[trigger]
            call_ensures(NameSet::len, (&*final(set),), now) ==> now == (if held {
                count as int
            } else {
                count + 1
            }),
{
}

} // verus!
