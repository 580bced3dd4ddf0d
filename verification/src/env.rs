//! The environment: the named type definitions of one interface.

use vstd::prelude::*;
use crate::types::Type;

verus! {

/// No two entries have the same name.
pub open spec fn distinct_names(entries: Seq<(String, Type)>) -> bool {
    forall|i: int, j: int|
        0 <= i < j < entries.len() ==> (#[trigger] entries[i]).0@ != (#[trigger] entries[j]).0@
}

/// Some entry has the name.
pub open spec fn has_name(entries: Seq<(String, Type)>, name: Seq<char>) -> bool {
    exists|i: int| 0 <= i < entries.len() && (#[trigger] entries[i]).0@ == name
}

/// The position of an entry that has the name, if there is one.
pub open spec fn index_of(entries: Seq<(String, Type)>, name: Seq<char>) -> int {
    choose|i: int| 0 <= i < entries.len() && (#[trigger] entries[i]).0@ == name
}

/// An ordered mapping from type names to types. No name occurs twice, and
/// entries stay in the order in which their names first came in. A type
/// may refer to any name, its own included: references are never followed
/// here.
///
/// The entries are held as a list, not as a sorted map: the order of a
/// document is then the order of insertion, which the contracts can speak
/// of, while nothing is known to them of how strings are ordered.
#[derive(Debug, PartialEq, Eq)]
pub struct TypeEnv {
    entries: Vec<(String, Type)>,
}

impl View for TypeEnv {
    type V = Seq<(String, Type)>;

    closed spec fn view(&self) -> Seq<(String, Type)> {
        self.entries@
    }
}

impl TypeEnv {
    #[verifier::type_invariant]
    spec fn well_formed(&self) -> bool {
        distinct_names(self.entries@)
    }

    /// The environment without entries.
    pub fn new() -> (env: Self)
        ensures
            env@.len() == 0,
    {
        TypeEnv { entries: Vec::new() }
    }

    /// The number of entries.
    pub fn len(&self) -> (n: usize)
        ensures
            n == self@.len(),
    {
        self.entries.len()
    }

    /// The entries in order. No two of them have the same name.
    pub fn entries(&self) -> (entries: &Vec<(String, Type)>)
        ensures
            entries@ == self@,
            distinct_names(entries@),
    {
        proof {
            use_type_invariant(self);
        }
        &self.entries
    }

    /// The type bound to a name, if the name is bound.
    pub fn find_type(&self, name: &str) -> (found: Option<&Type>)
        ensures
            match found {
                Some(ty) => has_name(self@, name@) && *ty == self@[index_of(self@, name@)].1,
                None => !has_name(self@, name@),
            },
    {
        proof {
            use_type_invariant(self);
        }
        let mut i: usize = 0;
        while i < self.entries.len()
            invariant
                i <= self.entries.len(),
                distinct_names(self.entries@),
                forall|j: int| 0 <= j < i ==> (#[trigger] self.entries@[j]).0@ != name@,
            decreases self.entries.len() - i,
        {
            if same_text(self.entries[i].0.as_str(), name) {
                proof {
                    let k = index_of(self@, name@);
                    assert(self@[i as int].0@ == name@);
                    assert(k == i) by {
                        if k < i {
                            assert(self@[k].0@ != self@[i as int].0@);
                        } else if i < k {
                            assert(self@[i as int].0@ != self@[k].0@);
                        }
                    }
                }
                return Some(&self.entries[i].1);
            }
            i += 1;
        }
        None
    }

    /// Binds a name to a type. A name that was bound keeps its place and
    /// gets the new type, and the type it had is returned; a new name goes
    /// to the end.
    pub fn insert(&mut self, name: String, ty: Type) -> (previous: Option<Type>)
        ensures
            has_name(old(self)@, name@) ==> previous == Some(
                old(self)@[index_of(old(self)@, name@)].1,
            ) && final(self)@ == old(self)@.update(
                index_of(old(self)@, name@),
                (old(self)@[index_of(old(self)@, name@)].0, ty),
            ),
            !has_name(old(self)@, name@) ==> previous.is_none() && final(self)@ == old(self)@.push(
                (name, ty),
            ),
    {
        proof {
            use_type_invariant(&*self);
        }
        let mut entries: Vec<(String, Type)> = Vec::new();
        std::mem::swap(&mut entries, &mut self.entries);
        let ghost before = entries@;
        let mut i: usize = 0;
        while i < entries.len()
            invariant
                i <= entries.len(),
                entries@ == before,
                before == old(self)@,
                distinct_names(before),
                forall|j: int| 0 <= j < i ==> (#[trigger] before[j]).0@ != name@,
            decreases entries.len() - i,
        {
            if same_text(entries[i].0.as_str(), name.as_str()) {
                proof {
                    let k = index_of(before, name@);
                    assert(before[i as int].0@ == name@);
                    assert(has_name(before, name@));
                    assert(k == i) by {
                        if k < i {
                            assert(before[k].0@ != before[i as int].0@);
                        } else if i < k {
                            assert(before[i as int].0@ != before[k].0@);
                        }
                    }
                }
                let (key, previous) = entries.remove(i);
                entries.insert(i, (key, ty));
                proof {
                    assert(entries@ =~= before.update(i as int, (key, ty)));
                    assert(distinct_names(entries@)) by {
                        assert forall|a: int, b: int| 0 <= a < b < entries@.len() implies (
                        #[trigger] entries@[a]).0@ != (#[trigger] entries@[b]).0@ by {
                            assert(entries@[a].0@ == before[a].0@);
                            assert(entries@[b].0@ == before[b].0@);
                        }
                    }
                }
                self.entries = entries;
                return Some(previous);
            }
            i += 1;
        }
        entries.push((name, ty));
        proof {
            assert(!has_name(before, name@));
            assert(distinct_names(entries@)) by {
                assert forall|a: int, b: int| 0 <= a < b < entries@.len() implies (
                #[trigger] entries@[a]).0@ != (#[trigger] entries@[b]).0@ by {
                    assert(entries@[a] == before[a]);
                    if b < before.len() {
                        assert(entries@[b] == before[b]);
                    }
                }
            }
        }
        self.entries = entries;
        None
    }
}

/// Whether two strings hold the same text.
fn same_text(a: &str, b: &str) -> (same: bool)
    ensures
        same == (a@ == b@),
{
    let left = a.to_owned();
    let right = b.to_owned();
    left == right
}

} // verus!
