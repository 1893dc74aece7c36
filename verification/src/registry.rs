//! The registry of one generation run: the canonical names whose code has
//! been emitted so far, and the canonical names of the types whose helper
//! code emitted code refers to.
//!
//! A registry lives for one run. It starts empty and is handed through the
//! generators explicitly, so nothing of one run reaches another.

use vstd::prelude::*;
use crate::resolve::TypeInfo;

verus! {

/// The names emitted and the names requested so far in one generation run.
#[derive(Debug)]
pub struct Registry {
    names: Vec<String>,
    wanted: Vec<String>,
}

impl View for Registry {
    type V = Set<Seq<char>>;

    closed spec fn view(&self) -> Set<Seq<char>> {
        Set::new(|name: Seq<char>| exists|i: int| 0 <= i < self.names@.len() && self.names@[i]@ == name)
    }
}

impl Registry {
    /// The canonical names of the types whose helper code the emitted code
    /// refers to. Requesting a type does not emit it and does not keep it
    /// from being emitted.
    pub closed spec fn requested(&self) -> Set<Seq<char>> {
        Set::new(
            |name: Seq<char>| exists|i: int| 0 <= i < self.wanted@.len() && self.wanted@[i]@ == name,
        )
    }

    /// The registry of a new run: nothing has been emitted or requested.
    pub fn new() -> (registry: Registry)
        ensures
            registry@ == Set::<Seq<char>>::empty(),
            registry.requested() == Set::<Seq<char>>::empty(),
    {
        let registry = Registry { names: Vec::new(), wanted: Vec::new() };
        assert(registry@ =~= Set::<Seq<char>>::empty());
        assert(registry.requested() =~= Set::<Seq<char>>::empty());
        registry
    }

    /// True when the helper code of the type called `name` was requested in
    /// this run.
    pub fn is_requested(&self, name: &str) -> (found: bool)
        ensures
            found == self.requested().contains(name@),
    {
        let wanted = String::from_str(name);
        let n = self.wanted.len();
        let mut i: usize = 0;
        while i < n
            invariant
                0 <= i <= n,
                n == self.wanted@.len(),
                wanted@ == name@,
                forall|j: int| 0 <= j < i ==> self.wanted@[j]@ != name@,
            decreases n - i,
        {
            if self.wanted[i] == wanted {
                return true;
            }
            i += 1;
        }
        false
    }

    /// Records that emitted code refers to the helper code of the type
    /// called `name`. What was emitted stays as it is.
    pub fn request(&mut self, name: &str)
        ensures
            final(self).requested() == old(self).requested().insert(name@),
            final(self)@ == old(self)@,
    {
        if self.is_requested(name) {
            assert(self.requested() =~= old(self).requested().insert(name@));
        } else {
            let ghost before = self.wanted@;
            self.wanted.push(String::from_str(name));
            assert(forall|i: int| 0 <= i < before.len() ==> self.wanted@[i] == before[i]);
            assert forall|s: Seq<char>| self.requested().contains(s) <==> old(self).requested().insert(name@).contains(s) by {
                if old(self).requested().contains(s) {
                    let i = choose|i: int| 0 <= i < before.len() && before[i]@ == s;
                    assert(self.wanted@[i]@ == s);
                }
                if s == name@ {
                    assert(self.wanted@[before.len() as int]@ == s);
                }
            }
            assert(self.requested() =~= old(self).requested().insert(name@));
        }
    }

    /// True when `name` was emitted before in this run.
    pub fn contains(&self, name: &str) -> (found: bool)
        ensures
            found == self@.contains(name@),
    {
        let wanted = String::from_str(name);
        let n = self.names.len();
        let mut i: usize = 0;
        while i < n
            invariant
                0 <= i <= n,
                n == self.names@.len(),
                wanted@ == name@,
                forall|j: int| 0 <= j < i ==> self.names@[j]@ != name@,
            decreases n - i,
        {
            if self.names[i] == wanted {
                return true;
            }
            i += 1;
        }
        false
    }

    /// Records that the code called `name` is being emitted, and tells
    /// whether it was emitted before: the caller emits only when the answer
    /// is `false`.
    pub fn include_once_by_name(&mut self, name: &str) -> (already: bool)
        ensures
            already == old(self)@.contains(name@),
            final(self)@ == old(self)@.insert(name@),
            final(self).requested() == old(self).requested(),
    {
        if self.contains(name) {
            assert(self@ =~= old(self)@.insert(name@));
            true
        } else {
            let ghost before = self.names@;
            self.names.push(String::from_str(name));
            assert(forall|i: int| 0 <= i < before.len() ==> self.names@[i] == before[i]);
            assert forall|s: Seq<char>| self@.contains(s) <==> old(self)@.insert(name@).contains(
                s,
            ) by {
                if old(self)@.contains(s) {
                    let i = choose|i: int| 0 <= i < before.len() && before[i]@ == s;
                    assert(self.names@[i]@ == s);
                }
                if s == name@ {
                    assert(self.names@[before.len() as int]@ == s);
                }
            }
            assert(self@ =~= old(self)@.insert(name@));
            false
        }
    }

    /// Records the helper code of a resolved type under its canonical name,
    /// and tells whether it was emitted before.
    pub fn include_once_check(&mut self, info: &TypeInfo) -> (already: bool)
        ensures
            already == old(self)@.contains(info@.canonical_name),
            final(self)@ == old(self)@.insert(info@.canonical_name),
            final(self).requested() == old(self).requested(),
    {
        self.include_once_by_name(info.canonical_name.as_str())
    }
}

} // verus!
