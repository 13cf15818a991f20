//! A lock directory held in memory.
//!
//! It behaves as a directory of marker entries does for a single process:
//! an entry exists once it is created and until it is removed, and nothing
//! can be created in or removed from a directory that is not writable (one
//! that is missing or read-only). Handles run against it exactly as against
//! the real filesystem, which makes it the directory to test callers with.
use vstd::prelude::*;
use vstd::string::StringExecFns;

use crate::outcome::CreateResult;

verus! {

/// The reason that a change to a directory that is not writable fails with.
pub const NOT_WRITABLE: &'static str = "lock directory is missing or not writable";

/// The reason that removing a path with no entry fails with.
pub const NO_ENTRY: &'static str = "no entry at that path";

/// A directory of marker entries, held in memory.
pub struct MarkerDir {
    entries: Vec<String>,
    writable: bool,
}

impl View for MarkerDir {
    type V = Set<Seq<char>>;

    /// The paths at which an entry exists.
    closed spec fn view(&self) -> Set<Seq<char>> {
        Set::new(|p: Seq<char>| exists|i: int| 0 <= i < self.entries@.len() && self.entries@[i]@ == p)
    }
}

impl MarkerDir {
    /// Each path is held at most once.
    pub closed spec fn wf(&self) -> bool {
        forall|i: int, j: int|
            0 <= i < j < self.entries@.len() ==> self.entries@[i]@ != self.entries@[j]@
    }

    /// Whether entries can be created and removed.
    pub closed spec fn is_writable(&self) -> bool {
        self.writable
    }

    /// An empty, writable directory.
    pub fn new() -> (r: MarkerDir)
        ensures
            r.wf(),
            r@ == Set::<Seq<char>>::empty(),
            r.is_writable(),
    {
        let r = MarkerDir { entries: Vec::new(), writable: true };
        assert(r@ =~= Set::<Seq<char>>::empty());
        r
    }

    /// An empty directory in which nothing can be created: one that is
    /// missing or read-only.
    pub fn unwritable() -> (r: MarkerDir)
        ensures
            r.wf(),
            r@ == Set::<Seq<char>>::empty(),
            !r.is_writable(),
    {
        let r = MarkerDir { entries: Vec::new(), writable: false };
        assert(r@ =~= Set::<Seq<char>>::empty());
        r
    }

    /// Whether an entry exists at `path`.
    pub fn contains(&self, path: &str) -> (r: bool)
        ensures
            r == self@.contains(path@),
    {
        let wanted = String::from_str(path);
        let mut i: usize = 0;
        while i < self.entries.len()
            invariant
                0 <= i <= self.entries@.len(),
                wanted@ == path@,
                forall|j: int| 0 <= j < i ==> self.entries@[j]@ != path@,
            decreases self.entries@.len() - i,
        {
            let found = self.entries[i] == wanted;
            assert(found == (self.entries@[i as int]@ == path@));
            if found {
                assert(self@.contains(path@));
                return true;
            }
            i = i + 1;
        }
        false
    }

    /// Writes an entry at `path`. An existing entry is kept as it is.
    pub fn create(&mut self, path: &str) -> (r: Result<(), String>)
        requires
            old(self).wf(),
        ensures
            final(self).wf(),
            final(self).is_writable() == old(self).is_writable(),
            old(self).is_writable() ==> r is Ok && final(self)@ == old(self)@.insert(path@),
            !old(self).is_writable() ==> r is Err && final(self)@ == old(self)@,
    {
        if !self.writable {
            return Err(String::from_str(NOT_WRITABLE));
        }
        if !self.contains(path) {
            let ghost before = self.entries@;
            self.entries.push(String::from_str(path));
            assert(self@ =~= old(self)@.insert(path@)) by {
                assert(self.entries@[before.len() as int]@ == path@);
                assert forall|p: Seq<char>| old(self)@.contains(p) implies self@.contains(p) by {
                    let i = choose|i: int| 0 <= i < before.len() && before[i]@ == p;
                    assert(self.entries@[i]@ == p);
                }
            }
        } else {
            assert(old(self)@.insert(path@) =~= old(self)@);
        }
        Ok(())
    }

    /// Creates an entry at `path` only if none exists there.
    pub fn create_new(&mut self, path: &str) -> (r: CreateResult)
        requires
            old(self).wf(),
        ensures
            final(self).wf(),
            final(self).is_writable() == old(self).is_writable(),
            old(self)@.contains(path@) ==> r == CreateResult::AlreadyExists && final(self)@ == old(self)@,
            !old(self)@.contains(path@) && old(self).is_writable() ==> r == CreateResult::Created
                && final(self)@ == old(self)@.insert(path@),
            !old(self)@.contains(path@) && !old(self).is_writable() ==> r is Failed
                && final(self)@ == old(self)@,
    {
        if self.contains(path) {
            CreateResult::AlreadyExists
        } else {
            match self.create(path) {
                Ok(()) => CreateResult::Created,
                Err(reason) => CreateResult::Failed(reason),
            }
        }
    }

    /// Removes the entry at `path`.
    pub fn remove(&mut self, path: &str) -> (r: Result<(), String>)
        requires
            old(self).wf(),
        ensures
            final(self).wf(),
            final(self).is_writable() == old(self).is_writable(),
            old(self).is_writable() && old(self)@.contains(path@) ==> r is Ok && final(self)@
                == old(self)@.remove(path@),
            !(old(self).is_writable() && old(self)@.contains(path@)) ==> r is Err && final(self)@
                == old(self)@,
    {
        if !self.writable {
            return Err(String::from_str(NOT_WRITABLE));
        }
        let wanted = String::from_str(path);
        let mut i: usize = 0;
        while i < self.entries.len()
            invariant
                0 <= i <= self.entries@.len(),
                old(self).wf(),
                self.entries@ == old(self).entries@,
                self.writable,
                old(self).writable,
                wanted@ == path@,
                forall|j: int| 0 <= j < i ==> self.entries@[j]@ != path@,
            decreases self.entries@.len() - i,
        {
            if self.entries[i] == wanted {
                let ghost before = self.entries@;
                assert(old(self)@.contains(path@) && before[i as int]@ == path@);
                self.entries.remove(i);
                assert(self@ =~= old(self)@.remove(path@)) by {
                    assert forall|p: Seq<char>| self@.contains(p) implies old(self)@.remove(path@).contains(p) by {
                        let k = choose|k: int| 0 <= k < self.entries@.len() && self.entries@[k]@ == p;
                        if k < i {
                            assert(before[k]@ == p);
                            assert(before[k]@ != before[i as int]@);
                        } else {
                            assert(before[k + 1]@ == p);
                            assert(before[k + 1]@ != before[i as int]@);
                        }
                    }
                    assert forall|p: Seq<char>| old(self)@.remove(path@).contains(p) implies self@.contains(p) by {
                        let k = choose|k: int| 0 <= k < before.len() && before[k]@ == p;
                        if k < i {
                            assert(self.entries@[k]@ == p);
                        } else {
                            assert(k != i);
                            assert(self.entries@[k - 1]@ == p);
                        }
                    }
                }
                assert forall|a: int, b: int| 0 <= a < b < self.entries@.len() implies self.entries@[a]@
                    != self.entries@[b]@ by {
                    let a0 = if a < i { a } else { a + 1 };
                    let b0 = if b < i { b } else { b + 1 };
                    assert(self.entries@[a] == before[a0]);
                    assert(self.entries@[b] == before[b0]);
                }
                return Ok(());
            }
            i = i + 1;
        }
        assert(!old(self)@.contains(path@));
        Err(String::from_str(NO_ENTRY))
    }
}

} // verus!
