//! A table of values keyed by text ids, at most one value per id.

use vstd::prelude::*;
use vstd::string::{StrSliceExecFns, StringExecFns};

verus! {

/// A table keyed by text ids: at most one entry per id.
pub struct IdTable<T> {
    entries: Vec<(String, T)>,
    ghost_map: Ghost<Map<Seq<char>, T>>,
}

impl<T> View for IdTable<T> {
    type V = Map<Seq<char>, T>;

    closed spec fn view(&self) -> Map<Seq<char>, T> {
        self.ghost_map@
    }
}

impl<T> IdTable<T> {
    /// The entries are exactly the map, one per id.
    pub closed spec fn wf(&self) -> bool {
        &&& forall|i: int| 0 <= i < self.entries@.len() ==> {
            &&& self.ghost_map@.contains_key(#[trigger] self.entries@[i].0@)
            &&& self.ghost_map@[self.entries@[i].0@] == self.entries@[i].1
        }
        &&& forall|i: int, j: int| 0 <= i < j < self.entries@.len() ==> #[trigger] self.entries@[i].0@ != #[trigger] self.entries@[j].0@
        &&& forall|k: Seq<char>| self.ghost_map@.contains_key(k) ==> exists|i: int| 0 <= i < self.entries@.len() && #[trigger] self.entries@[i].0@ == k
    }

    /// An empty table.
    pub fn new() -> (r: Self)
        ensures
            r.wf(),
            r@ == Map::<Seq<char>, T>::empty(),
    {
        IdTable { entries: Vec::new(), ghost_map: Ghost(Map::empty()) }
    }

    fn find(&self, id: &String) -> (r: Option<usize>)
        requires
            self.wf(),
        ensures
            match r {
                Some(i) => i < self.entries@.len() && self.entries@[i as int].0@ == id@,
                None => !self@.contains_key(id@),
            },
    {
        let mut i: usize = 0;
        while i < self.entries.len()
            invariant
                self.wf(),
                0 <= i <= self.entries@.len(),
                forall|j: int| 0 <= j < i ==> self.entries@[j].0@ != id@,
            decreases self.entries@.len() - i,
        {
            if self.entries[i].0 == *id {
                return Some(i);
            }
            i = i + 1;
        }
        None
    }

    /// Whether an entry with this id is present.
    pub fn contains(&self, id: &String) -> (r: bool)
        requires
            self.wf(),
        ensures
            r == self@.contains_key(id@),
    {
        match self.find(id) {
            Some(_) => true,
            None => false,
        }
    }

    /// The entry under `id`, if there is one.
    pub fn get(&self, id: &String) -> (r: Option<&T>)
        requires
            self.wf(),
        ensures
            self@.contains_key(id@) ==> (r matches Some(x) && *x == self@[id@]),
            !self@.contains_key(id@) ==> r.is_none(),
    {
        match self.find(id) {
            Some(i) => Some(&self.entries[i].1),
            None => None,
        }
    }

    /// `base` when no entry has that id; otherwise `base` lengthened with
    /// `-` until it is longer than every id in the table.
    pub fn fresh_key(&self, base: String) -> (r: String)
        requires
            self.wf(),
        ensures
            !self@.contains_key(r@),
            !self@.contains_key(base@) ==> r == base,
    {
        if !self.contains(&base) {
            return base;
        }
        let mut longest: usize = 0;
        let mut i: usize = 0;
        while i < self.entries.len()
            invariant
                self.wf(),
                0 <= i <= self.entries@.len(),
                forall|j: int| 0 <= j < i ==> self.entries@[j].0@.len() <= longest,
            decreases self.entries@.len() - i,
        {
            let n = self.entries[i].0.as_str().unicode_len();
            if n > longest {
                longest = n;
            }
            i = i + 1;
        }
        let mut key = base;
        while key.as_str().unicode_len() <= longest
            invariant
                forall|j: int| 0 <= j < self.entries@.len() ==> self.entries@[j].0@.len() <= longest,
            decreases longest + 1 - key@.len(),
        {
            proof {
                reveal_strlit("-");
            }
            key.append("-");
        }
        proof {
            assert forall|k: Seq<char>| self@.contains_key(k) implies k != key@ by {
                let j = choose|j: int| 0 <= j < self.entries@.len() && #[trigger] self.entries@[j].0@ == k;
            }
        }
        key
    }

    /// How many entries the table holds.
    pub fn len(&self) -> (r: usize)
        requires
            self.wf(),
        ensures
            r == self@.dom().len(),
    {
        proof {
            self.lemma_len();
        }
        self.entries.len()
    }

    proof fn lemma_len(&self)
        requires
            self.wf(),
        ensures
            self.entries@.len() == self@.dom().len(),
    {
        let keys = self.entries@.map_values(|e: (String, T)| e.0@);
        assert forall|i: int, j: int| 0 <= i < keys.len() && 0 <= j < keys.len() && i != j implies keys[i] != keys[j] by {
            if i < j {
                assert(self.entries@[i].0@ != self.entries@[j].0@);
            } else {
                assert(self.entries@[j].0@ != self.entries@[i].0@);
            }
        }
        assert(keys.no_duplicates());
        keys.unique_seq_to_set();
        assert forall|k: Seq<char>| keys.to_set().contains(k) <==> self@.dom().contains(k) by {
            if self@.dom().contains(k) {
                let i = choose|i: int| 0 <= i < self.entries@.len() && #[trigger] self.entries@[i].0@ == k;
                assert(keys[i] == k);
            }
            if keys.to_set().contains(k) {
                let i = choose|i: int| 0 <= i < keys.len() && keys[i] == k;
                assert(self.entries@[i].0@ == k);
            }
        }
        assert(keys.to_set() =~= self@.dom());
    }

    /// Adds an entry under a new id. An id that is already present is
    /// refused and the value given back.
    pub fn register(&mut self, id: String, handle: T) -> (r: Result<(), T>)
        requires
            old(self).wf(),
        ensures
            final(self).wf(),
            old(self)@.contains_key(id@) ==> r == Err::<(), T>(handle) && final(self)@ == old(self)@,
            !old(self)@.contains_key(id@) ==> r is Ok && final(self)@ == old(self)@.insert(id@, handle),
    {
        if self.find(&id).is_some() {
            return Err(handle);
        }
        let ghost key = id@;
        let ghost before = self.entries@;
        self.entries.push((id, handle));
        self.ghost_map = Ghost(self.ghost_map@.insert(key, handle));
        proof {
            let n = before.len() as int;
            assert forall|i: int| 0 <= i < self.entries@.len() implies {
                &&& self.ghost_map@.contains_key(#[trigger] self.entries@[i].0@)
                &&& self.ghost_map@[self.entries@[i].0@] == self.entries@[i].1
            } by {
                if i < n {
                    assert(self.entries@[i] == before[i]);
                    assert(before[i].0@ != key);
                }
            }
            assert forall|i: int, j: int| 0 <= i < j < self.entries@.len() implies #[trigger] self.entries@[i].0@
                != #[trigger] self.entries@[j].0@ by {
                if j == n {
                    assert(self.entries@[i] == before[i]);
                } else {
                    assert(self.entries@[i] == before[i]);
                    assert(self.entries@[j] == before[j]);
                }
            }
            assert forall|k: Seq<char>| self.ghost_map@.contains_key(k) implies exists|i: int|
                0 <= i < self.entries@.len() && #[trigger] self.entries@[i].0@ == k by {
                if k == key {
                    assert(self.entries@[n].0@ == k);
                } else {
                    let i = choose|i: int| 0 <= i < before.len() && #[trigger] before[i].0@ == k;
                    assert(self.entries@[i] == before[i]);
                }
            }
        }
        Ok(())
    }

    /// Removes and returns the entry under `id`; `None`, with the table
    /// unchanged, when there is none.
    pub fn take(&mut self, id: &String) -> (r: Option<T>)
        requires
            old(self).wf(),
        ensures
            final(self).wf(),
            old(self)@.contains_key(id@) ==> r == Some(old(self)@[id@]) && final(self)@ == old(self)@.remove(id@),
            !old(self)@.contains_key(id@) ==> r.is_none() && final(self)@ == old(self)@,
    {
        let i = match self.find(id) {
            Some(i) => i,
            None => return None,
        };
        let ghost key = id@;
        let ghost before = self.entries@;
        let (_, handle) = self.entries.remove(i);
        self.ghost_map = Ghost(self.ghost_map@.remove(key));
        proof {
            let n = before.len() as int;
            assert forall|j: int| 0 <= j < self.entries@.len() implies {
                &&& self.ghost_map@.contains_key(#[trigger] self.entries@[j].0@)
                &&& self.ghost_map@[self.entries@[j].0@] == self.entries@[j].1
            } by {
                if j < i {
                    assert(self.entries@[j] == before[j]);
                    assert(before[j].0@ != before[i as int].0@);
                } else {
                    assert(self.entries@[j] == before[j + 1]);
                    assert(before[i as int].0@ != before[j + 1].0@);
                }
            }
            assert forall|a: int, b: int| 0 <= a < b < self.entries@.len() implies #[trigger] self.entries@[a].0@
                != #[trigger] self.entries@[b].0@ by {
                let a2 = if a < i { a } else { a + 1 };
                let b2 = if b < i { b } else { b + 1 };
                assert(self.entries@[a] == before[a2]);
                assert(self.entries@[b] == before[b2]);
            }
            assert forall|k: Seq<char>| self.ghost_map@.contains_key(k) implies exists|j: int|
                0 <= j < self.entries@.len() && #[trigger] self.entries@[j].0@ == k by {
                let j = choose|j: int| 0 <= j < before.len() && #[trigger] before[j].0@ == k;
                assert(j != i);
                if j < i {
                    assert(self.entries@[j] == before[j]);
                } else {
                    assert(self.entries@[j - 1] == before[j]);
                }
            }
        }
        Some(handle)
    }
}

} // verus!
