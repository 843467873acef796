//! A map from task identifiers to process identifiers.

use vstd::prelude::*;
use crate::text::str_eq;

verus! {

/// One entry of a [`PidMap`]: a task and the process that currently works for it.
pub struct PidEntry {
    pub id: String,
    pub pid: u32,
}

/// The identifiers of a list of entries, position by position.
pub open spec fn entry_ids(entries: Seq<PidEntry>) -> Seq<Seq<char>> {
    entries.map_values(|e: PidEntry| e.id@)
}

/// A finite map from task identifier to process identifier.
///
/// The entries are kept in a vector in which no identifier occurs twice.
pub struct PidMap {
    entries: Vec<PidEntry>,
}

impl View for PidMap {
    type V = Map<Seq<char>, u32>;

    closed spec fn view(&self) -> Map<Seq<char>, u32> {
        let ids = entry_ids(self.entries@);
        Map::new(|k: Seq<char>| ids.contains(k), |k: Seq<char>| self.entries@[ids.index_of(k)].pid)
    }
}

impl PidMap {
    /// No identifier is stored twice.
    pub closed spec fn wf(&self) -> bool {
        entry_ids(self.entries@).no_duplicates()
    }

    proof fn lemma_entry(&self, i: int)
        requires
            self.wf(),
            0 <= i < self.entries@.len(),
        ensures
            self@.contains_key(self.entries@[i].id@),
            self@[self.entries@[i].id@] == self.entries@[i].pid,
    {
        let ids = entry_ids(self.entries@);
        let k = self.entries@[i].id@;
        assert(ids[i] == k);
        assert(ids.contains(k));
        let j = ids.index_of(k);
        assert(0 <= j < ids.len() && ids[j] == k);
        assert(j == i);
    }

    pub fn new() -> (m: Self)
        ensures
            m.wf(),
            m@ == Map::<Seq<char>, u32>::empty(),
    {
        let m = PidMap { entries: Vec::new() };
        assert(entry_ids(m.entries@) =~= Seq::<Seq<char>>::empty());
        assert(m@ =~= Map::<Seq<char>, u32>::empty());
        m
    }

    fn position(&self, id: &str) -> (at: Option<usize>)
        ensures
            match at {
                Some(i) => i < self.entries@.len() && self.entries@[i as int].id@ == id@,
                None => !entry_ids(self.entries@).contains(id@),
            },
    {
        let mut i: usize = 0;
        while i < self.entries.len()
            invariant
                i <= self.entries@.len(),
                forall|j: int| 0 <= j < i ==> self.entries@[j].id@ != id@,
            decreases self.entries@.len() - i,
        {
            if str_eq(self.entries[i].id.as_str(), id) {
                return Some(i);
            }
            i += 1;
        }
        proof {
            let ids = entry_ids(self.entries@);
            if ids.contains(id@) {
                let j = choose|j: int| 0 <= j < ids.len() && ids[j] == id@;
                assert(self.entries@[j].id@ == id@);
            }
        }
        None
    }

    /// The process recorded for `id`, if any.
    pub fn get(&self, id: &str) -> (pid: Option<u32>)
        requires
            self.wf(),
        ensures
            pid == if self@.contains_key(id@) {
                Some(self@[id@])
            } else {
                None
            },
    {
        match self.position(id) {
            Some(i) => {
                proof {
                    self.lemma_entry(i as int);
                }
                Some(self.entries[i].pid)
            },
            None => None,
        }
    }

    /// Records `pid` for `id`, replacing what was recorded before.
    pub fn insert(&mut self, id: String, pid: u32)
        requires
            old(self).wf(),
        ensures
            final(self).wf(),
            final(self)@ == old(self)@.insert(id@, pid),
    {
        let ghost before = *self;
        let at = self.position(id.as_str());
        match at {
            Some(i) => {
                self.entries.set(i, PidEntry { id, pid });
                proof {
                    assert(entry_ids(self.entries@) =~= entry_ids(before.entries@));
                    assert forall|k: Seq<char>|
                        #[trigger] self@.contains_key(k) implies
                        self@[k] == before@.insert(id@, pid)[k] by {
                        let ids = entry_ids(self.entries@);
                        let j = ids.index_of(k);
                        assert(0 <= j < ids.len() && ids[j] == k);
                        assert(entry_ids(before.entries@)[j] == k);
                        if j == i {
                            assert(k == id@);
                            assert(self.entries@[j].pid == pid);
                        } else {
                            assert(entry_ids(before.entries@)[i as int] == id@);
                            assert(k != id@);
                            assert(self.entries@[j] == before.entries@[j]);
                            assert(before.entries@[j].id@ == k);
                            before.lemma_entry(j);
                        }
                    }
                    before.lemma_entry(i as int);
                    assert(self@ =~= before@.insert(id@, pid));
                }
            },
            None => {
                self.entries.push(PidEntry { id, pid });
                proof {
                    let ids0 = entry_ids(before.entries@);
                    let ids1 = entry_ids(self.entries@);
                    assert(ids1 =~= ids0.push(id@));
                    assert(ids1.no_duplicates());
                    assert forall|k: Seq<char>|
                        ids1.contains(k) <==> (k == id@ || ids0.contains(k)) by {
                        if ids1.contains(k) {
                            let j = choose|j: int| 0 <= j < ids1.len() && ids1[j] == k;
                            if j < ids0.len() {
                                assert(ids0[j] == k);
                            }
                        }
                        if k == id@ {
                            assert(ids1[ids0.len() as int] == k);
                        }
                        if ids0.contains(k) {
                            let j = choose|j: int| 0 <= j < ids0.len() && ids0[j] == k;
                            assert(ids1[j] == k);
                        }
                    }
                    assert forall|k: Seq<char>|
                        #[trigger] self@.contains_key(k) implies
                        self@[k] == before@.insert(id@, pid)[k] by {
                        let j = ids1.index_of(k);
                        assert(0 <= j < ids1.len() && ids1[j] == k);
                        if j < ids0.len() {
                            assert(ids0[j] == k);
                            assert(ids1[ids0.len() as int] == id@);
                            assert(k != id@);
                            before.lemma_entry(j);
                            assert(self.entries@[j] == before.entries@[j]);
                        } else {
                            assert(k == id@);
                            assert(self.entries@[j].pid == pid);
                        }
                    }
                    assert(self@ =~= before@.insert(id@, pid));
                }
            },
        }
    }

    /// Forgets what was recorded for `id`.
    pub fn remove(&mut self, id: &str)
        requires
            old(self).wf(),
        ensures
            final(self).wf(),
            final(self)@ == old(self)@.remove(id@),
    {
        let ghost before = *self;
        match self.position(id) {
            Some(i) => {
                let _ = self.entries.remove(i);
                proof {
                    let ids0 = entry_ids(before.entries@);
                    let ids1 = entry_ids(self.entries@);
                    assert(ids0[i as int] == id@);
                    assert(ids1 =~= ids0.remove(i as int));
                    assert(ids1.no_duplicates());
                    assert forall|k: Seq<char>|
                        ids1.contains(k) <==> (k != id@ && ids0.contains(k)) by {
                        if ids1.contains(k) {
                            let j = choose|j: int| 0 <= j < ids1.len() && ids1[j] == k;
                            if j < i {
                                assert(ids0[j] == k);
                            } else {
                                assert(ids0[j + 1] == k);
                            }
                        }
                        if k != id@ && ids0.contains(k) {
                            let j = choose|j: int| 0 <= j < ids0.len() && ids0[j] == k;
                            if j < i {
                                assert(ids1[j] == k);
                            } else {
                                assert(ids1[j - 1] == k);
                            }
                        }
                    }
                    assert forall|k: Seq<char>|
                        #[trigger] self@.contains_key(k) implies self@[k] == before@[k] by {
                        let j = ids1.index_of(k);
                        assert(0 <= j < ids1.len() && ids1[j] == k);
                        if j < i {
                            assert(self.entries@[j] == before.entries@[j]);
                            before.lemma_entry(j);
                        } else {
                            assert(self.entries@[j] == before.entries@[j + 1]);
                            before.lemma_entry(j + 1);
                        }
                    }
                    assert(self@ =~= before@.remove(id@));
                }
            },
            None => {
                assert(self@ =~= before@.remove(id@));
            },
        }
    }
}

} // verus!
