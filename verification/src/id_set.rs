//! A set of task identifiers.

use vstd::prelude::*;
use crate::text::str_eq;

verus! {

/// The identifiers held by a list of strings, position by position.
pub open spec fn id_views(ids: Seq<String>) -> Seq<Seq<char>> {
    ids.map_values(|s: String| s@)
}

/// A finite set of task identifiers.
///
/// The identifiers are kept in a vector in which none occurs twice; the view
/// is the set of their character sequences.
pub struct IdSet {
    ids: Vec<String>,
}

impl View for IdSet {
    type V = Set<Seq<char>>;

    closed spec fn view(&self) -> Set<Seq<char>> {
        id_views(self.ids@).to_set()
    }
}

impl IdSet {
    /// No identifier is stored twice.
    pub closed spec fn wf(&self) -> bool {
        id_views(self.ids@).no_duplicates()
    }

    /// The view of a set is finite.
    pub proof fn lemma_view_finite(&self)
        ensures
            self@.finite(),
    {
        vstd::seq_lib::seq_to_set_is_finite(id_views(self.ids@));
    }

    pub fn new() -> (s: Self)
        ensures
            s.wf(),
            s@ == Set::<Seq<char>>::empty(),
    {
        let s = IdSet { ids: Vec::new() };
        assert(id_views(s.ids@) =~= Seq::<Seq<char>>::empty());
        assert(s@ =~= Set::<Seq<char>>::empty());
        s
    }

    /// The number of identifiers in the set.
    pub fn len(&self) -> (n: usize)
        requires
            self.wf(),
        ensures
            n == self@.len(),
            self@.finite(),
    {
        proof {
            id_views(self.ids@).unique_seq_to_set();
            self.lemma_view_finite();
        }
        self.ids.len()
    }

    fn position(&self, id: &str) -> (at: Option<usize>)
        ensures
            match at {
                Some(i) => i < self.ids@.len() && self.ids@[i as int]@ == id@,
                None => !self@.contains(id@),
            },
    {
        let mut i: usize = 0;
        while i < self.ids.len()
            invariant
                i <= self.ids@.len(),
                forall|j: int| 0 <= j < i ==> self.ids@[j]@ != id@,
            decreases self.ids@.len() - i,
        {
            if str_eq(self.ids[i].as_str(), id) {
                return Some(i);
            }
            i += 1;
        }
        proof {
            let views = id_views(self.ids@);
            if views.to_set().contains(id@) {
                let j = choose|j: int| 0 <= j < views.len() && views[j] == id@;
                assert(self.ids@[j]@ == id@);
            }
        }
        None
    }

    /// Whether `id` is a member.
    pub fn contains(&self, id: &str) -> (found: bool)
        ensures
            found == self@.contains(id@),
    {
        match self.position(id) {
            Some(i) => {
                proof {
                    let views = id_views(self.ids@);
                    assert(views[i as int] == id@);
                    assert(views.contains(id@));
                }
                true
            },
            None => false,
        }
    }

    /// Adds `id`; returns whether it was absent before.
    pub fn insert(&mut self, id: String) -> (fresh: bool)
        requires
            old(self).wf(),
        ensures
            final(self).wf(),
            final(self)@ == old(self)@.insert(id@),
            fresh == !old(self)@.contains(id@),
    {
        if self.contains(id.as_str()) {
            assert(self@.insert(id@) =~= self@);
            false
        } else {
            let ghost before = id_views(self.ids@);
            self.ids.push(id);
            proof {
                let after = id_views(self.ids@);
                assert(after =~= before.push(id@));
                assert(!before.contains(id@));
                assert(after.no_duplicates());
                assert(after.to_set() =~= before.to_set().insert(id@)) by {
                    assert forall|x: Seq<char>|
                        after.to_set().contains(x) implies
                        before.to_set().insert(id@).contains(x) by {
                        let j = choose|j: int| 0 <= j < after.len() && after[j] == x;
                        if j < before.len() {
                            assert(before[j] == x);
                        }
                    }
                    assert forall|x: Seq<char>|
                        before.to_set().insert(id@).contains(x) implies
                        after.to_set().contains(x) by {
                        if x == id@ {
                            assert(after[before.len() as int] == x);
                        } else {
                            let j = choose|j: int| 0 <= j < before.len() && before[j] == x;
                            assert(after[j] == x);
                        }
                    }
                }
            }
            true
        }
    }

    /// Removes `id`; returns whether it was a member.
    pub fn remove(&mut self, id: &str) -> (found: bool)
        requires
            old(self).wf(),
        ensures
            final(self).wf(),
            final(self)@ == old(self)@.remove(id@),
            found == old(self)@.contains(id@),
    {
        match self.position(id) {
            Some(i) => {
                let ghost before = id_views(self.ids@);
                let _ = self.ids.remove(i);
                proof {
                    let after = id_views(self.ids@);
                    assert(before[i as int] == id@);
                    assert(before.contains(id@));
                    assert(after =~= before.remove(i as int));
                    assert(after.no_duplicates());
                    assert(after.to_set() =~= before.to_set().remove(id@)) by {
                        assert forall|x: Seq<char>|
                            after.to_set().contains(x) implies
                            before.to_set().remove(id@).contains(x) by {
                            let j = choose|j: int| 0 <= j < after.len() && after[j] == x;
                            if j < i {
                                assert(before[j] == x);
                            } else {
                                assert(before[j + 1] == x);
                            }
                        }
                        assert forall|x: Seq<char>|
                            before.to_set().remove(id@).contains(x) implies
                            after.to_set().contains(x) by {
                            let j = choose|j: int| 0 <= j < before.len() && before[j] == x;
                            if j < i {
                                assert(after[j] == x);
                            } else {
                                assert(j > i);
                                assert(after[j - 1] == x);
                            }
                        }
                    }
                }
                true
            },
            None => {
                assert(self@.remove(id@) =~= self@);
                false
            },
        }
    }
}

} // verus!
