//! Advisory per-item in-flight marker: a mapping from item id to a boolean,
//! consulted before dispatching a workflow and reset on every terminal
//! transition of a workflow, success or failure alike.

use vstd::prelude::*;

verus! {

/// Mapping `item id -> bool`; ids not held are not in flight.
pub struct ProcessingTracker {
    active: Vec<String>,
}

impl ProcessingTracker {
    /// No id is held twice.
    pub closed spec fn wf(self) -> bool {
        forall|i: int, j: int|
            0 <= i < j < self.active@.len() ==> self.active@[i]@ != self.active@[j]@
    }

    /// A workflow for the item `id` is currently considered active.
    pub closed spec fn in_flight(self, id: Seq<char>) -> bool {
        exists|i: int| 0 <= i < self.active@.len() && self.active@[i]@ == id
    }

    pub fn new() -> (t: ProcessingTracker)
        ensures
            t.wf(),
            forall|x: Seq<char>| !t.in_flight(x),
    {
        ProcessingTracker { active: Vec::new() }
    }

    pub fn is_processing(&self, id: &String) -> (b: bool)
        ensures
            b == self.in_flight(id@),
    {
        let n = self.active.len();
        let mut i: usize = 0;
        while i < n
            invariant
                i <= n,
                n == self.active@.len(),
                forall|k: int| 0 <= k < i ==> self.active@[k]@ != id@,
            decreases n - i,
        {
            if self.active[i] == *id {
                return true;
            }
            i += 1;
        }
        false
    }

    /// Mark or clear the in-flight state of the item `id`; every other item's
    /// marker is untouched.
    pub fn set_processing(&mut self, id: &String, flag: bool)
        requires
            old(self).wf(),
        ensures
            final(self).wf(),
            final(self).in_flight(id@) == flag,
            forall|x: Seq<char>|
                x != id@ ==> final(self).in_flight(x) == old(self).in_flight(x),
    {
        let n = self.active.len();
        let mut i: usize = 0;
        while i < n
            invariant
                i <= n,
                n == self.active@.len(),
                *self == *old(self),
                old(self).wf(),
                forall|k: int| 0 <= k < i ==> self.active@[k]@ != id@,
            decreases n - i,
        {
            if self.active[i] == *id {
                if !flag {
                    self.active.remove(i);
                    proof {
                        self.lemma_after_removal(*old(self), id@, i as int);
                    }
                } else {
                    proof {
                        assert(self.in_flight(id@));
                    }
                }
                return ;
            }
            i += 1;
        }
        if flag {
            let ghost mid = *self;
            self.active.push(id.clone());
            proof {
                self.lemma_after_push(mid, id@);
            }
        }
    }

    proof fn lemma_after_removal(self, prior: ProcessingTracker, id: Seq<char>, i: int)
        requires
            prior.wf(),
            0 <= i < prior.active@.len(),
            prior.active@[i]@ == id,
            self.active@ == prior.active@.remove(i),
        ensures
            self.wf(),
            !self.in_flight(id),
            forall|x: Seq<char>| x != id ==> self.in_flight(x) == prior.in_flight(x),
    {
        let s = self.active@;
        let p = prior.active@;
        assert(forall|k: int| 0 <= k < i ==> s[k] == p[k]);
        assert(forall|k: int| i <= k < s.len() ==> s[k] == p[k + 1]);
        assert forall|k: int| 0 <= k < s.len() implies s[k]@ != id by {
            if k < i {
                assert(p[k]@ != p[i]@);
            } else {
                assert(p[k + 1]@ != p[i]@);
            }
        }
        assert forall|x: Seq<char>| x != id && prior.in_flight(x) implies self.in_flight(x) by {
            let k = choose|k: int| 0 <= k < p.len() && p[k]@ == x;
            if k < i {
                assert(s[k]@ == x);
            } else {
                assert(s[k - 1]@ == x);
            }
        }
        assert forall|x: Seq<char>| x != id && self.in_flight(x) implies prior.in_flight(x) by {
            let k = choose|k: int| 0 <= k < s.len() && s[k]@ == x;
            if k < i {
                assert(p[k]@ == x);
            } else {
                assert(p[k + 1]@ == x);
            }
        }
    }

    proof fn lemma_after_push(self, prior: ProcessingTracker, id: Seq<char>)
        requires
            prior.wf(),
            !prior.in_flight(id),
            self.active@.len() == prior.active@.len() + 1,
            self.active@.last()@ == id,
            forall|k: int| 0 <= k < prior.active@.len() ==> self.active@[k] == prior.active@[k],
        ensures
            self.wf(),
            self.in_flight(id),
            forall|x: Seq<char>| x != id ==> self.in_flight(x) == prior.in_flight(x),
    {
        let s = self.active@;
        let p = prior.active@;
        assert forall|i: int, j: int| 0 <= i < j < s.len() implies s[i]@ != s[j]@ by {
            if j == s.len() - 1 {
                if s[i]@ == id {
                    assert(p[i]@ == id);
                    assert(prior.in_flight(id));
                }
            }
        }
        assert(s[s.len() - 1]@ == id);
        assert forall|x: Seq<char>| x != id && self.in_flight(x) implies prior.in_flight(x) by {
            let k = choose|k: int| 0 <= k < s.len() && s[k]@ == x;
            assert(k < p.len());
            assert(p[k]@ == x);
        }
        assert forall|x: Seq<char>| x != id && prior.in_flight(x) implies self.in_flight(x) by {
            let k = choose|k: int| 0 <= k < p.len() && p[k]@ == x;
            assert(s[k]@ == x);
        }
    }
}

} // verus!
