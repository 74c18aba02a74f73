//! Typed workflow failures, and the per-item message slot they are recovered
//! into: each item keeps at most its latest failure, overwritten by the next
//! one and cleared when a new workflow is dispatched for the item.

use vstd::prelude::*;

verus! {

/// Every way a workflow can fail. No failure is fatal to the process; each is
/// scoped to one item's workflow.
#[derive(Clone, Copy, PartialEq, Eq, Structural, Debug)]
pub enum WorkflowError {
    /// No destination folder is configured; the workflow never starts.
    NoGameFolder,
    /// The sentinel id denotes a locally-added item with no remote identity
    /// and cannot be resolved against a provider.
    UnsupportedLocalOnlyMod,
    /// The provider search failed or returned no usable download URL.
    ResolveUrlFailed,
    /// The content transfer failed.
    DownloadFailed,
    /// Writing or registering the downloaded file failed.
    InstallFailed,
    /// Deleting a local artifact failed. During an update this is recorded
    /// but does not abort the workflow; a remove workflow it ends.
    RemoveOldFailed,
    /// A remove was requested but no local artifact name is known.
    FileNotFoundLocally,
}

struct ErrorSlot {
    mod_id: String,
    error: WorkflowError,
}

/// Mapping `item id -> latest failure`, holding at most one message per item.
pub struct ErrorSlots {
    slots: Vec<ErrorSlot>,
}

impl ErrorSlots {
    /// No id is held twice.
    pub closed spec fn wf(self) -> bool {
        forall|i: int, j: int|
            0 <= i < j < self.slots@.len() ==> self.slots@[i].mod_id@ != self.slots@[j].mod_id@
    }

    /// The message currently recorded for the item `id`, if any.
    pub closed spec fn error_of(self, id: Seq<char>) -> Option<WorkflowError> {
        if exists|i: int| 0 <= i < self.slots@.len() && self.slots@[i].mod_id@ == id {
            Some(
                self.slots@[choose|i: int|
                    0 <= i < self.slots@.len() && self.slots@[i].mod_id@ == id].error,
            )
        } else {
            None
        }
    }

    proof fn lemma_slot_at(self, id: Seq<char>, i: int)
        requires
            self.wf(),
            0 <= i < self.slots@.len(),
            self.slots@[i].mod_id@ == id,
        ensures
            self.error_of(id) == Some(self.slots@[i].error),
    {
        let j = choose|j: int| 0 <= j < self.slots@.len() && self.slots@[j].mod_id@ == id;
        if i != j {
            assert(self.slots@[i].mod_id@ != self.slots@[j].mod_id@);
        }
    }

    pub fn new() -> (r: ErrorSlots)
        ensures
            r.wf(),
            forall|x: Seq<char>| r.error_of(x) is None,
    {
        ErrorSlots { slots: Vec::new() }
    }

    pub fn get(&self, id: &String) -> (r: Option<WorkflowError>)
        requires
            self.wf(),
        ensures
            r == self.error_of(id@),
    {
        let n = self.slots.len();
        let mut i: usize = 0;
        while i < n
            invariant
                i <= n,
                n == self.slots@.len(),
                self.wf(),
                forall|k: int| 0 <= k < i ==> self.slots@[k].mod_id@ != id@,
            decreases n - i,
        {
            if self.slots[i].mod_id == *id {
                proof {
                    self.lemma_slot_at(id@, i as int);
                }
                return Some(self.slots[i].error);
            }
            i += 1;
        }
        None
    }

    /// Record `error` as the item's message, overwriting any prior one; every
    /// other item's slot is untouched.
    pub fn set(&mut self, id: &String, error: WorkflowError)
        requires
            old(self).wf(),
        ensures
            final(self).wf(),
            final(self).error_of(id@) == Some(error),
            forall|x: Seq<char>|
                x != id@ ==> final(self).error_of(x) == old(self).error_of(x),
    {
        self.clear(id);
        let ghost mid = *self;
        self.slots.push(ErrorSlot { mod_id: id.clone(), error });
        proof {
            let s = self.slots@;
            let p = mid.slots@;
            assert(forall|k: int| 0 <= k < p.len() ==> s[k] == p[k]);
            assert(s[s.len() - 1].mod_id@ == id@);
            assert forall|i: int, j: int| 0 <= i < j < s.len() implies s[i].mod_id@
                != s[j].mod_id@ by {
                if j == s.len() - 1 {
                    if s[i].mod_id@ == id@ {
                        assert(p[i].mod_id@ == id@);
                        assert(mid.error_of(id@) is Some);
                    }
                }
            }
            self.lemma_slot_at(id@, s.len() - 1);
            assert forall|x: Seq<char>| x != id@ implies final(self).error_of(x)
                == mid.error_of(x) by {
                if exists|k: int| 0 <= k < s.len() && s[k].mod_id@ == x {
                    let k = choose|k: int| 0 <= k < s.len() && s[k].mod_id@ == x;
                    assert(k < p.len());
                    assert(p[k].mod_id@ == x);
                    mid.lemma_slot_at(x, k);
                    self.lemma_slot_at(x, k);
                } else {
                    assert(!exists|k: int| 0 <= k < p.len() && p[k].mod_id@ == x);
                }
            }
        }
    }

    /// Drop the item's message, if one is recorded; every other item's slot
    /// is untouched.
    pub fn clear(&mut self, id: &String)
        requires
            old(self).wf(),
        ensures
            final(self).wf(),
            final(self).error_of(id@) is None,
            forall|x: Seq<char>|
                x != id@ ==> final(self).error_of(x) == old(self).error_of(x),
    {
        let n = self.slots.len();
        let mut i: usize = 0;
        while i < n
            invariant
                i <= n,
                n == self.slots@.len(),
                *self == *old(self),
                old(self).wf(),
                forall|k: int| 0 <= k < i ==> self.slots@[k].mod_id@ != id@,
            decreases n - i,
        {
            if self.slots[i].mod_id == *id {
                self.slots.remove(i);
                proof {
                    self.lemma_after_removal(*old(self), id@, i as int);
                }
                return ;
            }
            i += 1;
        }
    }

    proof fn lemma_after_removal(self, prior: ErrorSlots, id: Seq<char>, i: int)
        requires
            prior.wf(),
            0 <= i < prior.slots@.len(),
            prior.slots@[i].mod_id@ == id,
            self.slots@ == prior.slots@.remove(i),
        ensures
            self.wf(),
            self.error_of(id) is None,
            forall|x: Seq<char>| x != id ==> self.error_of(x) == prior.error_of(x),
    {
        let s = self.slots@;
        let p = prior.slots@;
        assert(forall|k: int| 0 <= k < i ==> s[k] == p[k]);
        assert(forall|k: int| i <= k < s.len() ==> s[k] == p[k + 1]);
        assert forall|k: int| 0 <= k < s.len() implies s[k].mod_id@ != id by {
            if k < i {
                assert(p[k].mod_id@ != p[i].mod_id@);
            } else {
                assert(p[k + 1].mod_id@ != p[i].mod_id@);
            }
        }
        assert forall|x: Seq<char>| x != id implies self.error_of(x) == prior.error_of(x) by {
            if exists|k: int| 0 <= k < p.len() && p[k].mod_id@ == x {
                let k = choose|k: int| 0 <= k < p.len() && p[k].mod_id@ == x;
                prior.lemma_slot_at(x, k);
                if k < i {
                    self.lemma_slot_at(x, k);
                } else {
                    self.lemma_slot_at(x, k - 1);
                }
            } else {
                if exists|k: int| 0 <= k < s.len() && s[k].mod_id@ == x {
                    let k = choose|k: int| 0 <= k < s.len() && s[k].mod_id@ == x;
                    if k < i {
                        assert(p[k].mod_id@ == x);
                    } else {
                        assert(p[k + 1].mod_id@ == x);
                    }
                }
            }
        }
    }
}

} // verus!
