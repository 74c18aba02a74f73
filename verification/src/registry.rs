//! The local registry: the persisted record of which file of each item is
//! installed, keyed by the item's identifier with at most one entry per id.

use vstd::prelude::*;

verus! {

/// The remote service a file was obtained from. The exact identity of each
/// provider is outside this crate; workflows only carry the value through
/// into the registry entry they write.
#[derive(Clone, Copy, PartialEq, Eq, Structural, Debug)]
pub enum Provider {
    ProviderA,
    ProviderB,
}

/// Persisted record of the locally installed file for one item.
pub struct InstalledModEntry {
    pub mod_id: String,
    pub file_id: String,
    pub version_display_name: String,
    pub provider: Provider,
    pub local_file_name: String,
}

/// How many entries of `s` carry the item id `id`.
pub open spec fn count_matching(s: Seq<InstalledModEntry>, id: Seq<char>) -> nat
    decreases s.len(),
{
    if s.len() == 0 {
        0
    } else {
        count_matching(s.drop_last(), id) + if s.last().mod_id@ == id {
            1nat
        } else {
            0nat
        }
    }
}

/// Mapping from item id to its installed-file record. Holds at most one
/// entry per id: installing a new version for an already-installed item
/// replaces the entry rather than duplicating it.
pub struct Registry {
    entries: Vec<InstalledModEntry>,
}

impl Registry {
    /// No two retained entries share an item id.
    pub closed spec fn wf(self) -> bool {
        forall|i: int, j: int|
            0 <= i < j < self.entries@.len() ==> self.entries@[i].mod_id@
                != self.entries@[j].mod_id@
    }

    /// The registry holds an entry for the item `id`.
    pub closed spec fn contains_id(self, id: Seq<char>) -> bool {
        exists|i: int| 0 <= i < self.entries@.len() && self.entries@[i].mod_id@ == id
    }

    /// The entry held for the item `id` (meaningful when `contains_id(id)`).
    pub closed spec fn entry_for(self, id: Seq<char>) -> InstalledModEntry {
        self.entries@[choose|i: int|
            0 <= i < self.entries@.len() && self.entries@[i].mod_id@ == id]
    }

    /// How many entries the registry holds for the item `id`.
    pub closed spec fn count_for(self, id: Seq<char>) -> nat {
        count_matching(self.entries@, id)
    }

    /// How many entries the registry holds in all.
    pub closed spec fn spec_len(self) -> nat {
        self.entries@.len()
    }

    proof fn lemma_entry_at(self, id: Seq<char>, i: int)
        requires
            self.wf(),
            0 <= i < self.entries@.len(),
            self.entries@[i].mod_id@ == id,
        ensures
            self.contains_id(id),
            self.entry_for(id) == self.entries@[i],
    {
        assert(self.contains_id(id));
        let j = choose|j: int|
            0 <= j < self.entries@.len() && self.entries@[j].mod_id@ == id;
        if i != j {
            assert(self.entries@[i].mod_id@ != self.entries@[j].mod_id@);
        }
    }

    pub fn new() -> (r: Registry)
        ensures
            r.wf(),
            r.spec_len() == 0,
            forall|x: Seq<char>| !r.contains_id(x),
            forall|x: Seq<char>| r.count_for(x) == 0,
    {
        Registry { entries: Vec::new() }
    }

    pub fn len(&self) -> (n: usize)
        ensures
            n == self.spec_len(),
    {
        self.entries.len()
    }

    /// Look the item `mod_id` up; absence is a valid result, not an error.
    pub fn get<'a>(&'a self, mod_id: &String) -> (r: Option<&'a InstalledModEntry>)
        requires
            self.wf(),
        ensures
            match r {
                Some(e) => self.contains_id(mod_id@) && *e == self.entry_for(mod_id@),
                None => !self.contains_id(mod_id@),
            },
    {
        let n = self.entries.len();
        let mut i: usize = 0;
        while i < n
            invariant
                i <= n,
                n == self.entries@.len(),
                self.wf(),
                forall|k: int| 0 <= k < i ==> self.entries@[k].mod_id@ != mod_id@,
            decreases n - i,
        {
            if self.entries[i].mod_id == *mod_id {
                proof {
                    self.lemma_entry_at(mod_id@, i as int);
                }
                return Some(&self.entries[i]);
            }
            i += 1;
        }
        None
    }

    /// Drop the entry for the item `mod_id`, if one is held. Entries of every
    /// other item are untouched.
    pub fn remove_id(&mut self, mod_id: &String)
        requires
            old(self).wf(),
        ensures
            final(self).wf(),
            !final(self).contains_id(mod_id@),
            forall|x: Seq<char>|
                x != mod_id@ ==> final(self).contains_id(x) == old(self).contains_id(x),
            forall|x: Seq<char>|
                x != mod_id@ && old(self).contains_id(x) ==> final(self).entry_for(x) == old(
                    self,
                ).entry_for(x),
    {
        let n = self.entries.len();
        let mut i: usize = 0;
        while i < n
            invariant
                i <= n,
                n == self.entries@.len(),
                *self == *old(self),
                old(self).wf(),
                forall|k: int| 0 <= k < i ==> self.entries@[k].mod_id@ != mod_id@,
            decreases n - i,
        {
            if self.entries[i].mod_id == *mod_id {
                self.entries.remove(i);
                proof {
                    self.lemma_after_removal(*old(self), mod_id@, i as int);
                }
                return ;
            }
            i += 1;
        }
    }

    proof fn lemma_after_removal(self, prior: Registry, id: Seq<char>, i: int)
        requires
            prior.wf(),
            0 <= i < prior.entries@.len(),
            prior.entries@[i].mod_id@ == id,
            self.entries@ == prior.entries@.remove(i),
        ensures
            self.wf(),
            !self.contains_id(id),
            forall|x: Seq<char>| x != id ==> self.contains_id(x) == prior.contains_id(x),
            forall|x: Seq<char>|
                x != id && prior.contains_id(x) ==> self.entry_for(x) == prior.entry_for(x),
    {
        let s = self.entries@;
        let p = prior.entries@;
        assert(forall|k: int| 0 <= k < i ==> s[k] == p[k]);
        assert(forall|k: int| i <= k < s.len() ==> s[k] == p[k + 1]);
        assert(self.wf());
        assert forall|k: int| 0 <= k < s.len() implies s[k].mod_id@ != id by {
            if k < i {
                assert(p[k].mod_id@ != p[i].mod_id@);
            } else {
                assert(p[k + 1].mod_id@ != p[i].mod_id@);
            }
        }
        assert forall|x: Seq<char>| x != id && prior.contains_id(x) implies self.contains_id(x)
            && self.entry_for(x) == prior.entry_for(x) by {
            let k = choose|k: int| 0 <= k < p.len() && p[k].mod_id@ == x;
            prior.lemma_entry_at(x, k);
            if k < i {
                self.lemma_entry_at(x, k);
            } else {
                self.lemma_entry_at(x, k - 1);
            }
        }
        assert forall|x: Seq<char>| x != id && self.contains_id(x) implies prior.contains_id(
            x,
        ) by {
            let k = choose|k: int| 0 <= k < s.len() && s[k].mod_id@ == x;
            if k < i {
                prior.lemma_entry_at(x, k);
            } else {
                prior.lemma_entry_at(x, k + 1);
            }
        }
    }

    /// Write `entry` as the one record for its item id, replacing any prior
    /// record of that item. Entries of every other item are untouched.
    pub fn upsert(&mut self, entry: InstalledModEntry)
        requires
            old(self).wf(),
        ensures
            final(self).wf(),
            final(self).contains_id(entry.mod_id@),
            final(self).entry_for(entry.mod_id@) == entry,
            forall|x: Seq<char>|
                x != entry.mod_id@ ==> final(self).contains_id(x) == old(self).contains_id(x),
            forall|x: Seq<char>|
                x != entry.mod_id@ && old(self).contains_id(x) ==> final(self).entry_for(x)
                    == old(self).entry_for(x),
    {
        self.remove_id(&entry.mod_id);
        let ghost mid = *self;
        self.entries.push(entry);
        proof {
            self.lemma_after_push(mid, entry);
        }
    }

    proof fn lemma_after_push(self, prior: Registry, entry: InstalledModEntry)
        requires
            prior.wf(),
            !prior.contains_id(entry.mod_id@),
            self.entries@ == prior.entries@.push(entry),
        ensures
            self.wf(),
            self.contains_id(entry.mod_id@),
            self.entry_for(entry.mod_id@) == entry,
            forall|x: Seq<char>|
                x != entry.mod_id@ ==> self.contains_id(x) == prior.contains_id(x),
            forall|x: Seq<char>|
                x != entry.mod_id@ && prior.contains_id(x) ==> self.entry_for(x)
                    == prior.entry_for(x),
    {
        let s = self.entries@;
        let p = prior.entries@;
        let id = entry.mod_id@;
        assert(forall|k: int| 0 <= k < p.len() ==> s[k] == p[k]);
        assert(s[s.len() - 1] == entry);
        assert forall|i: int, j: int| 0 <= i < j < s.len() implies s[i].mod_id@
            != s[j].mod_id@ by {
            if j == s.len() - 1 {
                if s[i].mod_id@ == id {
                    assert(p[i].mod_id@ == id);
                    assert(prior.contains_id(id));
                }
            }
        }
        self.lemma_entry_at(id, s.len() - 1);
        assert forall|x: Seq<char>| x != id && prior.contains_id(x) implies self.contains_id(x)
            && self.entry_for(x) == prior.entry_for(x) by {
            let k = choose|k: int| 0 <= k < p.len() && p[k].mod_id@ == x;
            prior.lemma_entry_at(x, k);
            self.lemma_entry_at(x, k);
        }
        assert forall|x: Seq<char>| x != id && self.contains_id(x) implies prior.contains_id(
            x,
        ) by {
            let k = choose|k: int| 0 <= k < s.len() && s[k].mod_id@ == x;
            assert(k < p.len());
            assert(p[k].mod_id@ == x);
        }
    }

    /// With at most one entry per id, holding an entry for `id` means holding
    /// exactly one, and holding none means a count of zero.
    pub proof fn lemma_unique_count(self, id: Seq<char>)
        requires
            self.wf(),
        ensures
            self.contains_id(id) ==> self.count_for(id) == 1,
            !self.contains_id(id) ==> self.count_for(id) == 0,
    {
        if self.contains_id(id) {
            let i = choose|i: int|
                0 <= i < self.entries@.len() && self.entries@[i].mod_id@ == id;
            lemma_count_matching_unique(self.entries@, id, i);
        } else {
            lemma_count_matching_absent(self.entries@, id);
        }
    }
}

proof fn lemma_count_matching_absent(s: Seq<InstalledModEntry>, id: Seq<char>)
    requires
        forall|k: int| 0 <= k < s.len() ==> s[k].mod_id@ != id,
    ensures
        count_matching(s, id) == 0,
    decreases s.len(),
{
    if s.len() > 0 {
        lemma_count_matching_absent(s.drop_last(), id);
    }
}

proof fn lemma_count_matching_unique(s: Seq<InstalledModEntry>, id: Seq<char>, i: int)
    requires
        forall|p: int, q: int| 0 <= p < q < s.len() ==> s[p].mod_id@ != s[q].mod_id@,
        0 <= i < s.len(),
        s[i].mod_id@ == id,
    ensures
        count_matching(s, id) == 1,
    decreases s.len(),
{
    if i == s.len() - 1 {
        assert(forall|k: int| 0 <= k < s.drop_last().len() ==> s.drop_last()[k].mod_id@ != id);
        lemma_count_matching_absent(s.drop_last(), id);
    } else {
        assert(s.last().mod_id@ != id);
        lemma_count_matching_unique(s.drop_last(), id, i);
    }
}

} // verus!
