//! The cached list of known versions for the item currently shown. The fetch
//! itself is an outside operation; this projection decides when a re-fetch is
//! due — whenever the shown item changes, never on a timer — and swallows
//! fetch failures by presenting an empty list, since the workflow reports
//! download and resolution failures on its own.

use vstd::prelude::*;

use crate::version::ModVersion;

verus! {

/// The versions currently held for display, keyed by the item they belong to.
pub struct VersionListProjection {
    current_id: Option<String>,
    versions: Vec<ModVersion>,
}

impl VersionListProjection {
    /// The item the held list belongs to; no fetch has been recorded while
    /// this is absent.
    pub closed spec fn key(self) -> Option<Seq<char>> {
        match self.current_id {
            Some(id) => Some(id@),
            None => None,
        }
    }

    /// The versions held for display.
    pub closed spec fn list(self) -> Seq<ModVersion> {
        self.versions@
    }

    pub fn new() -> (p: VersionListProjection)
        ensures
            p.key() is None,
            p.list().len() == 0,
    {
        VersionListProjection { current_id: None, versions: Vec::new() }
    }

    /// Whether the held list is stale for the item `id`: true exactly when
    /// the last recorded fetch was keyed by a different item, or none was.
    pub fn needs_refresh(&self, id: &String) -> (b: bool)
        ensures
            b == (self.key() != Some(id@)),
    {
        match &self.current_id {
            Some(current) => !(*current == *id),
            None => true,
        }
    }

    /// Record the outcome of a fetch for the item `id`. A failed fetch
    /// (`None`) leaves the displayed list empty rather than raising an error.
    pub fn store_fetch(&mut self, id: String, fetched: Option<Vec<ModVersion>>)
        ensures
            final(self).key() == Some(id@),
            match fetched {
                Some(list) => final(self).list() == list@,
                None => final(self).list().len() == 0,
            },
    {
        self.current_id = Some(id);
        self.versions = match fetched {
            Some(list) => list,
            None => Vec::new(),
        };
    }

    /// The held versions, in the provider's order.
    pub fn versions(&self) -> (v: &Vec<ModVersion>)
        ensures
            v@ == self.list(),
    {
        &self.versions
    }

    /// How many versions are held.
    pub fn len(&self) -> (n: usize)
        ensures
            n == self.list().len(),
    {
        self.versions.len()
    }
}

} // verus!
