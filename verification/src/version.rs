//! The data carried for one remote-or-locally-known release of an item.

use vstd::prelude::*;

verus! {

/// Stability classification a provider assigns to a release.
#[derive(Clone, Copy, PartialEq, Eq, Structural, Debug)]
pub enum ReleaseType {
    Unknown,
    Release,
    Beta,
    Alpha,
}

/// One release of an item as the provider describes it.
///
/// `download_url` is absent when the provider requires a secondary
/// resolution step (an exact-name search) before the file can be fetched.
/// `upload_date` is an ISO-8601-like timestamp; only the date portion,
/// preceding the first `'T'`, is shown to the user.
pub struct ModVersion {
    pub file_id: String,
    pub file_name: String,
    pub display_name: String,
    pub download_url: Option<String>,
    pub upload_date: String,
    pub release_type: ReleaseType,
    pub game_versions: Vec<String>,
}

} // verus!
