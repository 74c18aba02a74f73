//! Classifying an item's install state from the local registry and a
//! candidate remote version. Pure and total: absence of a registry entry is a
//! valid `NotInstalled` result, not an error.

use vstd::prelude::*;

use crate::registry::Registry;

verus! {

/// An item's install state relative to one candidate version.
#[derive(Clone, Copy, PartialEq, Eq, Structural, Debug)]
pub enum InstallStatus {
    NotInstalled,
    Installed,
    Outdated,
}

/// Derived, never persisted: the install state together with the locally
/// recorded display name and artifact name, carried for a later removal.
pub struct InstallInfo {
    pub install_status: InstallStatus,
    pub local_version: Option<String>,
    pub local_file_name: Option<String>,
}

/// The install state the registry `reg` assigns to the item `id` against a
/// candidate version whose file id is `candidate_file_id`.
pub open spec fn spec_install_status(
    reg: Registry,
    id: Seq<char>,
    candidate_file_id: Seq<char>,
) -> InstallStatus {
    if !reg.contains_id(id) {
        InstallStatus::NotInstalled
    } else if reg.entry_for(id).file_id@ == candidate_file_id {
        InstallStatus::Installed
    } else {
        InstallStatus::Outdated
    }
}

/// `info` is the install information that `reg` assigns to the item `id`
/// against the candidate file id: the full statement of what
/// [`check_install_status`] returns.
pub open spec fn resolves_to(
    reg: Registry,
    id: Seq<char>,
    candidate_file_id: Seq<char>,
    info: InstallInfo,
) -> bool {
    &&& info.install_status == spec_install_status(reg, id, candidate_file_id)
    &&& if reg.contains_id(id) {
        &&& info.local_version matches Some(v) && v@ == reg.entry_for(id).version_display_name@
        &&& info.local_file_name matches Some(f) && f@ == reg.entry_for(id).local_file_name@
    } else {
        info.local_version is None && info.local_file_name is None
    }
}

/// Classify the item `mod_id` against the candidate version. Stable under
/// repeated calls: the result is a function of the arguments alone, and the
/// status is `NotInstalled` exactly when the registry has no entry for the
/// item, `Installed` exactly when the entry's file id equals the candidate's,
/// and `Outdated` otherwise.
pub fn check_install_status(
    registry: &Registry,
    mod_id: &String,
    candidate_file_id: &String,
) -> (info: InstallInfo)
    requires
        registry.wf(),
    ensures
        resolves_to(*registry, mod_id@, candidate_file_id@, info),
        info.install_status == InstallStatus::NotInstalled <==> !registry.contains_id(mod_id@),
        info.install_status == InstallStatus::Installed <==> registry.contains_id(mod_id@)
            && registry.entry_for(mod_id@).file_id@ == candidate_file_id@,
        info.install_status == InstallStatus::Outdated <==> registry.contains_id(mod_id@)
            && registry.entry_for(mod_id@).file_id@ != candidate_file_id@,
{
    match registry.get(mod_id) {
        Some(entry) => {
            let status = if entry.file_id == *candidate_file_id {
                InstallStatus::Installed
            } else {
                InstallStatus::Outdated
            };
            InstallInfo {
                install_status: status,
                local_version: Some(entry.version_display_name.clone()),
                local_file_name: Some(entry.local_file_name.clone()),
            }
        },
        None => InstallInfo {
            install_status: InstallStatus::NotInstalled,
            local_version: None,
            local_file_name: None,
        },
    }
}

/// Whether the registry records exactly the version `file_id` as installed
/// for the item `mod_id`: the per-row check of a version list.
pub fn is_version_installed(registry: &Registry, mod_id: &String, file_id: &String) -> (b: bool)
    requires
        registry.wf(),
    ensures
        b == (spec_install_status(*registry, mod_id@, file_id@) == InstallStatus::Installed),
{
    match registry.get(mod_id) {
        Some(entry) => entry.file_id == *file_id,
        None => false,
    }
}

/// Classification is a function of the registry snapshot and the candidate
/// alone: any two results that satisfy the resolution contract on the same
/// inputs agree on the status and, field for field, on the carried names.
pub proof fn lemma_resolve_deterministic(
    reg: Registry,
    id: Seq<char>,
    candidate_file_id: Seq<char>,
    a: InstallInfo,
    b: InstallInfo,
)
    requires
        resolves_to(reg, id, candidate_file_id, a),
        resolves_to(reg, id, candidate_file_id, b),
    ensures
        a.install_status == b.install_status,
        a.local_version is Some <==> b.local_version is Some,
        a.local_version matches Some(va) ==> (b.local_version matches Some(vb) && va@ == vb@),
        a.local_file_name is Some <==> b.local_file_name is Some,
        a.local_file_name matches Some(fa) ==> (b.local_file_name matches Some(fb) && fa@
            == fb@),
{
}

} // verus!
