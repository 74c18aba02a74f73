use mod_lifecycle::action::{resolve_action, ActionLabel, StyleClass, WorkflowAction};
use mod_lifecycle::display::{
    date_portion, release_tag, row_button, RowLabel, RowStyle, TagColor,
};
use mod_lifecycle::errors::WorkflowError;
use mod_lifecycle::registry::{InstalledModEntry, Provider, Registry};
use mod_lifecycle::status::{check_install_status, is_version_installed, InstallStatus};
use mod_lifecycle::version::ReleaseType;

fn entry(mod_id: &str, file_id: &str) -> InstalledModEntry {
    InstalledModEntry {
        mod_id: mod_id.to_string(),
        file_id: file_id.to_string(),
        version_display_name: format!("Version {}", file_id),
        provider: Provider::ProviderA,
        local_file_name: format!("{}.zip", file_id),
    }
}

#[test]
fn empty_registry_resolves_not_installed_and_install_action() {
    let reg = Registry::new();
    let info = check_install_status(&reg, &"42".to_string(), &"v1".to_string());
    assert_eq!(info.install_status, InstallStatus::NotInstalled);
    assert!(info.local_version.is_none());
    assert!(info.local_file_name.is_none());
    let d = resolve_action(&info, false, None);
    assert_eq!(d.action, Some(WorkflowAction::Install));
    assert_eq!(d.label, ActionLabel::Install);
    assert_eq!(d.style_class, StyleClass::Brand);
    assert!(!d.disabled);
}

#[test]
fn matching_entry_resolves_installed_and_remove_action() {
    let mut reg = Registry::new();
    reg.upsert(entry("42", "v1"));
    let info = check_install_status(&reg, &"42".to_string(), &"v1".to_string());
    assert_eq!(info.install_status, InstallStatus::Installed);
    assert_eq!(info.local_version.as_deref(), Some("Version v1"));
    assert_eq!(info.local_file_name.as_deref(), Some("v1.zip"));
    let d = resolve_action(&info, false, None);
    assert_eq!(d.action, Some(WorkflowAction::Remove));
    assert_eq!(d.label, ActionLabel::Remove);
    assert_eq!(d.style_class, StyleClass::Danger);
    assert!(!d.disabled);
}

#[test]
fn differing_entry_resolves_outdated_and_update_action() {
    let mut reg = Registry::new();
    reg.upsert(entry("42", "v1"));
    let info = check_install_status(&reg, &"42".to_string(), &"v2".to_string());
    assert_eq!(info.install_status, InstallStatus::Outdated);
    assert_eq!(info.local_version.as_deref(), Some("Version v1"));
    assert_eq!(info.local_file_name.as_deref(), Some("v1.zip"));
    let d = resolve_action(&info, false, None);
    assert_eq!(d.action, Some(WorkflowAction::Update));
    assert_eq!(d.label, ActionLabel::Update);
    assert_eq!(d.style_class, StyleClass::Warning);
    assert!(!d.disabled);
}

#[test]
fn resolution_is_idempotent() {
    let mut reg = Registry::new();
    reg.upsert(entry("42", "v1"));
    let a = check_install_status(&reg, &"42".to_string(), &"v2".to_string());
    let b = check_install_status(&reg, &"42".to_string(), &"v2".to_string());
    assert_eq!(a.install_status, b.install_status);
    assert_eq!(a.local_version, b.local_version);
    assert_eq!(a.local_file_name, b.local_file_name);
}

#[test]
fn action_resolution_is_deterministic() {
    let reg = Registry::new();
    let info = check_install_status(&reg, &"7".to_string(), &"v1".to_string());
    let a = resolve_action(&info, false, Some(WorkflowError::DownloadFailed));
    let b = resolve_action(&info, false, Some(WorkflowError::DownloadFailed));
    assert_eq!(a, b);
}

#[test]
fn processing_overrides_everything_with_disabled_waiting_state() {
    let mut reg = Registry::new();
    reg.upsert(entry("42", "v1"));
    let info = check_install_status(&reg, &"42".to_string(), &"v1".to_string());
    let d = resolve_action(&info, true, Some(WorkflowError::DownloadFailed));
    assert_eq!(d.action, None);
    assert_eq!(d.label, ActionLabel::Working);
    assert_eq!(d.style_class, StyleClass::Secondary);
    assert!(d.disabled);
}

#[test]
fn error_presents_retry_but_keeps_target_action() {
    let mut reg = Registry::new();
    reg.upsert(entry("42", "v1"));
    let info = check_install_status(&reg, &"42".to_string(), &"v2".to_string());
    let d = resolve_action(&info, false, Some(WorkflowError::DownloadFailed));
    assert_eq!(d.action, Some(WorkflowAction::Update));
    assert_eq!(d.label, ActionLabel::Retry);
    assert_eq!(d.style_class, StyleClass::Danger);
    assert!(!d.disabled);
}

#[test]
fn upsert_replaces_rather_than_duplicates() {
    let mut reg = Registry::new();
    reg.upsert(entry("42", "v1"));
    reg.upsert(entry("42", "v2"));
    assert_eq!(reg.len(), 1);
    let e = reg.get(&"42".to_string()).expect("entry must exist");
    assert_eq!(e.file_id, "v2");
}

#[test]
fn upsert_keeps_other_items() {
    let mut reg = Registry::new();
    reg.upsert(entry("42", "v1"));
    reg.upsert(entry("7", "v9"));
    reg.upsert(entry("42", "v2"));
    assert_eq!(reg.len(), 2);
    assert_eq!(reg.get(&"7".to_string()).expect("entry must exist").file_id, "v9");
    assert_eq!(reg.get(&"42".to_string()).expect("entry must exist").file_id, "v2");
}

#[test]
fn remove_id_drops_only_the_named_item() {
    let mut reg = Registry::new();
    reg.upsert(entry("42", "v1"));
    reg.upsert(entry("7", "v9"));
    reg.remove_id(&"42".to_string());
    assert!(reg.get(&"42".to_string()).is_none());
    assert_eq!(reg.get(&"7".to_string()).expect("entry must exist").file_id, "v9");
    assert_eq!(reg.len(), 1);
}

#[test]
fn is_version_installed_checks_exact_file_id() {
    let mut reg = Registry::new();
    reg.upsert(entry("42", "v1"));
    assert!(is_version_installed(&reg, &"42".to_string(), &"v1".to_string()));
    assert!(!is_version_installed(&reg, &"42".to_string(), &"v2".to_string()));
    assert!(!is_version_installed(&reg, &"7".to_string(), &"v1".to_string()));
}

#[test]
fn date_portion_stops_at_first_t() {
    assert_eq!(date_portion("2024-05-01T12:00:00Z"), "2024-05-01");
}

#[test]
fn date_portion_without_t_keeps_whole_string() {
    assert_eq!(date_portion("2024-05-01"), "2024-05-01");
    assert_eq!(date_portion(""), "");
}

#[test]
fn release_tags_map_each_stability_class() {
    assert_eq!(release_tag(ReleaseType::Release).letter, 'R');
    assert_eq!(release_tag(ReleaseType::Release).color, TagColor::Success);
    assert_eq!(release_tag(ReleaseType::Beta).letter, 'B');
    assert_eq!(release_tag(ReleaseType::Beta).color, TagColor::Brand);
    assert_eq!(release_tag(ReleaseType::Alpha).letter, 'A');
    assert_eq!(release_tag(ReleaseType::Alpha).color, TagColor::Danger);
    assert_eq!(release_tag(ReleaseType::Unknown).letter, '?');
    assert_eq!(release_tag(ReleaseType::Unknown).color, TagColor::Secondary);
}

#[test]
fn row_button_states() {
    let installed = row_button(true, true, false);
    assert_eq!(installed.label, RowLabel::Installed);
    assert_eq!(installed.style, RowStyle::Muted);
    assert!(installed.disabled);

    let unavailable = row_button(false, false, false);
    assert_eq!(unavailable.label, RowLabel::NotAvailable);
    assert_eq!(unavailable.style, RowStyle::Secondary);
    assert!(unavailable.disabled);

    let offered = row_button(false, true, false);
    assert_eq!(offered.label, RowLabel::Install);
    assert_eq!(offered.style, RowStyle::Brand);
    assert!(!offered.disabled);

    let busy = row_button(false, true, true);
    assert!(busy.disabled);
}
