use mod_lifecycle::projection::VersionListProjection;
use mod_lifecycle::version::{ModVersion, ReleaseType};

fn ver(file_id: &str) -> ModVersion {
    ModVersion {
        file_id: file_id.to_string(),
        file_name: format!("{}.zip", file_id),
        display_name: format!("Version {}", file_id),
        download_url: None,
        upload_date: "2024-05-01T12:00:00Z".to_string(),
        release_type: ReleaseType::Beta,
        game_versions: vec![],
    }
}

#[test]
fn fresh_projection_needs_a_fetch() {
    let p = VersionListProjection::new();
    assert!(p.needs_refresh(&"42".to_string()));
    assert_eq!(p.len(), 0);
}

#[test]
fn refresh_is_keyed_by_item_not_by_time() {
    let mut p = VersionListProjection::new();
    p.store_fetch("42".to_string(), Some(vec![ver("v1"), ver("v2")]));
    assert!(!p.needs_refresh(&"42".to_string()));
    assert!(p.needs_refresh(&"7".to_string()));
    assert_eq!(p.len(), 2);
    assert_eq!(p.versions()[0].file_id, "v1");
    assert_eq!(p.versions()[1].file_id, "v2");
}

#[test]
fn failed_fetch_degrades_to_an_empty_list() {
    let mut p = VersionListProjection::new();
    p.store_fetch("42".to_string(), Some(vec![ver("v1")]));
    p.store_fetch("42".to_string(), None);
    assert!(!p.needs_refresh(&"42".to_string()));
    assert_eq!(p.len(), 0);
}
