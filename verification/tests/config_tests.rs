use cccs::checksum::calculate_checksum;
use cccs::store::{ConfigService, ScanEntry, SwitchPlan};
use cccs::types::ProfileStatus;

fn scan_entry(file_name: &str, content: &str) -> ScanEntry {
    ScanEntry { file_name: file_name.to_string(), content: Some(content.to_string()) }
}

fn service_with_live(live: &str) -> ConfigService {
    let mut service = ConfigService::new("/home/user/.cfg".to_string());
    service.store_live_settings(live.to_string(), 1_000);
    service
}

#[test]
fn test_scan_profiles_empty_directory() {
    let mut service = service_with_live(r#"{"theme": "dark", "language": "en"}"#);
    let profiles = service.scan_profiles(Vec::new()).unwrap();
    assert!(profiles.is_empty());
}

#[test]
fn test_scan_profiles_with_profiles() {
    let mut service = service_with_live(r#"{"theme": "dark", "language": "en"}"#);
    let profile1_content = r#"{"theme": "light", "language": "en"}"#;
    let profile2_content = r#"{"theme": "dark", "language": "en"}"#;

    let profiles = service
        .scan_profiles(vec![
            scan_entry("work.settings.json", profile1_content),
            scan_entry("personal.settings.json", profile2_content),
        ])
        .unwrap();
    assert_eq!(profiles.len(), 2);

    let personal_profile = profiles.iter().find(|p| p.name == "personal").unwrap();
    assert!(personal_profile.is_active);

    let work_profile = profiles.iter().find(|p| p.name == "work").unwrap();
    assert!(!work_profile.is_active);
}

#[test]
fn test_scan_skips_rejected_entries() {
    let mut service = service_with_live(r#"{"theme": "dark"}"#);
    let profiles = service
        .scan_profiles(vec![
            // the live settings file itself is never a profile
            scan_entry("settings.json", r#"{"theme": "dark"}"#),
            // empty stem
            scan_entry(".settings.json", "{}"),
            // wrong suffix
            scan_entry("notes.txt", "{}"),
            // unreadable file
            ScanEntry { file_name: "broken.settings.json".to_string(), content: None },
            // invalid JSON is skipped without aborting the scan
            scan_entry("bad.settings.json", "{not json"),
            scan_entry("good.settings.json", r#"{"theme": "light"}"#),
        ])
        .unwrap();
    assert_eq!(profiles.len(), 1);
    assert_eq!(profiles[0].name, "good");
    assert_eq!(profiles[0].path, "/home/user/.cfg/good.settings.json");
}

#[test]
fn test_compare_configurations() {
    let service = service_with_live(r#"{"theme": "dark", "language": "en"}"#);

    let config1 = r#"{"theme": "dark", "language": "en"}"#;
    let config2 = r#"{"language": "en", "theme": "dark"}"#;
    let config3 = r#"{"theme": "light", "language": "en"}"#;

    assert!(service.compare_configurations(config1, config2));
    assert!(!service.compare_configurations(config1, config3));
}

#[test]
fn test_calculate_checksum() {
    let content1 = "test content";
    let content2 = "test content";
    let content3 = "different content";

    assert_eq!(ConfigService::calculate_checksum(content1), ConfigService::calculate_checksum(content2));
    assert_ne!(ConfigService::calculate_checksum(content1), ConfigService::calculate_checksum(content3));
}

#[test]
fn test_checksum_matches_crc32() {
    assert_eq!(calculate_checksum("test content"), crc32fast::hash(b"test content"));
    assert_eq!(calculate_checksum("{}"), crc32fast::hash(b"{}"));
}

#[test]
fn test_status_classification() {
    let live = r#"{"theme":"dark","model":"m1"}"#;
    // deep-equal despite formatting and key order
    assert_eq!(
        cccs::store::status_of_contents(r#"{ "model" : "m1", "theme" : "dark" }"#, live),
        ProfileStatus::FullMatch
    );
    // equal once the model field is removed from both sides
    assert_eq!(
        cccs::store::status_of_contents(r#"{"theme":"dark","model":"m2"}"#, live),
        ProfileStatus::PartialMatch
    );
    // a difference outside the model field is no match
    assert_eq!(
        cccs::store::status_of_contents(r#"{"theme":"light","model":"m1"}"#, live),
        ProfileStatus::NoMatch
    );
    // parse failures are errors
    assert!(matches!(cccs::store::status_of_contents("{bad", live), ProfileStatus::Error(_)));
    assert!(matches!(cccs::store::status_of_contents(live, "{bad"), ProfileStatus::Error(_)));
}

#[test]
fn test_compare_json_ignoring_field() {
    let service = service_with_live(r#"{"theme":"dark"}"#);
    assert!(service.compare_json_ignoring_field(
        r#"{"theme":"dark","model":"a"}"#,
        r#"{"theme":"dark","model":"b"}"#,
        "model"
    ));
    assert!(!service.compare_json_ignoring_field(
        r#"{"theme":"dark","model":"a"}"#,
        r#"{"theme":"light","model":"a"}"#,
        "model"
    ));
    assert!(!service.compare_json_ignoring_field("{bad", r#"{"theme":"dark"}"#, "model"));
}

#[test]
fn test_get_profile_status_not_found() {
    let service = service_with_live(r#"{"theme":"dark"}"#);
    assert!(matches!(service.get_profile_status("missing"), ProfileStatus::Error(_)));
}

#[test]
fn test_content_cache_policy() {
    let mut service = ConfigService::new("/d".to_string());
    let meta = cccs::types::FileMetadata { modified_time: 50, checksum: 1, size: 2 };
    service.store_content("/d/a.settings.json", "{}".to_string(), meta, 1_000);

    // fresh and unmodified: served from cache
    assert_eq!(service.get_cached_content("/d/a.settings.json", 2_000, Some(40)), Some("{}".to_string()));
    // TTL expired
    assert_eq!(service.get_cached_content("/d/a.settings.json", 61_001, Some(40)), None);
    // file modified after caching
    assert_eq!(service.get_cached_content("/d/a.settings.json", 2_000, Some(60)), None);
    // modification time unknown
    assert_eq!(service.get_cached_content("/d/a.settings.json", 2_000, None), None);
    // unknown path
    assert_eq!(service.get_cached_content("/d/other", 2_000, Some(40)), None);

    service.clear_cache();
    assert_eq!(service.get_cached_content("/d/a.settings.json", 2_000, Some(40)), None);
}

#[test]
fn test_live_settings_cache_policy() {
    let mut service = ConfigService::new("/d".to_string());
    assert_eq!(service.get_cached_live_settings(1_000, Some(40)), None);
    service.store_live_settings("{}".to_string(), 1_000);
    assert_eq!(service.get_cached_live_settings(2_000, Some(900)), Some("{}".to_string()));
    assert_eq!(service.get_cached_live_settings(61_001, Some(900)), None);
    assert_eq!(service.get_cached_live_settings(2_000, Some(1_500)), None);
}

#[test]
fn test_get_monitored_files() {
    let mut service = service_with_live(r#"{"theme":"dark"}"#);
    service
        .scan_profiles(vec![scan_entry("work.settings.json", r#"{"theme":"light"}"#)])
        .unwrap();
    let files = service.get_monitored_files();
    assert_eq!(files.len(), 2);
    assert_eq!(files[0], "/home/user/.cfg/settings.json");
    assert_eq!(files[1], "/home/user/.cfg/work.settings.json");
}

#[test]
fn test_switch_profile_not_found() {
    let service = service_with_live(r#"{"theme": "dark", "language": "en"}"#);

    let result = service.prepare_switch("nonexistent");
    assert!(result.is_err());

    if let Err(cccs::errors::AppError::ConfigError(msg)) = result {
        assert!(msg.contains("not found"));
    } else {
        panic!("Expected ConfigError");
    }
}

#[test]
fn test_prepare_switch_rejects_empty_name() {
    let service = service_with_live(r#"{"theme":"dark"}"#);
    assert!(matches!(service.prepare_switch(""), Err(cccs::errors::AppError::ConfigError(_))));
}

#[test]
fn test_prepare_switch_requires_json_object() {
    let mut service = service_with_live(r#"{"theme":"dark"}"#);
    // an array parses as JSON but is not an object
    service
        .scan_profiles(vec![scan_entry("arr.settings.json", "[1, 2, 3]")])
        .unwrap();
    assert!(matches!(service.prepare_switch("arr"), Err(cccs::errors::AppError::ConfigError(_))));
}

#[test]
fn test_switch_profile_already_active() {
    let mut service = service_with_live(r#"{"theme": "dark", "language": "en"}"#);
    let profile_content = r#"{"theme": "dark", "language": "en"}"#;
    service
        .scan_profiles(vec![scan_entry("same.settings.json", profile_content)])
        .unwrap();

    let result = service.prepare_switch("same");
    assert!(result.is_ok());
    assert_eq!(result.unwrap(), SwitchPlan::AlreadyActive);
}

#[test]
fn test_validate_switch() {
    let mut service = service_with_live(r#"{"theme":"dark"}"#);
    service
        .scan_profiles(vec![scan_entry("work.settings.json", r#"{"theme":"light"}"#)])
        .unwrap();
    assert_eq!(service.validate_switch("work", r#"{ "theme" : "light" }"#), Ok(true));
    assert_eq!(service.validate_switch("work", r#"{"theme":"dark"}"#), Ok(false));
    assert!(service.validate_switch("ghost", r#"{"theme":"dark"}"#).is_err());
}

#[test]
fn test_refresh_profile_status() {
    let mut service = service_with_live(r#"{"theme":"dark"}"#);
    service
        .scan_profiles(vec![scan_entry("work.settings.json", r#"{"theme":"light"}"#)])
        .unwrap();
    assert!(!service.get_profiles()[0].is_active);

    // the live settings change to match the profile
    service.store_live_settings(r#"{ "theme" : "light" }"#.to_string(), 5_000);
    service.refresh_profile_status().unwrap();
    assert!(service.get_profiles()[0].is_active);
}
