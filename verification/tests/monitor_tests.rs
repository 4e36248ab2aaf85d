use cccs::fingerprint::{compare_metadata, make_fingerprint, should_read_content};
use cccs::monitor::{FileProbe, MonitorService, Observation, ProbeOutcome};
use cccs::types::{ChangeType, FileMetadata};

fn present(path: &str, metadata: FileMetadata) -> Observation {
    Observation { path: path.to_string(), outcome: ProbeOutcome::Present(metadata) }
}

fn missing(path: &str) -> Observation {
    Observation { path: path.to_string(), outcome: ProbeOutcome::Missing }
}

fn failed(path: &str) -> Observation {
    Observation { path: path.to_string(), outcome: ProbeOutcome::Failed }
}

#[test]
fn test_monitor_service_creation() {
    let service = MonitorService::new(5);
    assert_eq!(service.get_monitor_interval(), 5);
    assert!(!service.is_monitoring());
    assert!(service.get_monitored_files().is_empty());
}

#[test]
fn test_set_monitor_interval() {
    let mut service = MonitorService::new(5);

    assert!(service.set_monitor_interval(10).is_ok());
    assert_eq!(service.get_monitor_interval(), 10);

    assert!(service.set_monitor_interval(0).is_err());
    assert!(service.set_monitor_interval(61).is_err());
}

#[test]
fn test_interval_change_while_running_stops_monitor() {
    let mut service = MonitorService::new(5);
    service.start_monitoring().unwrap();
    assert!(service.is_monitoring());
    // the same interval keeps the loop running
    assert!(service.set_monitor_interval(5).is_ok());
    assert!(service.is_monitoring());
    // a changed interval requires a restart with a fresh callback
    assert!(service.set_monitor_interval(10).is_ok());
    assert!(!service.is_monitoring());
}

#[test]
fn test_add_file_to_monitor() {
    let mut service = MonitorService::new(5);
    let path = "test.json".to_string();

    service.add_file_to_monitor(path.clone(), FileProbe::File(9));
    assert_eq!(service.get_monitored_files().len(), 1);
    assert_eq!(service.get_monitored_files()[0], path);

    service.add_file_to_monitor(path.clone(), FileProbe::File(9));
    assert_eq!(service.get_monitored_files().len(), 1);
}

#[test]
fn test_add_file_rejects_unwatchable_paths() {
    let mut service = MonitorService::new(5);
    service.add_file_to_monitor("gone.json".to_string(), FileProbe::Missing);
    service.add_file_to_monitor("dir".to_string(), FileProbe::NotAFile);
    service.add_file_to_monitor("huge.json".to_string(), FileProbe::File(10 * 1024 * 1024 + 1));
    assert!(service.get_monitored_files().is_empty());
    // exactly at the ceiling is still acceptable
    service.add_file_to_monitor("big.json".to_string(), FileProbe::File(10 * 1024 * 1024));
    assert_eq!(service.get_monitored_files().len(), 1);
}

#[test]
fn test_bounded_watch_list_evicts_oldest() {
    let mut service = MonitorService::new(5);
    for i in 0..50 {
        service.add_file_to_monitor(format!("f{}.json", i), FileProbe::File(10));
    }
    assert_eq!(service.get_monitored_files().len(), 50);

    // cache a fingerprint for the earliest-added path
    let metadata = FileMetadata { modified_time: 1, checksum: 2, size: 3 };
    let changes = service.scan_tick(vec![present("f0.json", metadata)]);
    assert_eq!(changes.len(), 1);
    assert!(matches!(changes[0].change_type, ChangeType::Created));
    assert_eq!(service.get_monitoring_stats().cached_metadata_count, 1);

    // the 51st path evicts the earliest-added one and its fingerprint
    service.add_file_to_monitor("f50.json".to_string(), FileProbe::File(10));
    assert_eq!(service.get_monitored_files().len(), 50);
    assert_eq!(service.get_monitored_files()[0], "f1.json");
    assert_eq!(service.get_monitored_files()[49], "f50.json");
    assert_eq!(service.get_monitoring_stats().cached_metadata_count, 0);
}

#[test]
fn test_get_file_metadata() {
    let content = "{}".to_string();
    let metadata = make_fingerprint(100, 2, Some(&content));
    assert_eq!(metadata.size, 2);
    assert_eq!(metadata.checksum, crc32fast::hash(b"{}"));
}

#[test]
fn test_fingerprint_skips_oversized_content() {
    assert!(should_read_content(1024 * 1024));
    assert!(!should_read_content(1024 * 1024 + 1));
    let metadata = make_fingerprint(100, 2 * 1024 * 1024, None);
    assert_eq!(metadata.checksum, 0);
    assert_eq!(metadata.size, 2 * 1024 * 1024);
}

#[test]
fn test_compare_metadata() {
    let metadata1 = FileMetadata { modified_time: 0, checksum: 123, size: 100 };
    let metadata2 = FileMetadata { modified_time: 0, checksum: 123, size: 100 };
    let metadata3 = FileMetadata { modified_time: 7_777, checksum: 456, size: 200 };

    assert!(!compare_metadata(&metadata1, &metadata2));
    assert!(compare_metadata(&metadata1, &metadata3));
}

#[test]
fn test_fingerprint_stability() {
    // probing the same unchanged file twice yields identical
    // fingerprints, and they compare as unchanged
    let content = r#"{"theme":"dark"}"#.to_string();
    let first = make_fingerprint(500, 16, Some(&content));
    let second = make_fingerprint(500, 16, Some(&content));
    assert_eq!(first, second);
    assert!(!compare_metadata(&first, &second));

    // a content change with a different size is always detected
    let grown = make_fingerprint(500, 17, Some(&r#"{"theme":"light"}"#.to_string()));
    assert!(compare_metadata(&first, &grown));
}

#[test]
fn test_zero_checksum_never_signals_change() {
    // the 0 sentinel for a skipped content read never by itself
    // triggers a change
    let cached = FileMetadata { modified_time: 5, checksum: 0, size: 10 };
    let current = FileMetadata { modified_time: 5, checksum: 999, size: 10 };
    assert!(!compare_metadata(&cached, &current));
    assert!(!compare_metadata(&current, &cached));
}

#[test]
fn test_scan_tick_event_kinds() {
    let mut service = MonitorService::new(5);
    service.add_file_to_monitor("test.json".to_string(), FileProbe::File(2));

    let fp1 = make_fingerprint(100, 2, Some(&"{}".to_string()));
    let created = service.scan_tick(vec![present("test.json", fp1)]);
    assert_eq!(created.len(), 1);
    assert!(matches!(created[0].change_type, ChangeType::Created));
    assert_eq!(created[0].file_path, "test.json");

    // an unchanged file produces no event
    let unchanged = service.scan_tick(vec![present("test.json", fp1)]);
    assert!(unchanged.is_empty());

    // a modified file is detected
    let fp2 = make_fingerprint(200, 18, Some(&r#"{"modified": true}"#.to_string()));
    let modified = service.scan_tick(vec![present("test.json", fp2)]);
    assert_eq!(modified.len(), 1);
    assert!(matches!(modified[0].change_type, ChangeType::Modified));

    // a deleted file is detected once, then forgotten
    let deleted = service.scan_tick(vec![missing("test.json")]);
    assert_eq!(deleted.len(), 1);
    assert!(matches!(deleted[0].change_type, ChangeType::Deleted));
    let still_gone = service.scan_tick(vec![missing("test.json")]);
    assert!(still_gone.is_empty());
}

#[test]
fn test_scan_errors_stop_monitor_at_ceiling() {
    // after exactly max_scan_errors consecutive failed ticks the
    // monitor reports itself stopped
    let mut service = MonitorService::new(5);
    service.add_file_to_monitor("a.json".to_string(), FileProbe::File(1));
    service.start_monitoring().unwrap();
    let max = service.get_monitoring_stats().max_scan_errors;
    assert_eq!(max, 10);
    for _ in 0..max {
        assert!(service.is_monitoring());
        let changes = service.scan_tick(vec![failed("a.json")]);
        assert!(changes.is_empty());
    }
    assert!(!service.is_monitoring());
    assert_eq!(service.get_monitoring_stats().current_error_count, max);
}

#[test]
fn test_clean_tick_resets_error_count() {
    let mut service = MonitorService::new(5);
    service.start_monitoring().unwrap();
    service.scan_tick(vec![failed("a.json")]);
    service.scan_tick(vec![failed("a.json")]);
    assert_eq!(service.get_monitoring_stats().current_error_count, 2);
    service.scan_tick(vec![missing("a.json")]);
    assert_eq!(service.get_monitoring_stats().current_error_count, 0);
    assert!(service.is_monitoring());
}

#[test]
fn test_backoff_doubles_and_caps() {
    let mut service = MonitorService::new(5);
    service.start_monitoring().unwrap();
    assert_eq!(service.backoff_secs(), 0);
    let expected = [30u64, 60, 120, 240, 300, 300];
    for want in expected {
        service.scan_tick(vec![failed("a.json")]);
        assert_eq!(service.backoff_secs(), want);
    }
}

#[test]
fn test_stop_monitoring_and_stats() {
    let mut service = MonitorService::new(7);
    service.add_file_to_monitor("a.json".to_string(), FileProbe::File(1));
    service.start_monitoring().unwrap();
    assert!(service.is_monitoring());
    service.stop_monitoring();
    assert!(!service.is_monitoring());

    let stats = service.get_monitoring_stats();
    assert_eq!(stats.monitored_files_count, 1);
    assert_eq!(stats.interval_minutes, 7);
    assert_eq!(stats.cache_size_limit, 100);
    assert_eq!(stats.max_scan_errors, 10);
    assert!(!stats.is_running);
}

#[test]
fn test_clear_cache_and_files() {
    let mut service = MonitorService::new(5);
    service.add_file_to_monitor("a.json".to_string(), FileProbe::File(1));
    let fp = FileMetadata { modified_time: 1, checksum: 1, size: 1 };
    service.scan_tick(vec![present("a.json", fp)]);
    assert_eq!(service.get_monitoring_stats().cached_metadata_count, 1);

    service.clear_cache();
    assert_eq!(service.get_monitoring_stats().cached_metadata_count, 0);

    service.add_file_to_monitor("a.json".to_string(), FileProbe::File(1));
    service.clear_monitored_files();
    assert!(service.get_monitored_files().is_empty());
}
