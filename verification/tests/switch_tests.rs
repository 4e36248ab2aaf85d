use cccs::errors::AppError;
use cccs::store::{ConfigService, ScanEntry, SwitchPlan};
use cccs::switch::{
    backup_path_for, backup_prefix_for, restore_temp_path_for, split_backups, temp_path_for,
    SwitchStep, SwitchTransaction, StepOutcome,
};
use cccs::types::ProfileStatus;

/// A tiny in-memory stand-in for the live settings file and its
/// siblings, driven by the transaction's steps.
struct FakeDisk {
    live: String,
    backup: Option<String>,
    temp: Option<String>,
}

/// Run a transaction to completion against the fake disk, with an
/// optional step at which the disk starts failing.
fn drive(tx: &mut SwitchTransaction, disk: &mut FakeDisk, fail_at: Option<SwitchStep>) {
    loop {
        let step = tx.next_step();
        if matches!(step, SwitchStep::Done) {
            break;
        }
        if fail_at == Some(step) {
            tx.apply(StepOutcome::Failed("simulated failure".to_string()));
            continue;
        }
        match step {
            SwitchStep::CheckPreflight => tx.apply(StepOutcome::Succeeded),
            SwitchStep::CreateBackup => {
                disk.backup = Some(disk.live.clone());
                tx.apply(StepOutcome::Succeeded);
            }
            SwitchStep::WriteTempFile => {
                disk.temp = Some(tx.intended_content().to_string());
                tx.apply(StepOutcome::Succeeded);
            }
            SwitchStep::ReadBackTemp => {
                let content = disk.temp.clone().unwrap();
                tx.apply(StepOutcome::ReadContent(content));
            }
            SwitchStep::RenameTempOverLive => {
                disk.live = disk.temp.take().unwrap();
                tx.apply(StepOutcome::Succeeded);
            }
            SwitchStep::ReadBackLive => {
                let content = disk.live.clone();
                tx.apply(StepOutcome::ReadContent(content));
            }
            SwitchStep::RestoreBackup => {
                disk.live = disk.backup.clone().unwrap();
                tx.apply(StepOutcome::Succeeded);
            }
            SwitchStep::Done => unreachable!(),
        }
    }
}

#[test]
fn test_switch_profile_success() {
    let mut service = ConfigService::new("/home/user/.cfg".to_string());
    let live = r#"{"theme": "dark", "language": "en"}"#;
    service.store_live_settings(live.to_string(), 1_000);

    let profile_content = r#"{"theme": "light", "language": "fr"}"#;
    service
        .scan_profiles(vec![ScanEntry {
            file_name: "test.settings.json".to_string(),
            content: Some(profile_content.to_string()),
        }])
        .unwrap();

    let plan = service.prepare_switch("test").unwrap();
    let normalized = match plan {
        SwitchPlan::Replace(content) => content,
        SwitchPlan::AlreadyActive => panic!("profile should not be active yet"),
    };

    let mut disk = FakeDisk { live: live.to_string(), backup: None, temp: None };
    let mut tx = SwitchTransaction::start(normalized);
    drive(&mut tx, &mut disk, None);
    let result = tx.result();
    assert!(result.is_ok());

    // the switch is validated by comparing the profile with what is now
    // on disk
    let validation = service.validate_switch("test", &disk.live).unwrap();
    assert!(validation);
}

#[test]
fn test_switch_round_trip() {
    // after a committed switch, re-parsing the live file yields a value
    // deep-equal to the profile's parsed content
    let mut service = ConfigService::new("/d".to_string());
    service.store_live_settings(r#"{"theme":"dark","model":"m1"}"#.to_string(), 1_000);
    let profile_content = r#"{"model":"m2",   "theme":"dark"}"#;
    service
        .scan_profiles(vec![ScanEntry {
            file_name: "work.settings.json".to_string(),
            content: Some(profile_content.to_string()),
        }])
        .unwrap();

    let normalized = match service.prepare_switch("work").unwrap() {
        SwitchPlan::Replace(content) => content,
        SwitchPlan::AlreadyActive => panic!("profile should not be active yet"),
    };
    let mut disk =
        FakeDisk { live: r#"{"theme":"dark","model":"m1"}"#.to_string(), backup: None, temp: None };
    let mut tx = SwitchTransaction::start(normalized);
    drive(&mut tx, &mut disk, None);
    assert!(tx.result().is_ok());

    let after: serde_json::Value = serde_json::from_str(&disk.live).unwrap();
    let intended: serde_json::Value = serde_json::from_str(profile_content).unwrap();
    assert_eq!(after, intended);
}

#[test]
fn test_switch_scenario_partial_then_full() {
    // settings.json = {"theme":"dark","model":"m1"},
    // work.settings.json = {"theme":"dark","model":"m2"}
    let mut service = ConfigService::new("/home/user/.cfg".to_string());
    let live = r#"{"theme":"dark","model":"m1"}"#;
    service.store_live_settings(live.to_string(), 1_000);
    service
        .scan_profiles(vec![ScanEntry {
            file_name: "work.settings.json".to_string(),
            content: Some(r#"{"theme":"dark","model":"m2"}"#.to_string()),
        }])
        .unwrap();

    assert_eq!(service.get_profile_status("work"), ProfileStatus::PartialMatch);

    let normalized = match service.prepare_switch("work").unwrap() {
        SwitchPlan::Replace(content) => content,
        SwitchPlan::AlreadyActive => panic!("profile should not be active yet"),
    };
    let mut disk = FakeDisk { live: live.to_string(), backup: None, temp: None };
    let mut tx = SwitchTransaction::start(normalized);
    drive(&mut tx, &mut disk, None);
    assert!(tx.result().is_ok());

    // the live file now parses to the profile's value
    let after: serde_json::Value = serde_json::from_str(&disk.live).unwrap();
    let expected: serde_json::Value =
        serde_json::from_str(r#"{"theme":"dark","model":"m2"}"#).unwrap();
    assert_eq!(after, expected);

    // the caller invalidates caches and re-reads the live settings
    service.clear_cache();
    service.store_live_settings(disk.live.clone(), 2_000);
    service.refresh_profile_status().unwrap();
    assert_eq!(service.get_profile_status("work"), ProfileStatus::FullMatch);

    // idempotence: a second switch of the now fully matching profile
    // plans no write at all
    assert_eq!(service.prepare_switch("work").unwrap(), SwitchPlan::AlreadyActive);
}

#[test]
fn test_switch_nonexistent_leaves_live_untouched() {
    let mut service = ConfigService::new("/home/user/.cfg".to_string());
    let live = r#"{"theme":"dark","model":"m1"}"#;
    service.store_live_settings(live.to_string(), 1_000);
    service.scan_profiles(Vec::new()).unwrap();

    let disk_before = live.to_string();
    let result = service.prepare_switch("ghost");
    assert!(matches!(result, Err(AppError::ConfigError(_))));
    // no plan, no transaction, no step: the live settings are
    // byte-identical to their pre-call state
    assert_eq!(disk_before, live);
}

#[test]
fn test_switch_rollback_on_write_failure() {
    let live = r#"{"a":1}"#;
    let mut disk = FakeDisk { live: live.to_string(), backup: None, temp: None };
    let mut tx = SwitchTransaction::start("{\n  \"a\": 2\n}".to_string());
    drive(&mut tx, &mut disk, Some(SwitchStep::WriteTempFile));
    let result = tx.result();
    assert!(matches!(result, Err(AppError::FileSystemError(_))));
    // the backup was restored over the live settings
    assert_eq!(disk.live, live);
}

#[test]
fn test_switch_rollback_on_read_failure() {
    // a read-back that fails outright (not just one that mismatches)
    // also rolls the switch back
    let live = r#"{"a":1}"#;
    let mut disk = FakeDisk { live: live.to_string(), backup: None, temp: None };
    let mut tx = SwitchTransaction::start("{\n  \"a\": 2\n}".to_string());
    drive(&mut tx, &mut disk, Some(SwitchStep::ReadBackTemp));
    let result = tx.result();
    assert!(matches!(result, Err(AppError::FileSystemError(_))));
    assert_eq!(disk.live, live);
}

#[test]
fn test_switch_rollback_on_final_read_failure() {
    // a failed verification read after the rename restores the backup
    let live = r#"{"a":1}"#;
    let mut disk = FakeDisk { live: live.to_string(), backup: None, temp: None };
    let mut tx = SwitchTransaction::start("{\n  \"a\": 2\n}".to_string());
    drive(&mut tx, &mut disk, Some(SwitchStep::ReadBackLive));
    let result = tx.result();
    assert!(matches!(result, Err(AppError::FileSystemError(_))));
    assert_eq!(disk.live, live);
}

#[test]
fn test_switch_backup_failure_aborts() {
    let live = r#"{"a":1}"#;
    let mut disk = FakeDisk { live: live.to_string(), backup: None, temp: None };
    let mut tx = SwitchTransaction::start("{\n  \"a\": 2\n}".to_string());
    drive(&mut tx, &mut disk, Some(SwitchStep::CreateBackup));
    let result = tx.result();
    assert!(matches!(result, Err(AppError::FileSystemError(_))));
    // nothing was mutated
    assert_eq!(disk.live, live);
}

#[test]
fn test_switch_corruption_detected() {
    let live = r#"{"a":1}"#;
    let mut disk = FakeDisk { live: live.to_string(), backup: None, temp: None };
    let mut tx = SwitchTransaction::start("{\n  \"a\": 2\n}".to_string());
    // drive by hand: the temp read-back reports garbage
    loop {
        match tx.next_step() {
            SwitchStep::CheckPreflight => tx.apply(StepOutcome::Succeeded),
            SwitchStep::CreateBackup => {
                disk.backup = Some(disk.live.clone());
                tx.apply(StepOutcome::Succeeded);
            }
            SwitchStep::WriteTempFile => tx.apply(StepOutcome::Succeeded),
            SwitchStep::ReadBackTemp => tx.apply(StepOutcome::ReadContent("garbage".to_string())),
            SwitchStep::RestoreBackup => {
                disk.live = disk.backup.clone().unwrap();
                tx.apply(StepOutcome::Succeeded);
            }
            SwitchStep::Done => break,
            _ => panic!("the protocol must roll back after a corrupted write"),
        }
    }
    let result = tx.result();
    assert!(matches!(result, Err(AppError::CorruptionDetected(_))));
    assert_eq!(disk.live, live);
}

#[test]
fn test_switch_rollback_failure_is_fatal() {
    let mut disk = FakeDisk { live: r#"{"a":1}"#.to_string(), backup: None, temp: None };
    let mut tx = SwitchTransaction::start("{\n  \"a\": 2\n}".to_string());
    loop {
        match tx.next_step() {
            SwitchStep::CheckPreflight => tx.apply(StepOutcome::Succeeded),
            SwitchStep::CreateBackup => {
                disk.backup = Some(disk.live.clone());
                tx.apply(StepOutcome::Succeeded);
            }
            SwitchStep::WriteTempFile => tx.apply(StepOutcome::Failed("disk full".to_string())),
            SwitchStep::RestoreBackup => {
                tx.apply(StepOutcome::Failed("backup unreadable".to_string()))
            }
            SwitchStep::Done => break,
            _ => panic!("the protocol must roll back after a failed write"),
        }
    }
    let result = tx.result();
    assert!(matches!(result, Err(AppError::RollbackFailed(_))));
}

#[test]
fn test_switch_paths() {
    assert_eq!(
        backup_path_for("/d/settings.json", 1700000000),
        "/d/settings.json.backup.1700000000"
    );
    assert_eq!(backup_prefix_for("/d/settings.json"), "/d/settings.json.backup.");
    assert_eq!(temp_path_for("/d/settings.json"), "/d/settings.json.tmp");
    assert_eq!(restore_temp_path_for("/d/settings.json"), "/d/settings.json.restore_tmp");
}

#[test]
fn test_split_backups_keeps_five_newest() {
    let backups = vec![
        ("b1".to_string(), 10u64),
        ("b2".to_string(), 70u64),
        ("b3".to_string(), 30u64),
        ("b4".to_string(), 60u64),
        ("b5".to_string(), 20u64),
        ("b6".to_string(), 50u64),
        ("b7".to_string(), 40u64),
    ];
    let (keep, prune) = split_backups(backups);
    assert_eq!(keep.len(), 5);
    assert_eq!(prune.len(), 2);
    let kept: Vec<&str> = keep.iter().map(|b| b.0.as_str()).collect();
    assert_eq!(kept, vec!["b2", "b4", "b6", "b7", "b3"]);
    let pruned: Vec<&str> = prune.iter().map(|b| b.0.as_str()).collect();
    assert_eq!(pruned, vec!["b5", "b1"]);
}

#[test]
fn test_split_backups_small_list() {
    let backups = vec![("b1".to_string(), 10u64), ("b2".to_string(), 20u64)];
    let (keep, prune) = split_backups(backups);
    assert_eq!(keep.len(), 2);
    assert!(prune.is_empty());
}
