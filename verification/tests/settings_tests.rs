use cccs::settings::SettingsService;
use cccs::types::UserSettings;

fn create_test_settings_service() -> SettingsService {
    SettingsService::new("/home/user/.config/cccs/cccs_settings.json".to_string())
}

#[test]
fn test_settings_service_creation() {
    let service = create_test_settings_service();
    assert_eq!(service.get_settings_file_path(), "/home/user/.config/cccs/cccs_settings.json");
}

#[test]
fn test_default_settings() {
    let settings = UserSettings::default();
    assert_eq!(settings.monitor_interval_minutes, 5);
    assert!(settings.auto_start_monitoring);
    assert_eq!(settings.language, None);
    assert!(settings.show_notifications);
}

#[test]
fn test_validate_monitor_interval() {
    assert!(SettingsService::validate_monitor_interval(1).is_ok());
    assert!(SettingsService::validate_monitor_interval(30).is_ok());
    assert!(SettingsService::validate_monitor_interval(60).is_ok());

    assert!(SettingsService::validate_monitor_interval(0).is_err());
    assert!(SettingsService::validate_monitor_interval(61).is_err());
}

#[test]
fn test_is_supported_language() {
    assert!(SettingsService::is_supported_language("en"));
    assert!(SettingsService::is_supported_language("zh"));
    assert!(SettingsService::is_supported_language("zh-CN"));
    assert!(SettingsService::is_supported_language("zh-TW"));

    assert!(!SettingsService::is_supported_language("fr"));
    assert!(!SettingsService::is_supported_language("invalid"));
}

#[test]
fn test_update_monitor_interval() {
    let mut service = create_test_settings_service();

    assert!(service.update_monitor_interval(15).is_ok());
    assert_eq!(service.get_current_settings().monitor_interval_minutes, 15);

    assert!(service.update_monitor_interval(0).is_err());
    // Value should remain unchanged after error
    assert_eq!(service.get_current_settings().monitor_interval_minutes, 15);
}

#[test]
fn test_update_language() {
    let mut service = create_test_settings_service();

    assert!(service.update_language(Some("zh".to_string())).is_ok());
    assert_eq!(service.get_current_settings().language, Some("zh".to_string()));

    assert!(service.update_language(None).is_ok());
    assert_eq!(service.get_current_settings().language, None);

    assert!(service.update_language(Some("invalid".to_string())).is_err());
}

#[test]
fn test_update_settings_validates() {
    let mut service = create_test_settings_service();
    let good = UserSettings {
        monitor_interval_minutes: 10,
        auto_start_monitoring: false,
        language: Some("zh-TW".to_string()),
        show_notifications: false,
    };
    assert!(service.update_settings(good.clone()).is_ok());
    assert_eq!(service.get_current_settings(), &good);

    let bad_interval = UserSettings { monitor_interval_minutes: 0, ..good.clone() };
    assert!(service.update_settings(bad_interval).is_err());
    assert_eq!(service.get_current_settings(), &good);

    let bad_language = UserSettings { language: Some("xx".to_string()), ..good.clone() };
    assert!(service.update_settings(bad_language).is_err());
    assert_eq!(service.get_current_settings(), &good);
}

#[test]
fn test_update_flags() {
    let mut service = create_test_settings_service();
    assert!(service.update_auto_start_monitoring(false).is_ok());
    assert!(!service.get_current_settings().auto_start_monitoring);
    assert!(service.update_show_notifications(false).is_ok());
    assert!(!service.get_current_settings().show_notifications);
}

#[test]
fn test_reset_to_defaults() {
    let mut service = create_test_settings_service();
    service.update_monitor_interval(42).unwrap();
    assert!(service.reset_to_defaults().is_ok());
    assert_eq!(service.get_current_settings(), &UserSettings::default());
}

#[test]
fn test_backup_file_name() {
    assert_eq!(SettingsService::backup_file_name(1700000000), "cccs_settings_backup_1700000000.json");
    assert_eq!(SettingsService::backup_file_name(0), "cccs_settings_backup_0.json");
}
