use cccs::errors::AppError;
use cccs::tray::{profile_menu_label, status_menu_label};
use cccs::types::{Profile, ProfileStatus};

fn create_test_profile(name: &str, is_active: bool) -> Profile {
    Profile {
        name: name.to_string(),
        path: format!("{}.settings.json", name),
        content: "{}".to_string(),
        is_active,
    }
}

#[test]
fn test_profile_creation() {
    let profile = create_test_profile("test", true);
    assert_eq!(profile.name, "test");
    assert!(profile.is_active);
}

#[test]
fn test_menu_text_generation() {
    let active_profile = create_test_profile("active", true);
    let inactive_profile = create_test_profile("inactive", false);

    let active_text = profile_menu_label(&active_profile.name, active_profile.is_active);
    let inactive_text = profile_menu_label(&inactive_profile.name, inactive_profile.is_active);

    assert_eq!(active_text, "✅ active");
    assert_eq!(inactive_text, "　  inactive");
}

#[test]
fn test_status_menu_labels() {
    assert_eq!(status_menu_label("p", &ProfileStatus::FullMatch), "✅ p");
    assert_eq!(status_menu_label("p", &ProfileStatus::PartialMatch), "🔄 p");
    assert_eq!(status_menu_label("p", &ProfileStatus::NoMatch), "　  p");
    assert_eq!(status_menu_label("p", &ProfileStatus::Error("why".to_string())), "❌ p");
}

#[test]
fn test_error_messages() {
    assert_eq!(
        AppError::ClaudeNotFound.message(),
        "tool installation not found"
    );
    assert_eq!(
        AppError::ConfigError("oops".to_string()).message(),
        "Configuration file error: oops"
    );
    assert_eq!(
        AppError::FileSystemError("oops".to_string()).message(),
        "File system error: oops"
    );
    assert_eq!(AppError::SettingsError("oops".to_string()).message(), "Settings error: oops");
    assert_eq!(
        AppError::MonitorError("oops".to_string()).message(),
        "Monitor service error: oops"
    );
    assert_eq!(AppError::I18nError("oops".to_string()).message(), "I18n error: oops");
    assert_eq!(
        AppError::CorruptionDetected("oops".to_string()).message(),
        "Corruption detected: oops"
    );
    assert_eq!(
        AppError::RollbackFailed("oops".to_string()).message(),
        "Rollback failed: oops"
    );
}
