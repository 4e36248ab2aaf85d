use cccs::i18n::{fill_template, I18nService};

#[test]
fn test_i18n_service_creation() {
    let service = I18nService::new();
    assert!(!service.get_current_locale().is_empty());
    assert!(!I18nService::get_supported_locales().is_empty());
}

#[test]
fn test_get_text() {
    let service = I18nService::new();

    // Test basic text retrieval
    let text = service.get_text("app_name");
    assert_eq!(text, "CCCS");

    // Test missing key
    let missing = service.get_text("non_existent_key");
    assert_eq!(missing, "non_existent_key");
}

#[test]
fn test_get_text_with_args() {
    let service = I18nService::new();

    // Test text with formatting
    let text = service.get_text_with_args("switch_profile", &["test"]);
    assert!(text.contains("test"));
}

#[test]
fn test_fill_template() {
    assert_eq!(fill_template("a {} b {} c", &["X", "Y"]), "a X b Y c");
    // extra arguments beyond the placeholders are dropped
    assert_eq!(fill_template("no placeholder", &["X"]), "no placeholder");
    // placeholders beyond the arguments stay
    assert_eq!(fill_template("{} and {}", &["one"]), "one and {}");
    assert_eq!(fill_template("{}{}", &["a", "b"]), "ab");
}

#[test]
fn test_set_locale() {
    let mut service = I18nService::new();

    // Test valid locale
    assert!(service.set_locale("zh").is_ok());
    assert_eq!(service.get_current_locale(), "zh");

    // Test invalid locale
    assert!(service.set_locale("invalid").is_err());
    assert_eq!(service.get_current_locale(), "zh");
}

#[test]
fn test_locale_specific_text() {
    let mut service = I18nService::new();

    // Test English
    service.set_locale("en").unwrap();
    assert_eq!(service.get_text("settings"), "Settings");

    // Test Chinese
    service.set_locale("zh").unwrap();
    assert_eq!(service.get_text("settings"), "设置");
}

#[test]
fn test_get_supported_locales() {
    let locales = I18nService::get_supported_locales();
    assert!(locales.contains(&"en".to_string()));
    assert!(locales.contains(&"zh".to_string()));
}

#[test]
fn test_is_locale_supported() {
    assert!(I18nService::is_locale_supported("en"));
    assert!(I18nService::is_locale_supported("zh"));
    assert!(!I18nService::is_locale_supported("fr"));
}

#[test]
fn test_profile_menu_text() {
    let service = I18nService::new();

    let active_text = service.get_profile_menu_text("test", true);
    assert_eq!(active_text, "test ✅");

    let inactive_text = service.get_profile_menu_text("test", false);
    assert_eq!(inactive_text, "test");
}

#[test]
fn test_tray_tooltip() {
    let mut service = I18nService::new();
    service.set_locale("en").unwrap();

    // Test with no profiles
    let tooltip = service.get_tray_tooltip(0, None);
    assert!(tooltip.contains("CCCS Configuration Switcher"));

    // Test with active profile
    let tooltip = service.get_tray_tooltip(2, Some("work"));
    assert!(tooltip.contains("Active"));
    assert!(tooltip.contains("work"));
}

#[test]
fn test_tray_tooltip_counts() {
    let mut service = I18nService::new();
    service.set_locale("en").unwrap();
    let one = service.get_tray_tooltip(1, None);
    assert_eq!(one, "CCCS Configuration Switcher - 1 Profile");
    let many = service.get_tray_tooltip(12, None);
    assert_eq!(many, "CCCS Configuration Switcher - 12 Profiles");
}
