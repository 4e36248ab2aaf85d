//! User settings: validation and in-memory updates.
//!
//! Persistence (reading and writing the settings file) is the caller's
//! job; every update here validates first and mutates only on success,
//! so the stored state always holds validated values.

use vstd::prelude::*;
use vstd::string::*;

use crate::errors::{AppError, AppResult};
use crate::text::{spec_dec_str, u64_to_string};
use crate::types::UserSettings;

verus! {

/// A poll interval is valid when it lies in [1, 60] minutes.
pub open spec fn spec_valid_interval(minutes: u64) -> bool {
    1 <= minutes <= 60
}

/// The languages the interface can be asked to use.
pub open spec fn spec_supported_language(language: Seq<char>) -> bool {
    ||| language == "en"@
    ||| language == "zh"@
    ||| language == "zh-CN"@
    ||| language == "zh-TW"@
}

/// Settings are valid when the interval is in range and any explicit
/// language is supported.
pub open spec fn spec_valid_settings(s: UserSettings) -> bool {
    &&& spec_valid_interval(s.monitor_interval_minutes)
    &&& (s.language is Some ==> spec_supported_language(s.language->Some_0@))
}

/// Holds the user's preferences and the path they are persisted at.
pub struct SettingsService {
    settings_file_path: String,
    current_settings: UserSettings,
}

impl SettingsService {
    /// The settings currently held.
    pub closed spec fn settings(self) -> UserSettings {
        self.current_settings
    }

    /// The path of the settings file.
    pub closed spec fn path(self) -> Seq<char> {
        self.settings_file_path@
    }

    /// A service that persists at the given path, holding the defaults.
    pub fn new(settings_file_path: String) -> (r: Self)
        ensures
            r.path() == settings_file_path@,
            r.settings() == UserSettings::spec_default(),
    {
        SettingsService { settings_file_path, current_settings: UserSettings::default() }
    }

    /// Accept an interval only in [1, 60] minutes.
    pub fn validate_monitor_interval(minutes: u64) -> (r: AppResult<()>)
        ensures
            r is Ok <==> spec_valid_interval(minutes),
            r is Err ==> r->Err_0 is SettingsError,
    {
        if 1 <= minutes && minutes <= 60 {
            Ok(())
        } else {
            Err(
                AppError::SettingsError(
                    String::from_str("Invalid monitor interval: must be between 1 and 60 minutes"),
                ),
            )
        }
    }

    /// Whether the given language code is supported.
    pub fn is_supported_language(language: &str) -> (r: bool)
        ensures
            r == spec_supported_language(language@),
    {
        crate::text::str_eq(language, "en") || crate::text::str_eq(language, "zh")
            || crate::text::str_eq(language, "zh-CN") || crate::text::str_eq(language, "zh-TW")
    }

    /// Accept settings only when the interval is in range and any
    /// explicit language is supported.
    pub fn validate_settings(settings: &UserSettings) -> (r: AppResult<()>)
        ensures
            r is Ok <==> spec_valid_settings(*settings),
            r is Err ==> r->Err_0 is SettingsError,
    {
        let interval_check = Self::validate_monitor_interval(settings.monitor_interval_minutes);
        if let Err(e) = interval_check {
            return Err(e);
        }
        match &settings.language {
            Some(language) => {
                if Self::is_supported_language(language.as_str()) {
                    Ok(())
                } else {
                    Err(AppError::SettingsError(String::from_str("Unsupported language")))
                }
            },
            None => Ok(()),
        }
    }

    /// Replace the settings wholesale; rejected, with the state
    /// unchanged, when the new settings are invalid.
    pub fn update_settings(&mut self, new_settings: UserSettings) -> (r: AppResult<()>)
        ensures
            r is Ok <==> spec_valid_settings(new_settings),
            r is Ok ==> final(self).settings() == new_settings,
            r is Err ==> *final(self) == *old(self) && r->Err_0 is SettingsError,
            final(self).path() == old(self).path(),
    {
        match Self::validate_settings(&new_settings) {
            Ok(()) => {
                self.current_settings = new_settings;
                Ok(())
            },
            Err(e) => Err(e),
        }
    }

    /// Set the poll interval; rejected outside [1, 60] minutes, leaving
    /// the state unchanged.
    pub fn update_monitor_interval(&mut self, minutes: u64) -> (r: AppResult<()>)
        ensures
            r is Ok <==> spec_valid_interval(minutes),
            r is Ok ==> final(self).settings() == (UserSettings {
                monitor_interval_minutes: minutes,
                ..old(self).settings()
            }),
            r is Err ==> *final(self) == *old(self) && r->Err_0 is SettingsError,
            final(self).path() == old(self).path(),
    {
        match Self::validate_monitor_interval(minutes) {
            Ok(()) => {
                self.current_settings.monitor_interval_minutes = minutes;
                Ok(())
            },
            Err(e) => Err(e),
        }
    }

    /// Set whether monitoring starts automatically.
    pub fn update_auto_start_monitoring(&mut self, enabled: bool) -> (r: AppResult<()>)
        ensures
            r is Ok,
            final(self).settings() == (UserSettings {
                auto_start_monitoring: enabled,
                ..old(self).settings()
            }),
            final(self).path() == old(self).path(),
    {
        self.current_settings.auto_start_monitoring = enabled;
        Ok(())
    }

    /// Set the interface language; an explicit language must be
    /// supported, else the state is unchanged.
    pub fn update_language(&mut self, language: Option<String>) -> (r: AppResult<()>)
        ensures
            r is Ok <==> (language is Some ==> spec_supported_language(language->Some_0@)),
            r is Ok ==> final(self).settings() == (UserSettings {
                language: language,
                ..old(self).settings()
            }),
            r is Err ==> *final(self) == *old(self) && r->Err_0 is SettingsError,
            final(self).path() == old(self).path(),
    {
        match &language {
            Some(code) => {
                if !Self::is_supported_language(code.as_str()) {
                    return Err(AppError::SettingsError(String::from_str("Unsupported language")));
                }
            },
            None => {},
        }
        self.current_settings.language = language;
        Ok(())
    }

    /// Set whether notifications are shown.
    pub fn update_show_notifications(&mut self, enabled: bool) -> (r: AppResult<()>)
        ensures
            r is Ok,
            final(self).settings() == (UserSettings {
                show_notifications: enabled,
                ..old(self).settings()
            }),
            final(self).path() == old(self).path(),
    {
        self.current_settings.show_notifications = enabled;
        Ok(())
    }

    /// The settings currently held.
    pub fn get_current_settings(&self) -> (r: &UserSettings)
        ensures
            *r == self.settings(),
    {
        &self.current_settings
    }

    /// The path of the settings file.
    pub fn get_settings_file_path(&self) -> (r: &str)
        ensures
            r@ == self.path(),
    {
        self.settings_file_path.as_str()
    }

    /// Go back to the defaults.
    pub fn reset_to_defaults(&mut self) -> (r: AppResult<()>)
        ensures
            r is Ok,
            final(self).settings() == UserSettings::spec_default(),
            final(self).path() == old(self).path(),
    {
        self.current_settings = UserSettings::default();
        Ok(())
    }

    /// The file name for a settings backup taken at the given Unix
    /// timestamp.
    pub fn backup_file_name(timestamp: u64) -> (r: String)
        ensures
            r@ == "cccs_settings_backup_"@ + spec_dec_str(timestamp as nat) + ".json"@,
    {
        String::from_str("cccs_settings_backup_").concat(u64_to_string(timestamp).as_str()).concat(
            ".json",
        )
    }
}

} // verus!
