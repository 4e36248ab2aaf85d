//! Error kinds shared by the profile store, the change monitor and the
//! settings store.

use vstd::prelude::*;
use vstd::string::*;

verus! {

/// Errors surfaced by the services of this crate.
///
/// `CorruptionDetected` marks a post-write verification mismatch during a
/// switch, and `RollbackFailed` the fatal case in which restoring the
/// backup after a failed switch itself failed; both are kept distinct from
/// ordinary file system errors so callers can react differently.
#[derive(Debug, Clone, PartialEq)]
pub enum AppError {
    ClaudeNotFound,
    ConfigError(String),
    FileSystemError(String),
    SettingsError(String),
    MonitorError(String),
    I18nError(String),
    CorruptionDetected(String),
    RollbackFailed(String),
}

pub type AppResult<T> = Result<T, AppError>;

impl AppError {
    /// The human-readable text of this error.
    pub open spec fn message_spec(self) -> Seq<char> {
        match self {
            AppError::ClaudeNotFound => "tool installation not found"@,
            AppError::ConfigError(s) => "Configuration file error: "@ + s@,
            AppError::FileSystemError(s) => "File system error: "@ + s@,
            AppError::SettingsError(s) => "Settings error: "@ + s@,
            AppError::MonitorError(s) => "Monitor service error: "@ + s@,
            AppError::I18nError(s) => "I18n error: "@ + s@,
            AppError::CorruptionDetected(s) => "Corruption detected: "@ + s@,
            AppError::RollbackFailed(s) => "Rollback failed: "@ + s@,
        }
    }

    /// A printable description of the error, with its payload appended.
    pub fn message(&self) -> (r: String)
        ensures
            r@ == self.message_spec(),
    {
        match self {
            AppError::ClaudeNotFound => String::from_str("tool installation not found"),
            AppError::ConfigError(s) => String::from_str("Configuration file error: ").concat(
                s.as_str(),
            ),
            AppError::FileSystemError(s) => String::from_str("File system error: ").concat(
                s.as_str(),
            ),
            AppError::SettingsError(s) => String::from_str("Settings error: ").concat(s.as_str()),
            AppError::MonitorError(s) => String::from_str("Monitor service error: ").concat(
                s.as_str(),
            ),
            AppError::I18nError(s) => String::from_str("I18n error: ").concat(s.as_str()),
            AppError::CorruptionDetected(s) => String::from_str("Corruption detected: ").concat(
                s.as_str(),
            ),
            AppError::RollbackFailed(s) => String::from_str("Rollback failed: ").concat(
                s.as_str(),
            ),
        }
    }
}

} // verus!
