//! Shared data types: profiles, file fingerprints, user settings, change
//! events and monitoring statistics.

use vstd::prelude::*;

verus! {

/// A named configuration profile found in the watched directory.
///
/// `content` is an immutable snapshot of the profile file taken at scan
/// time; `is_active` records whether the content matched the live
/// settings when the status was last refreshed.
#[derive(Debug, Clone)]
pub struct Profile {
    pub name: String,
    pub path: String,
    pub content: String,
    pub is_active: bool,
}

impl Profile {
    /// The mathematical content of a profile: its field views.
    pub open spec fn repr(self) -> (Seq<char>, Seq<char>, Seq<char>, bool) {
        (self.name@, self.path@, self.content@, self.is_active)
    }
}

/// A comparable fingerprint of a file: modification time (milliseconds
/// since the Unix epoch), a 32-bit content checksum (0 when the content
/// was skipped, e.g. for oversized files), and the byte size.
#[derive(Debug, Clone, Copy, PartialEq, Eq, Structural)]
pub struct FileMetadata {
    pub modified_time: u64,
    pub checksum: u32,
    pub size: u64,
}

/// User preferences that parameterize the monitor and the stores.
#[derive(Debug, Clone, PartialEq)]
pub struct UserSettings {
    pub monitor_interval_minutes: u64,
    pub auto_start_monitoring: bool,
    pub language: Option<String>,
    pub show_notifications: bool,
}

impl UserSettings {
    /// The defaults: poll every 5 minutes, start monitoring
    /// automatically, no explicit language, show notifications.
    pub open spec fn spec_default() -> UserSettings {
        UserSettings {
            monitor_interval_minutes: 5,
            auto_start_monitoring: true,
            language: None,
            show_notifications: true,
        }
    }
}

impl Default for UserSettings {
    /// The defaults: poll every 5 minutes, start monitoring
    /// automatically, no explicit language, show notifications.
    fn default() -> (r: Self)
        ensures
            r == UserSettings::spec_default(),
    {
        UserSettings {
            monitor_interval_minutes: 5,
            auto_start_monitoring: true,
            language: None,
            show_notifications: true,
        }
    }
}

/// How a profile's content relates to the live settings: exactly equal,
/// equal once the designated field is ignored, different, or not
/// comparable because one side failed to parse.
#[derive(Debug, PartialEq)]
pub enum ProfileStatus {
    FullMatch,
    PartialMatch,
    NoMatch,
    Error(String),
}

/// A change event produced by the monitor's diff step.
#[derive(Debug, Clone)]
pub struct ConfigFileChange {
    pub file_path: String,
    pub change_type: ChangeType,
}

impl ConfigFileChange {
    /// The mathematical content of a change event.
    pub open spec fn repr(self) -> (Seq<char>, ChangeType) {
        (self.file_path@, self.change_type)
    }
}

/// The kind of a change event.
#[derive(Debug, Clone, Copy, PartialEq, Eq, Structural)]
pub enum ChangeType {
    Modified,
    Created,
    Deleted,
}

/// A snapshot of the monitor's state for diagnostics.
#[derive(Debug, Clone)]
pub struct MonitoringStats {
    pub monitored_files_count: usize,
    pub cached_metadata_count: usize,
    pub current_error_count: u32,
    pub is_running: bool,
    pub interval_minutes: u64,
    pub cache_size_limit: usize,
    pub max_scan_errors: u32,
}

/// Parameters for exercising the monitor and store under load.
#[derive(Debug, Clone)]
pub struct PerformanceTestConfig {
    pub test_duration_seconds: u64,
    pub file_count: usize,
    pub file_size_bytes: usize,
    pub modification_frequency_seconds: u64,
}

impl Default for PerformanceTestConfig {
    fn default() -> (r: Self)
        ensures
            r.test_duration_seconds == 60,
            r.file_count == 10,
            r.file_size_bytes == 1024,
            r.modification_frequency_seconds == 5,
    {
        PerformanceTestConfig {
            test_duration_seconds: 60,
            file_count: 10,
            file_size_bytes: 1024,
            modification_frequency_seconds: 5,
        }
    }
}

} // verus!
