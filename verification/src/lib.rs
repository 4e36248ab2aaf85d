//! Library for maintaining named configuration profiles for an external
//! tool and atomically activating one of them by overwriting the tool's
//! live settings file.
//!
//! The crate is organised around two subsystems: a profile store that
//! scans profile files, caches content, classifies activation status and
//! plans crash-safe atomic switches, and a change monitor that keeps a
//! bounded watch list with fingerprint-based change detection and a
//! fail-stop error policy.  All file system access is performed by the
//! caller; this crate holds the decisions and the data, with contracts.

pub mod assoc;
pub mod checksum;
pub mod errors;
pub mod fingerprint;
pub mod i18n;
pub mod json;
pub mod monitor;
pub mod settings;
pub mod store;
pub mod switch;
pub mod text;
pub mod tray;
pub mod types;
