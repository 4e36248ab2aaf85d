//! Fingerprint construction and the change-detection policy.
//!
//! Two fingerprints are compared fast-path first: modification time,
//! then size, then — only when both sides carry a real checksum — the
//! checksum.  A zero checksum is the sentinel for "content not read"
//! (oversized or unreadable file) and never by itself signals a change.

use vstd::prelude::*;

use crate::checksum::{calculate_checksum, text_checksum};
use crate::types::FileMetadata;

verus! {

/// Files larger than this (1 MiB) have their content read skipped when
/// fingerprinting; modification time and size still catch changes.
pub const LARGE_FILE_THRESHOLD: u64 = 1048576;

/// The change-detection policy: time differs, else size differs, else
/// both checksums are real (non-zero) and differ.
pub open spec fn spec_metadata_changed(cached: FileMetadata, current: FileMetadata) -> bool {
    ||| cached.modified_time != current.modified_time
    ||| cached.size != current.size
    ||| (cached.checksum != 0 && current.checksum != 0 && cached.checksum != current.checksum)
}

/// Compare two fingerprints under the policy above, checking the cheap
/// fields first and short-circuiting on the first mismatch.
pub fn compare_metadata(cached: &FileMetadata, current: &FileMetadata) -> (r: bool)
    ensures
        r == spec_metadata_changed(*cached, *current),
{
    if cached.modified_time != current.modified_time {
        return true;
    }
    if cached.size != current.size {
        return true;
    }
    if cached.checksum != 0 && current.checksum != 0 && cached.checksum != current.checksum {
        return true;
    }
    false
}

/// Whether a file of this size should have its content read for a
/// checksum when fingerprinting.
pub fn should_read_content(size: u64) -> (r: bool)
    ensures
        r == (size <= LARGE_FILE_THRESHOLD),
{
    size <= LARGE_FILE_THRESHOLD
}

/// Build a fingerprint from probed facts.  `content` is the file's text
/// when it was read, and `None` when the read was skipped (oversized
/// file) or failed; in that case the checksum is the 0 sentinel.
pub fn make_fingerprint(modified_time: u64, size: u64, content: Option<&String>) -> (r:
    FileMetadata)
    ensures
        r.modified_time == modified_time,
        r.size == size,
        content is Some ==> r.checksum == text_checksum(content->Some_0@),
        content is None ==> r.checksum == 0,
{
    let checksum: u32 = match content {
        Some(text) => calculate_checksum(text.as_str()),
        None => 0,
    };
    FileMetadata { modified_time, checksum, size }
}

/// Probing an unchanged file twice yields fingerprints that compare as
/// unchanged: the policy never reports a change between a fingerprint
/// and itself.
pub proof fn lemma_identical_fingerprint_unchanged(m: FileMetadata)
    ensures
        !spec_metadata_changed(m, m),
{
}

/// A content change that alters the byte size is always detected, no
/// matter the checksums or the modification time.
pub proof fn lemma_size_change_detected(cached: FileMetadata, current: FileMetadata)
    requires
        cached.size != current.size,
    ensures
        spec_metadata_changed(cached, current),
{
}

/// A content change that keeps time and size but alters the checksum is
/// detected whenever both sides carry a real (non-sentinel) checksum.
pub proof fn lemma_checksum_change_detected(cached: FileMetadata, current: FileMetadata)
    requires
        cached.checksum != 0,
        current.checksum != 0,
        cached.checksum != current.checksum,
    ensures
        spec_metadata_changed(cached, current),
{
}

} // verus!
