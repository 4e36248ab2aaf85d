//! Content checksumming for change detection.

use vstd::prelude::*;
use vstd::string::*;
use vstd::utf8::encode_utf8;

verus! {

/// The CRC32 of a byte sequence, a pure function of the bytes alone.
pub uninterp spec fn crc32_of(bytes: Seq<u8>) -> u32;

/// The checksum of a text: the CRC32 of its UTF-8 encoding.
pub open spec fn text_checksum(s: Seq<char>) -> u32 {
    crc32_of(encode_utf8(s))
}

/// Relies on `crc32fast::hash`: the CRC32 checksum of a byte slice,
/// deterministic in the bytes alone.
#[verifier::external_body]
pub(crate) fn crc32(bytes: &[u8]) -> (r: u32)
    ensures
        r == crc32_of(bytes@),
{
    crc32fast::hash(bytes)
}

/// The checksum of a text's UTF-8 bytes, used for change detection only.
pub fn calculate_checksum(content: &str) -> (r: u32)
    ensures
        r == text_checksum(content@),
{
    crc32(content.as_bytes())
}

} // verus!
