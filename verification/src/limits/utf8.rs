//! UTF-8 well-formedness, as used for CBOR text strings.

use vstd::prelude::*;

verus! {

/// `true` when `b` is a UTF-8 continuation byte (`0x80..=0xBF`).
pub open spec fn is_continuation(b: u8) -> bool {
    0x80 <= b <= 0xbf
}

/// Length of the well-formed UTF-8 sequence that starts `s`, following the
/// table of well-formed byte sequences of the Unicode Standard (section 3.9,
/// table 3-7), or `0` when `s` does not start with one.
pub open spec fn utf8_sequence_len(s: Seq<u8>) -> int {
    if s.len() == 0 {
        0
    } else {
        let b0 = s[0];
        if b0 <= 0x7f {
            1
        } else if 0xc2 <= b0 <= 0xdf {
            if s.len() >= 2 && is_continuation(s[1]) { 2 } else { 0 }
        } else if b0 == 0xe0 {
            if s.len() >= 3 && 0xa0 <= s[1] <= 0xbf && is_continuation(s[2]) { 3 } else { 0 }
        } else if (0xe1 <= b0 <= 0xec) || (0xee <= b0 <= 0xef) {
            if s.len() >= 3 && is_continuation(s[1]) && is_continuation(s[2]) { 3 } else { 0 }
        } else if b0 == 0xed {
            if s.len() >= 3 && 0x80 <= s[1] <= 0x9f && is_continuation(s[2]) { 3 } else { 0 }
        } else if b0 == 0xf0 {
            if s.len() >= 4 && 0x90 <= s[1] <= 0xbf && is_continuation(s[2]) && is_continuation(
                s[3],
            ) {
                4
            } else {
                0
            }
        } else if 0xf1 <= b0 <= 0xf3 {
            if s.len() >= 4 && is_continuation(s[1]) && is_continuation(s[2]) && is_continuation(
                s[3],
            ) {
                4
            } else {
                0
            }
        } else if b0 == 0xf4 {
            if s.len() >= 4 && 0x80 <= s[1] <= 0x8f && is_continuation(s[2]) && is_continuation(
                s[3],
            ) {
                4
            } else {
                0
            }
        } else {
            0
        }
    }
}

/// `s` is a concatenation of well-formed UTF-8 sequences.
pub open spec fn is_valid_utf8(s: Seq<u8>) -> bool
    decreases s.len(),
{
    if s.len() == 0 {
        true
    } else {
        let n = utf8_sequence_len(s);
        if 0 < n <= s.len() {
            is_valid_utf8(s.skip(n))
        } else {
            false
        }
    }
}

/// Whether `bytes[start..end]` is valid UTF-8.
///
/// Calls `core::str::from_utf8`, which the standard library documents as
/// succeeding exactly on valid UTF-8; the contract states that definition.
#[verifier::external_body]
pub(crate) fn utf8_range_is_valid(bytes: &[u8], start: usize, end: usize) -> (r: bool)
    requires
        start <= end <= bytes@.len(),
    ensures
        r == is_valid_utf8(bytes@.subrange(start as int, end as int)),
{
    core::str::from_utf8(&bytes[start..end]).is_ok()
}

} // verus!
