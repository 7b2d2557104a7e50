//! Deterministic CBOR boundary validation.
//!
//! `validate_cbor_bytes` walks one encoded CBOR item without building a value
//! tree. It rejects indefinite lengths, non-shortest arguments, floating-point
//! and overlong simple values, invalid UTF-8 text, duplicate map keys,
//! unexpected tags, and inputs beyond fixed depth and collection limits. The
//! role of an item selects the additional COSE structure checks.

use vstd::prelude::*;

use super::key_set::{key_set_contents, key_set_insert, key_set_with_capacity};
use super::utf8::{is_valid_utf8, utf8_range_is_valid};
use crate::error::CoseError;

verus! {

pub const CBOR_INDEFINITE_ADDITIONAL_INFO: u8 = 31;
pub const CBOR_UINT_MAJOR: u8 = 0;
pub const CBOR_NEGATIVE_INT_MAJOR: u8 = 1;
pub const CBOR_BYTES_MAJOR: u8 = 2;
pub const CBOR_TEXT_MAJOR: u8 = 3;
pub const CBOR_ARRAY_MAJOR: u8 = 4;
pub const CBOR_MAP_MAJOR: u8 = 5;
pub const CBOR_TAG_MAJOR: u8 = 6;
pub const CBOR_SIMPLE_MAJOR: u8 = 7;
pub const CBOR_ONE_BYTE_LENGTH: u8 = 24;
pub const CBOR_TWO_BYTE_LENGTH: u8 = 25;
pub const CBOR_FOUR_BYTE_LENGTH: u8 = 26;
pub const CBOR_EIGHT_BYTE_LENGTH: u8 = 27;
/// Registered CBOR tag of COSE_Sign1.
pub const COSE_SIGN1_TAG: usize = 18;
/// Registered CBOR tag of COSE_Encrypt.
pub const COSE_ENCRYPT_TAG: usize = 96;
/// Deepest accepted nesting level (the top-level item has depth 0).
pub const MAX_CBOR_DEPTH: usize = 32;
/// Largest accepted number of array items or map entries.
pub const MAX_CBOR_COLLECTION_ITEMS: usize = 1_024;
/// Largest accepted number of parameters in a COSE header map.
pub const MAX_COSE_HEADER_PARAMETERS: usize = 32;

/// The structural position of an item, which selects COSE-specific checks.
#[derive(Clone, Copy, Debug, PartialEq, Eq, Structural)]
pub enum CborItemRole {
    /// Any CBOR item without COSE structure requirements.
    Normal,
    /// The top-level COSE_Key map: keys must be in core deterministic order.
    CoseKeyTop,
    /// The top-level COSE_Sign1 array, possibly tagged 18.
    CoseSign1Top,
    /// The COSE_Sign1 array inside tag 18.
    CoseSign1Body,
    /// The top-level COSE_Encrypt array, possibly tagged 96.
    CoseEncryptTop,
    /// The COSE_Encrypt array inside tag 96.
    CoseEncryptBody,
    /// The recipients array of COSE_Encrypt.
    CoseRecipientList,
    /// One COSE_Recipient array.
    CoseRecipient,
    /// The map encoded inside a protected-header byte string.
    ProtectedHeaderMap,
    /// An unprotected header map.
    HeaderMap,
}

// ---------------------------------------------------------------------------
// Specification
// ---------------------------------------------------------------------------

/// Big-endian unsigned value of `bytes[offset..offset + n]`.
pub open spec fn be_value(bytes: Seq<u8>, offset: int, n: int) -> int
    decreases n,
{
    if n <= 0 {
        0
    } else {
        be_value(bytes, offset, n - 1) * 256 + bytes[offset + n - 1]
    }
}

/// Decodes the argument of an item head whose first byte carried `additional`
/// and whose argument bytes start at `offset`: the argument value and the
/// offset just after it.
pub open spec fn spec_read_argument(bytes: Seq<u8>, offset: int, additional: u8) -> Result<
    (int, int),
    CoseError,
> {
    if additional < 24 {
        Ok((additional as int, offset))
    } else if additional == 24 {
        if offset < 0 || offset >= bytes.len() {
            Err(CoseError::Cbor)
        } else if bytes[offset] < 24 {
            Err(CoseError::NonCanonicalCbor)
        } else {
            Ok((bytes[offset] as int, offset + 1))
        }
    } else if additional == 25 || additional == 26 || additional == 27 {
        let n: int = if additional == 25 {
            2
        } else if additional == 26 {
            4
        } else {
            8
        };
        let shortest_bound: int = if additional == 25 {
            0xff
        } else if additional == 26 {
            0xffff
        } else {
            0xffff_ffff
        };
        if offset + n > usize::MAX {
            Err(CoseError::ResourceLimitExceeded)
        } else if offset < 0 || offset + n > bytes.len() {
            Err(CoseError::Cbor)
        } else if be_value(bytes, offset, n) <= shortest_bound {
            Err(CoseError::NonCanonicalCbor)
        } else if be_value(bytes, offset, n) > usize::MAX {
            Err(CoseError::ResourceLimitExceeded)
        } else {
            Ok((be_value(bytes, offset, n), offset + n))
        }
    } else {
        Err(CoseError::Cbor)
    }
}

/// Simple values: only one-byte simple values in preferred encoding are
/// accepted; floating-point encodings are rejected as non-canonical.
pub open spec fn spec_parse_simple(bytes: Seq<u8>, offset: int, additional: u8) -> Result<
    int,
    CoseError,
> {
    if additional < 24 {
        Ok(offset)
    } else if additional == 24 {
        if offset < 0 || offset >= bytes.len() {
            Err(CoseError::Cbor)
        } else if bytes[offset] < 24 {
            Err(CoseError::NonCanonicalCbor)
        } else {
            Ok(offset + 1)
        }
    } else if additional == 25 || additional == 26 || additional == 27 {
        Err(CoseError::NonCanonicalCbor)
    } else {
        Err(CoseError::Cbor)
    }
}

/// Collection-length checks for an item of `major` type in `role`.
pub open spec fn spec_validate_collection_length(role: CborItemRole, major: u8, len: int) -> Result<
    (),
    CoseError,
> {
    if len > MAX_CBOR_COLLECTION_ITEMS {
        Err(CoseError::ResourceLimitExceeded)
    } else if (role == CborItemRole::ProtectedHeaderMap || role == CborItemRole::HeaderMap)
        && major == CBOR_MAP_MAJOR && len > MAX_COSE_HEADER_PARAMETERS {
        Err(CoseError::ResourceLimitExceeded)
    } else if (role == CborItemRole::CoseSign1Top || role == CborItemRole::CoseSign1Body) && (
    major != CBOR_ARRAY_MAJOR || len != 4) {
        Err(CoseError::InvalidFormat)
    } else if (role == CborItemRole::CoseEncryptTop || role == CborItemRole::CoseEncryptBody) && (
    major != CBOR_ARRAY_MAJOR || len != 4) {
        Err(CoseError::InvalidFormat)
    } else if role == CborItemRole::CoseRecipientList && (major != CBOR_ARRAY_MAJOR || len != 1) {
        Err(CoseError::InvalidRecipient)
    } else if role == CborItemRole::CoseRecipient && (major != CBOR_ARRAY_MAJOR || len != 3) {
        Err(CoseError::InvalidRecipient)
    } else {
        Ok(())
    }
}

/// The role of the item inside a tag: only the registered COSE_Sign1 and
/// COSE_Encrypt root tags are accepted, and only at their top-level roles.
pub open spec fn spec_tag_child_role(role: CborItemRole, tag: int) -> Result<CborItemRole, CoseError> {
    if role == CborItemRole::CoseSign1Top && tag == COSE_SIGN1_TAG {
        Ok(CborItemRole::CoseSign1Body)
    } else if role == CborItemRole::CoseEncryptTop && tag == COSE_ENCRYPT_TAG {
        Ok(CborItemRole::CoseEncryptBody)
    } else {
        Err(CoseError::UnexpectedCborTag)
    }
}

/// Arrays in these roles start with a protected-header byte string.
pub open spec fn spec_protected_header_first_item(role: CborItemRole) -> bool {
    role == CborItemRole::CoseSign1Top || role == CborItemRole::CoseSign1Body || role
        == CborItemRole::CoseEncryptTop || role == CborItemRole::CoseEncryptBody || role
        == CborItemRole::CoseRecipient
}

/// The role of the array item at `index` inside an array in `role`.
pub open spec fn spec_array_child_role(role: CborItemRole, index: int) -> CborItemRole {
    if role == CborItemRole::CoseKeyTop {
        CborItemRole::Normal
    } else if (role == CborItemRole::CoseEncryptTop || role == CborItemRole::CoseEncryptBody)
        && index == 3 {
        CborItemRole::CoseRecipientList
    } else if (role == CborItemRole::CoseSign1Top || role == CborItemRole::CoseSign1Body || role
        == CborItemRole::CoseEncryptTop || role == CborItemRole::CoseEncryptBody || role
        == CborItemRole::CoseRecipient) && index == 1 {
        CborItemRole::HeaderMap
    } else if role == CborItemRole::CoseRecipientList {
        CborItemRole::CoseRecipient
    } else {
        CborItemRole::Normal
    }
}

/// Strict lexicographic order of byte strings (RFC 8949 core deterministic
/// map-key order compares encoded keys this way).
pub open spec fn bytes_lex_less(a: Seq<u8>, b: Seq<u8>) -> bool
    decreases a.len(),
{
    if a.len() == 0 {
        b.len() > 0
    } else if b.len() == 0 {
        false
    } else if a[0] < b[0] {
        true
    } else if a[0] > b[0] {
        false
    } else {
        bytes_lex_less(a.drop_first(), b.drop_first())
    }
}

/// Whole-buffer validation: `bytes` must hold exactly one valid item in
/// `role` and be non-empty and at most `max_len` bytes long.
pub open spec fn spec_validate_cbor_bytes(bytes: Seq<u8>, max_len: int, role: CborItemRole) -> Result<
    (),
    CoseError,
>
    decreases bytes.len(), MAX_CBOR_DEPTH + 3, 0int, 0int,
{
    if bytes.len() == 0 {
        Err(CoseError::Cbor)
    } else if bytes.len() > max_len {
        Err(CoseError::ResourceLimitExceeded)
    } else {
        match spec_parse_item(bytes, 0, 0, role) {
            Err(e) => Err(e),
            Ok(end) => if end == bytes.len() {
                Ok(())
            } else {
                Err(CoseError::Cbor)
            },
        }
    }
}

/// A protected header byte string: empty, or one valid header map.
pub open spec fn spec_validate_protected_header_bytes(bytes: Seq<u8>) -> Result<(), CoseError>
    decreases bytes.len(), MAX_CBOR_DEPTH + 4, 0int, 0int,
{
    if bytes.len() == 0 {
        Ok(())
    } else {
        spec_validate_cbor_bytes(bytes, bytes.len() as int, CborItemRole::ProtectedHeaderMap)
    }
}

/// If the item at `offset` is a byte string, validates it as a protected
/// header and yields the offset after it; otherwise yields `None`.
pub open spec fn spec_parse_protected_header_bstr(bytes: Seq<u8>, offset: int, depth: int) -> Result<
    Option<int>,
    CoseError,
>
    decreases bytes.len(), MAX_CBOR_DEPTH + 1 - depth, 3int, 0int,
{
    if depth > MAX_CBOR_DEPTH {
        Err(CoseError::ResourceLimitExceeded)
    } else if offset < 0 || offset >= bytes.len() {
        Err(CoseError::Cbor)
    } else {
        let first = bytes[offset];
        let major = first / 32;
        let additional = first % 32;
        if major != CBOR_BYTES_MAJOR {
            Ok(None)
        } else if additional == CBOR_INDEFINITE_ADDITIONAL_INFO {
            Err(CoseError::NonCanonicalCbor)
        } else {
            match spec_read_argument(bytes, offset + 1, additional) {
                Err(e) => Err(e),
                Ok((len, data_offset)) => {
                    if data_offset + len > bytes.len() || data_offset < 1 {
                        Err(CoseError::Cbor)
                    } else {
                        match spec_validate_protected_header_bytes(
                            bytes.subrange(data_offset, data_offset + len),
                        ) {
                            Err(e) => Err(e),
                            Ok(()) => Ok(Some(data_offset + len)),
                        }
                    }
                },
            }
        }
    }
}

/// One CBOR item at `offset` with nesting `depth` in `role`: the offset just
/// after the item.
pub open spec fn spec_parse_item(bytes: Seq<u8>, offset: int, depth: int, role: CborItemRole) -> Result<
    int,
    CoseError,
>
    decreases bytes.len(), MAX_CBOR_DEPTH + 1 - depth, 2int, 0int,
{
    if depth > MAX_CBOR_DEPTH {
        Err(CoseError::ResourceLimitExceeded)
    } else if depth < 0 || offset < 0 || offset >= bytes.len() {
        Err(CoseError::Cbor)
    } else {
        let first = bytes[offset];
        let major = first / 32;
        let additional = first % 32;
        let value_start = offset + 1;
        if additional == CBOR_INDEFINITE_ADDITIONAL_INFO {
            if major == CBOR_BYTES_MAJOR || major == CBOR_TEXT_MAJOR || major == CBOR_ARRAY_MAJOR
                || major == CBOR_MAP_MAJOR {
                Err(CoseError::NonCanonicalCbor)
            } else {
                Err(CoseError::Cbor)
            }
        } else if role == CborItemRole::ProtectedHeaderMap && major != CBOR_MAP_MAJOR {
            Err(CoseError::InvalidFormat)
        } else if (role == CborItemRole::CoseEncryptBody || role == CborItemRole::CoseRecipientList
            || role == CborItemRole::CoseRecipient) && major != CBOR_ARRAY_MAJOR {
            Err(CoseError::InvalidFormat)
        } else if role == CborItemRole::CoseEncryptTop && major != CBOR_ARRAY_MAJOR && major
            != CBOR_TAG_MAJOR {
            Err(CoseError::InvalidFormat)
        } else if major == CBOR_UINT_MAJOR || major == CBOR_NEGATIVE_INT_MAJOR {
            match spec_read_argument(bytes, value_start, additional) {
                Err(e) => Err(e),
                Ok((_, next)) => Ok(next),
            }
        } else if major == CBOR_BYTES_MAJOR || major == CBOR_TEXT_MAJOR {
            match spec_read_argument(bytes, value_start, additional) {
                Err(e) => Err(e),
                Ok((len, data_offset)) => {
                    if data_offset + len > bytes.len() {
                        Err(CoseError::Cbor)
                    } else if major == CBOR_TEXT_MAJOR && !is_valid_utf8(
                        bytes.subrange(data_offset, data_offset + len),
                    ) {
                        Err(CoseError::Cbor)
                    } else {
                        Ok(data_offset + len)
                    }
                },
            }
        } else if major == CBOR_ARRAY_MAJOR || major == CBOR_MAP_MAJOR {
            match spec_read_argument(bytes, value_start, additional) {
                Err(e) => Err(e),
                Ok((len, next)) => match spec_validate_collection_length(role, major, len) {
                    Err(e) => Err(e),
                    Ok(()) => {
                        if next > bytes.len() {
                            Err(CoseError::Cbor)
                        } else if major == CBOR_ARRAY_MAJOR {
                            if len > bytes.len() - next {
                                Err(CoseError::Cbor)
                            } else {
                                spec_parse_array(bytes, next, depth, role, len, 0)
                            }
                        } else {
                            if len > (bytes.len() - next) / 2 {
                                Err(CoseError::Cbor)
                            } else {
                                spec_parse_map(bytes, next, depth, role, len, 0, Seq::empty())
                            }
                        }
                    },
                },
            }
        } else if major == CBOR_TAG_MAJOR {
            match spec_read_argument(bytes, value_start, additional) {
                Err(e) => Err(e),
                Ok((tag, next)) => match spec_tag_child_role(role, tag) {
                    Err(e) => Err(e),
                    Ok(child_role) => spec_parse_item(bytes, next, depth + 1, child_role),
                },
            }
        } else {
            spec_parse_simple(bytes, value_start, additional)
        }
    }
}

/// Array items `index..len` of an array in `role`, the first at `offset`.
pub open spec fn spec_parse_array(
    bytes: Seq<u8>,
    offset: int,
    depth: int,
    role: CborItemRole,
    len: int,
    index: int,
) -> Result<int, CoseError>
    decreases bytes.len(), MAX_CBOR_DEPTH + 1 - depth, 1int, len - index,
{
    if depth > MAX_CBOR_DEPTH || depth < 0 || index >= len {
        if index >= len {
            Ok(offset)
        } else {
            Err(CoseError::ResourceLimitExceeded)
        }
    } else {
        let child_depth = depth + 1;
        if spec_protected_header_first_item(role) && index == 0 {
            match spec_parse_protected_header_bstr(bytes, offset, child_depth) {
                Err(e) => Err(e),
                Ok(Some(end)) => spec_parse_array(bytes, end, depth, role, len, index + 1),
                Ok(None) => match spec_parse_item(
                    bytes,
                    offset,
                    child_depth,
                    spec_array_child_role(role, index),
                ) {
                    Err(e) => Err(e),
                    Ok(next) => spec_parse_array(bytes, next, depth, role, len, index + 1),
                },
            }
        } else {
            match spec_parse_item(bytes, offset, child_depth, spec_array_child_role(role, index)) {
                Err(e) => Err(e),
                Ok(next) => spec_parse_array(bytes, next, depth, role, len, index + 1),
            }
        }
    }
}

/// Map entries `index..len` of a map in `role`, the first at `offset`;
/// `keys` are the encoded keys of the entries before `index`.
pub open spec fn spec_parse_map(
    bytes: Seq<u8>,
    offset: int,
    depth: int,
    role: CborItemRole,
    len: int,
    index: int,
    keys: Seq<Seq<u8>>,
) -> Result<int, CoseError>
    decreases bytes.len(), MAX_CBOR_DEPTH + 1 - depth, 1int, len - index,
{
    if depth > MAX_CBOR_DEPTH || depth < 0 || index >= len {
        if index >= len {
            Ok(offset)
        } else {
            Err(CoseError::ResourceLimitExceeded)
        }
    } else {
        let child_depth = depth + 1;
        match spec_parse_item(bytes, offset, child_depth, CborItemRole::Normal) {
            Err(e) => Err(e),
            Ok(key_end) => {
                let key = bytes.subrange(offset, key_end);
                if keys.contains(key) {
                    Err(CoseError::DuplicateMapLabel)
                } else if role == CborItemRole::CoseKeyTop && keys.len() > 0 && !bytes_lex_less(
                    keys.last(),
                    key,
                ) {
                    Err(CoseError::NonCanonicalCbor)
                } else {
                    match spec_parse_item(bytes, key_end, child_depth, CborItemRole::Normal) {
                        Err(e) => Err(e),
                        Ok(next) => spec_parse_map(
                            bytes,
                            next,
                            depth,
                            role,
                            len,
                            index + 1,
                            keys.push(key),
                        ),
                    }
                }
            },
        }
    }
}


// ---------------------------------------------------------------------------
// Implementation
// ---------------------------------------------------------------------------

/// An offset result viewed with a mathematical offset.
pub open spec fn lift_offset(r: Result<usize, CoseError>) -> Result<int, CoseError> {
    match r {
        Ok(v) => Ok(v as int),
        Err(e) => Err(e),
    }
}

/// An optional-offset result viewed with a mathematical offset.
pub open spec fn lift_optional_offset(r: Result<Option<usize>, CoseError>) -> Result<
    Option<int>,
    CoseError,
> {
    match r {
        Ok(Some(v)) => Ok(Some(v as int)),
        Ok(None) => Ok(None),
        Err(e) => Err(e),
    }
}

/// Powers of 256.
pub open spec fn pow256(n: int) -> int
    decreases n,
{
    if n <= 0 {
        1
    } else {
        256 * pow256(n - 1)
    }
}

proof fn lemma_be_value_bound(bytes: Seq<u8>, offset: int, n: int)
    requires
        0 <= n,
    ensures
        0 <= be_value(bytes, offset, n) < pow256(n),
    decreases n,
{
    if n > 0 {
        lemma_be_value_bound(bytes, offset, n - 1);
    }
}

proof fn lemma_pow256_monotone(a: int, b: int)
    requires
        0 <= a <= b,
    ensures
        pow256(a) <= pow256(b),
    decreases b - a,
{
    if a < b {
        lemma_pow256_monotone(a, b - 1);
        assert(pow256(b - 1) >= 1) by {
            lemma_pow256_positive(b - 1);
        }
    }
}

proof fn lemma_pow256_positive(a: int)
    ensures
        pow256(a) >= 1,
    decreases a,
{
    if a > 0 {
        lemma_pow256_positive(a - 1);
    }
}

/// Reads the big-endian unsigned integer in `bytes[offset..offset + n]`.
fn read_be(bytes: &[u8], offset: usize, n: usize) -> (r: u64)
    requires
        n <= 8,
        offset + n <= bytes@.len(),
    ensures
        r as int == be_value(bytes@, offset as int, n as int),
{
    let mut value: u64 = 0;
    let mut i: usize = 0;
    let total_len = bytes.len();
    proof {
        reveal_with_fuel(pow256, 9);
    }
    while i < n
        invariant
            i <= n <= 8,
            total_len == bytes@.len(),
            offset + n <= bytes@.len(),
            value as int == be_value(bytes@, offset as int, i as int),
        decreases n - i,
    {
        proof {
            lemma_be_value_bound(bytes@, offset as int, i as int);
            lemma_pow256_monotone(i as int, 7);
            reveal_with_fuel(pow256, 8);
            assert(pow256(7) == 0x100_0000_0000_0000);
        }
        value = value * 256 + bytes[offset + i] as u64;
        i = i + 1;
    }
    value
}

/// Decodes an item argument; see [`spec_read_argument`].
fn read_argument(bytes: &[u8], offset: usize, additional: u8) -> (r: Result<(usize, usize), CoseError>)
    ensures
        match r {
            Ok((value, next)) => {
                &&& spec_read_argument(bytes@, offset as int, additional) == Ok::<(int, int), CoseError>((value as int, next as int))
                &&& offset <= next
                &&& (next <= bytes@.len() || next == offset)
            },
            Err(e) => spec_read_argument(bytes@, offset as int, additional) == Err::<(int, int), CoseError>(e),
        },
{
    if additional < CBOR_ONE_BYTE_LENGTH {
        Ok((additional as usize, offset))
    } else if additional == CBOR_ONE_BYTE_LENGTH {
        if offset >= bytes.len() {
            return Err(CoseError::Cbor);
        }
        let value = bytes[offset];
        if value < CBOR_ONE_BYTE_LENGTH {
            return Err(CoseError::NonCanonicalCbor);
        }
        Ok((value as usize, offset + 1))
    } else if additional == CBOR_TWO_BYTE_LENGTH || additional == CBOR_FOUR_BYTE_LENGTH
        || additional == CBOR_EIGHT_BYTE_LENGTH {
        let n: usize = if additional == CBOR_TWO_BYTE_LENGTH {
            2
        } else if additional == CBOR_FOUR_BYTE_LENGTH {
            4
        } else {
            8
        };
        let shortest_bound: u64 = if additional == CBOR_TWO_BYTE_LENGTH {
            0xff
        } else if additional == CBOR_FOUR_BYTE_LENGTH {
            0xffff
        } else {
            0xffff_ffff
        };
        if offset > usize::MAX - n {
            return Err(CoseError::ResourceLimitExceeded);
        }
        if offset + n > bytes.len() {
            return Err(CoseError::Cbor);
        }
        let value = read_be(bytes, offset, n);
        if value <= shortest_bound {
            return Err(CoseError::NonCanonicalCbor);
        }
        if value > usize::MAX as u64 {
            return Err(CoseError::ResourceLimitExceeded);
        }
        Ok((value as usize, offset + n))
    } else {
        Err(CoseError::Cbor)
    }
}

/// Validates a simple value; see [`spec_parse_simple`].
fn parse_simple(bytes: &[u8], offset: usize, additional: u8) -> (r: Result<usize, CoseError>)
    ensures
        lift_offset(r) == spec_parse_simple(bytes@, offset as int, additional),
        r matches Ok(next) ==> offset <= next && (next <= bytes@.len() || next == offset),
{
    if additional < CBOR_ONE_BYTE_LENGTH {
        Ok(offset)
    } else if additional == CBOR_ONE_BYTE_LENGTH {
        if offset >= bytes.len() {
            return Err(CoseError::Cbor);
        }
        if bytes[offset] < CBOR_ONE_BYTE_LENGTH {
            return Err(CoseError::NonCanonicalCbor);
        }
        Ok(offset + 1)
    } else if additional == CBOR_TWO_BYTE_LENGTH || additional == CBOR_FOUR_BYTE_LENGTH
        || additional == CBOR_EIGHT_BYTE_LENGTH {
        // COSE profiles do not require floating-point values; rejecting them
        // avoids accepting encodings without preferred-width and canonical-NaN
        // checks.
        Err(CoseError::NonCanonicalCbor)
    } else {
        Err(CoseError::Cbor)
    }
}

fn validate_collection_length(role: CborItemRole, major: u8, len: usize) -> (r: Result<(), CoseError>)
    ensures
        r == spec_validate_collection_length(role, major, len as int),
{
    if len > MAX_CBOR_COLLECTION_ITEMS {
        return Err(CoseError::ResourceLimitExceeded);
    }
    if (role == CborItemRole::ProtectedHeaderMap || role == CborItemRole::HeaderMap) && major
        == CBOR_MAP_MAJOR && len > MAX_COSE_HEADER_PARAMETERS {
        return Err(CoseError::ResourceLimitExceeded);
    }
    if (role == CborItemRole::CoseSign1Top || role == CborItemRole::CoseSign1Body) && (major
        != CBOR_ARRAY_MAJOR || len != 4) {
        return Err(CoseError::InvalidFormat);
    }
    if (role == CborItemRole::CoseEncryptTop || role == CborItemRole::CoseEncryptBody) && (major
        != CBOR_ARRAY_MAJOR || len != 4) {
        return Err(CoseError::InvalidFormat);
    }
    if role == CborItemRole::CoseRecipientList && (major != CBOR_ARRAY_MAJOR || len != 1) {
        return Err(CoseError::InvalidRecipient);
    }
    if role == CborItemRole::CoseRecipient && (major != CBOR_ARRAY_MAJOR || len != 3) {
        return Err(CoseError::InvalidRecipient);
    }
    Ok(())
}

fn tag_child_role(role: CborItemRole, tag: usize) -> (r: Result<CborItemRole, CoseError>)
    ensures
        r == spec_tag_child_role(role, tag as int),
{
    if role == CborItemRole::CoseSign1Top && tag == COSE_SIGN1_TAG {
        Ok(CborItemRole::CoseSign1Body)
    } else if role == CborItemRole::CoseEncryptTop && tag == COSE_ENCRYPT_TAG {
        Ok(CborItemRole::CoseEncryptBody)
    } else {
        Err(CoseError::UnexpectedCborTag)
    }
}

fn protected_header_first_item(role: CborItemRole) -> (r: bool)
    ensures
        r == spec_protected_header_first_item(role),
{
    match role {
        CborItemRole::CoseSign1Top
        | CborItemRole::CoseSign1Body
        | CborItemRole::CoseEncryptTop
        | CborItemRole::CoseEncryptBody
        | CborItemRole::CoseRecipient => true,
        _ => false,
    }
}

fn array_child_role(role: CborItemRole, index: usize) -> (r: CborItemRole)
    ensures
        r == spec_array_child_role(role, index as int),
{
    let top_or_body = role == CborItemRole::CoseEncryptTop || role
        == CborItemRole::CoseEncryptBody;
    let header_bearing = role == CborItemRole::CoseSign1Top || role == CborItemRole::CoseSign1Body
        || top_or_body || role == CborItemRole::CoseRecipient;
    if role == CborItemRole::CoseKeyTop {
        CborItemRole::Normal
    } else if top_or_body && index == 3 {
        CborItemRole::CoseRecipientList
    } else if header_bearing && index == 1 {
        CborItemRole::HeaderMap
    } else if role == CborItemRole::CoseRecipientList {
        CborItemRole::CoseRecipient
    } else {
        CborItemRole::Normal
    }
}

proof fn lemma_lex_less_skip(a: Seq<u8>, b: Seq<u8>, i: int)
    requires
        0 <= i < a.len(),
        i < b.len(),
        a[i] == b[i],
    ensures
        bytes_lex_less(a.skip(i), b.skip(i)) == bytes_lex_less(a.skip(i + 1), b.skip(i + 1)),
{
    assert(a.skip(i).drop_first() =~= a.skip(i + 1));
    assert(b.skip(i).drop_first() =~= b.skip(i + 1));
}

/// Whether `bytes[a_start..a_end]` sorts strictly before `bytes[b_start..b_end]`.
fn range_lex_less(bytes: &[u8], a_start: usize, a_end: usize, b_start: usize, b_end: usize) -> (r: bool)
    requires
        a_start <= a_end <= bytes@.len(),
        b_start <= b_end <= bytes@.len(),
    ensures
        r == bytes_lex_less(
            bytes@.subrange(a_start as int, a_end as int),
            bytes@.subrange(b_start as int, b_end as int),
        ),
{
    let ghost a = bytes@.subrange(a_start as int, a_end as int);
    let ghost b = bytes@.subrange(b_start as int, b_end as int);
    let a_len = a_end - a_start;
    let b_len = b_end - b_start;
    let mut i: usize = 0;
    assert(a.skip(0) =~= a);
    assert(b.skip(0) =~= b);
    while i < a_len && i < b_len
        invariant
            a_len == a_end - a_start,
            b_len == b_end - b_start,
            a_start <= a_end <= bytes@.len(),
            b_start <= b_end <= bytes@.len(),
            a == bytes@.subrange(a_start as int, a_end as int),
            b == bytes@.subrange(b_start as int, b_end as int),
            i <= a_len,
            i <= b_len,
            bytes_lex_less(a, b) == bytes_lex_less(a.skip(i as int), b.skip(i as int)),
        decreases a_len - i,
    {
        let x = bytes[a_start + i];
        let y = bytes[b_start + i];
        if x < y {
            assert(a.skip(i as int)[0] == x);
            assert(b.skip(i as int)[0] == y);
            return true;
        }
        if x > y {
            assert(a.skip(i as int)[0] == x);
            assert(b.skip(i as int)[0] == y);
            return false;
        }
        proof {
            lemma_lex_less_skip(a, b, i as int);
        }
        i = i + 1;
    }
    assert(a.skip(i as int).len() == a_len - i);
    assert(b.skip(i as int).len() == b_len - i);
    i < b_len
}

/// Validates one item; see [`spec_parse_item`]. Returns the offset after it.
pub fn parse_cbor_item(bytes: &[u8], offset: usize, depth: usize, role: CborItemRole) -> (r: Result<
    usize,
    CoseError,
>)
    ensures
        lift_offset(r) == spec_parse_item(bytes@, offset as int, depth as int, role),
        r matches Ok(end) ==> offset < end <= bytes@.len(),
    decreases bytes@.len(), MAX_CBOR_DEPTH + 1 - depth, 2int, 0int,
{
    if depth > MAX_CBOR_DEPTH {
        return Err(CoseError::ResourceLimitExceeded);
    }
    if offset >= bytes.len() {
        return Err(CoseError::Cbor);
    }
    let first = bytes[offset];
    let major = first / 32;
    let additional = first % 32;
    let value_start = offset + 1;

    if additional == CBOR_INDEFINITE_ADDITIONAL_INFO {
        if major == CBOR_BYTES_MAJOR || major == CBOR_TEXT_MAJOR || major == CBOR_ARRAY_MAJOR
            || major == CBOR_MAP_MAJOR {
            return Err(CoseError::NonCanonicalCbor);
        }
        return Err(CoseError::Cbor);
    }
    if role == CborItemRole::ProtectedHeaderMap && major != CBOR_MAP_MAJOR {
        return Err(CoseError::InvalidFormat);
    }
    if (role == CborItemRole::CoseEncryptBody || role == CborItemRole::CoseRecipientList || role
        == CborItemRole::CoseRecipient) && major != CBOR_ARRAY_MAJOR {
        return Err(CoseError::InvalidFormat);
    }
    if role == CborItemRole::CoseEncryptTop && major != CBOR_ARRAY_MAJOR && major
        != CBOR_TAG_MAJOR {
        return Err(CoseError::InvalidFormat);
    }

    if major == CBOR_UINT_MAJOR || major == CBOR_NEGATIVE_INT_MAJOR {
        let (_, next) = read_argument(bytes, value_start, additional)?;
        Ok(next)
    } else if major == CBOR_BYTES_MAJOR || major == CBOR_TEXT_MAJOR {
        let (len, data_offset) = read_argument(bytes, value_start, additional)?;
        if len > bytes.len() - data_offset {
            return Err(CoseError::Cbor);
        }
        let end = data_offset + len;
        if major == CBOR_TEXT_MAJOR && !utf8_range_is_valid(bytes, data_offset, end) {
            return Err(CoseError::Cbor);
        }
        Ok(end)
    } else if major == CBOR_ARRAY_MAJOR || major == CBOR_MAP_MAJOR {
        let (len, next) = read_argument(bytes, value_start, additional)?;
        validate_collection_length(role, major, len)?;
        let remaining = bytes.len() - next;
        if major == CBOR_ARRAY_MAJOR {
            if len > remaining {
                return Err(CoseError::Cbor);
            }
            parse_array_items(bytes, next, depth, role, len)
        } else {
            if len > remaining / 2 {
                return Err(CoseError::Cbor);
            }
            parse_map_entries(bytes, next, depth, role, len)
        }
    } else if major == CBOR_TAG_MAJOR {
        let (tag, next) = read_argument(bytes, value_start, additional)?;
        let child_role = tag_child_role(role, tag)?;
        parse_cbor_item(bytes, next, depth + 1, child_role)
    } else {
        parse_simple(bytes, value_start, additional)
    }
}

/// Validates `len` array items starting at `offset`; see [`spec_parse_array`].
fn parse_array_items(
    bytes: &[u8],
    offset: usize,
    depth: usize,
    role: CborItemRole,
    len: usize,
) -> (r: Result<usize, CoseError>)
    requires
        depth <= MAX_CBOR_DEPTH,
        offset <= bytes@.len(),
    ensures
        lift_offset(r) == spec_parse_array(bytes@, offset as int, depth as int, role, len as int, 0),
        r matches Ok(end) ==> offset <= end <= bytes@.len(),
    decreases bytes@.len(), MAX_CBOR_DEPTH + 1 - depth, 1int, 0int,
{
    let ghost total = spec_parse_array(bytes@, offset as int, depth as int, role, len as int, 0);
    let mut next_offset = offset;
    let mut index: usize = 0;
    while index < len
        invariant
            depth <= MAX_CBOR_DEPTH,
            index <= len,
            offset <= next_offset <= bytes@.len(),
            total == spec_parse_array(bytes@, offset as int, depth as int, role, len as int, 0),
            spec_parse_array(bytes@, next_offset as int, depth as int, role, len as int, index as int)
                == total,
        decreases len - index,
    {
        let child_depth = depth + 1;
        if protected_header_first_item(role) && index == 0 {
            match parse_protected_header_bstr(bytes, next_offset, child_depth) {
                Err(e) => {
                    return Err(e);
                },
                Ok(Some(end)) => {
                    next_offset = end;
                    index = index + 1;
                    continue ;
                },
                Ok(None) => {},
            }
        }
        let child_role = array_child_role(role, index);
        match parse_cbor_item(bytes, next_offset, child_depth, child_role) {
            Err(e) => {
                assert(spec_parse_item(bytes@, next_offset as int, child_depth as int, child_role) == Err::<int, CoseError>(e));
                assert(spec_parse_array(bytes@, next_offset as int, depth as int, role, len as int, index as int) == Err::<int, CoseError>(e));
                return Err(e);
            },
            Ok(end) => {
                next_offset = end;
            },
        }
        index = index + 1;
    }
    Ok(next_offset)
}

/// Validates `len` map entries starting at `offset`; see [`spec_parse_map`].
fn parse_map_entries(
    bytes: &[u8],
    offset: usize,
    depth: usize,
    role: CborItemRole,
    len: usize,
) -> (r: Result<usize, CoseError>)
    requires
        depth <= MAX_CBOR_DEPTH,
        offset <= bytes@.len(),
        len <= MAX_CBOR_COLLECTION_ITEMS,
    ensures
        lift_offset(r) == spec_parse_map(
            bytes@,
            offset as int,
            depth as int,
            role,
            len as int,
            0,
            Seq::empty(),
        ),
        r matches Ok(end) ==> offset <= end <= bytes@.len(),
    decreases bytes@.len(), MAX_CBOR_DEPTH + 1 - depth, 1int, 0int,
{
    let ghost total = spec_parse_map(
        bytes@,
        offset as int,
        depth as int,
        role,
        len as int,
        0,
        Seq::empty(),
    );
    let mut seen = key_set_with_capacity(len);
    let mut previous_key: (usize, usize) = (0, 0);
    let ghost mut keys: Seq<Seq<u8>> = Seq::empty();
    let mut next_offset = offset;
    let mut index: usize = 0;
    while index < len
        invariant
            depth <= MAX_CBOR_DEPTH,
            index <= len,
            offset <= next_offset <= bytes@.len(),
            keys.len() == index,
            total == spec_parse_map(
                bytes@,
                offset as int,
                depth as int,
                role,
                len as int,
                0,
                Seq::empty(),
            ),
            forall|x: Seq<u8>| #[trigger] key_set_contents(seen).contains(x) <==> keys.contains(x),
            index > 0 ==> {
                &&& previous_key.0 <= previous_key.1 <= bytes@.len()
                &&& keys.last() == bytes@.subrange(previous_key.0 as int, previous_key.1 as int)
            },
            spec_parse_map(
                bytes@,
                next_offset as int,
                depth as int,
                role,
                len as int,
                index as int,
                keys,
            ) == total,
        decreases len - index,
    {
        let child_depth = depth + 1;
        let key_start = next_offset;
        let key_end = match parse_cbor_item(bytes, key_start, child_depth, CborItemRole::Normal) {
            Err(e) => {
                assert(spec_parse_map(bytes@, next_offset as int, depth as int, role, len as int, index as int, keys) == Err::<int, CoseError>(e));
                return Err(e);
            },
            Ok(end) => end,
        };
        let ghost key = bytes@.subrange(key_start as int, key_end as int);
        let key_bytes = vstd::slice::slice_to_vec(vstd::slice::slice_subrange(bytes, key_start, key_end));
        assert(key_bytes@ == key);
        let ghost before = key_set_contents(seen);
        if !key_set_insert(&mut seen, key_bytes) {
            assert(before.contains(key));
            assert(keys.contains(key));
            assert(spec_parse_map(
                bytes@,
                next_offset as int,
                depth as int,
                role,
                len as int,
                index as int,
                keys,
            ) == Err::<int, CoseError>(CoseError::DuplicateMapLabel));
            return Err(CoseError::DuplicateMapLabel);
        }
        assert(!keys.contains(key));

        if role == CborItemRole::CoseKeyTop && index > 0 {
            let (s, e) = previous_key;
            if !range_lex_less(bytes, s, e, key_start, key_end) {
                return Err(CoseError::NonCanonicalCbor);
            }
        }

        let value_end = match parse_cbor_item(bytes, key_end, child_depth, CborItemRole::Normal) {
            Err(e) => {
                assert(spec_parse_map(bytes@, next_offset as int, depth as int, role, len as int, index as int, keys) == Err::<int, CoseError>(e));
                return Err(e);
            },
            Ok(end) => end,
        };
        previous_key = (key_start, key_end);
        proof {
            assert forall|x: Seq<u8>| #[trigger] key_set_contents(seen).contains(x) <==> keys.push(key).contains(x) by {
                if keys.push(key).contains(x) && x != key {
                    let j = choose|j: int| 0 <= j < keys.push(key).len() && keys.push(key)[j] == x;
                    assert(keys[j] == x);
                }
                if keys.contains(x) {
                    let j = choose|j: int| 0 <= j < keys.len() && keys[j] == x;
                    assert(keys.push(key)[j] == x);
                }
                assert(keys.push(key)[keys.len() as int] == key);
            }
            keys = keys.push(key);
        }
        next_offset = value_end;
        index = index + 1;
    }
    Ok(next_offset)
}

/// Validates a protected-header byte string if the item at `offset` is one;
/// see [`spec_parse_protected_header_bstr`].
fn parse_protected_header_bstr(bytes: &[u8], offset: usize, depth: usize) -> (r: Result<
    Option<usize>,
    CoseError,
>)
    ensures
        lift_optional_offset(r) == spec_parse_protected_header_bstr(
            bytes@,
            offset as int,
            depth as int,
        ),
        r matches Ok(Some(end)) ==> offset < end <= bytes@.len(),
    decreases bytes@.len(), MAX_CBOR_DEPTH + 1 - depth, 3int, 0int,
{
    if depth > MAX_CBOR_DEPTH {
        return Err(CoseError::ResourceLimitExceeded);
    }
    if offset >= bytes.len() {
        return Err(CoseError::Cbor);
    }
    let first = bytes[offset];
    let major = first / 32;
    if major != CBOR_BYTES_MAJOR {
        return Ok(None);
    }
    let additional = first % 32;
    if additional == CBOR_INDEFINITE_ADDITIONAL_INFO {
        return Err(CoseError::NonCanonicalCbor);
    }
    let (len, data_offset) = read_argument(bytes, offset + 1, additional)?;
    if len > bytes.len() - data_offset {
        return Err(CoseError::Cbor);
    }
    let end = data_offset + len;
    let protected = &bytes[data_offset..end];
    validate_protected_header_bytes(protected)?;
    Ok(Some(end))
}

/// Validates that `bytes` holds exactly one item in `role`, is non-empty and
/// at most `max_len` bytes long.
pub fn validate_cbor_bytes(bytes: &[u8], max_len: usize, role: CborItemRole) -> (r: Result<
    (),
    CoseError,
>)
    ensures
        r == spec_validate_cbor_bytes(bytes@, max_len as int, role),
    decreases bytes@.len(), MAX_CBOR_DEPTH + 3, 0int, 0int,
{
    if bytes.len() == 0 {
        return Err(CoseError::Cbor);
    }
    if bytes.len() > max_len {
        return Err(CoseError::ResourceLimitExceeded);
    }
    let parsed_len = parse_cbor_item(bytes, 0, 0, role)?;
    assert(spec_parse_item(bytes@, 0, 0, role) == Ok::<int, CoseError>(parsed_len as int));
    if parsed_len == bytes.len() {
        Ok(())
    } else {
        Err(CoseError::Cbor)
    }
}

/// Validates a protected-header byte string: empty, or one header map.
pub fn validate_protected_header_bytes(bytes: &[u8]) -> (r: Result<(), CoseError>)
    ensures
        r == spec_validate_protected_header_bytes(bytes@),
    decreases bytes@.len(), MAX_CBOR_DEPTH + 4, 0int, 0int,
{
    if bytes.len() == 0 {
        return Ok(());
    }
    validate_cbor_bytes(bytes, bytes.len(), CborItemRole::ProtectedHeaderMap)
}

} // verus!
