//! The `COSE_Encrypt` structure of the ML-KEM profile: its model, the
//! decoding of its headers, and the structural rules a decrypted object must
//! meet.

use vstd::prelude::*;

use crate::algorithm::label::{
    algorithm_registered, iana_algorithm_registered, parse_algorithm_label, spec_algorithm_label,
    Label, RegisteredLabelWithPrivate, COSE_PRIVATE_USE_MAX,
};
use crate::algorithm::ml_kem::REALLYME_COSE_HEADER_EK;
use crate::cbor::{
    ciborium_decode, ciborium_decoding, ciborium_encode, ciborium_encoding, clone_value,
    encode_cbor_value, spec_encode_cbor_value, spec_same_value, CborValue,
};
use crate::error::CoseError;
use crate::limits::profile::{validate_cose_encrypt_bytes, MAX_COSE_ENCRYPT_BYTES};
use crate::limits::validate::{
    spec_validate_cbor_bytes, spec_validate_protected_header_bytes,
    validate_protected_header_bytes, CborItemRole,
};

use super::profile::ML_KEM_KID_LENGTH;

verus! {

/// CBOR tag of `COSE_Encrypt`.
pub const COSE_ENCRYPT_TAG: u64 = 96;
/// Largest accepted plaintext.
pub const MAX_PLAINTEXT_BYTES: usize = 1_048_576;
/// Largest accepted external additional authenticated data.
pub const MAX_EXTERNAL_AAD_BYTES: usize = 1_048_576;
/// Largest accepted key identifier.
pub const MAX_KID_BYTES: usize = 1_024;
/// Largest accepted private KDF context.
pub const MAX_SUPP_PRIV_INFO_BYTES: usize = 65_536;
/// AES-GCM nonce length.
pub const AES_GCM_NONCE_LENGTH: usize = 12;
/// AES-GCM authentication tag length.
pub const AES_GCM_TAG_LENGTH: usize = 16;

/// IANA COSE header parameter `alg`.
pub const HEADER_ALG: i64 = 1;
/// IANA COSE header parameter `kid`.
pub const HEADER_KID: i64 = 4;
/// IANA COSE header parameter `IV`.
pub const HEADER_IV: i64 = 5;

/// A COSE header of the ML-KEM profile.
///
/// The profile defines no critical headers, content type, partial IV or
/// counter signatures, and its decoder refuses each of them, so a header
/// holds only the algorithm, key identifier, IV and further parameters.
pub struct Header {
    /// Algorithm (`alg`).
    pub alg: Option<RegisteredLabelWithPrivate>,
    /// Key identifier (`kid`); empty when absent.
    pub key_id: Vec<u8>,
    /// Full initialization vector; empty when absent.
    pub iv: Vec<u8>,
    /// Every other header parameter, in encoding order.
    pub rest: Vec<(Label, CborValue)>,
}

/// A protected header together with the bytes it was decoded from, if any.
pub struct ProtectedHeader {
    /// The serialized header as received.
    pub original_data: Option<Vec<u8>>,
    /// The decoded header.
    pub header: Header,
}

/// A `COSE_Recipient` of the profile, which has no nested recipients.
pub struct CoseRecipient {
    /// Protected recipient header.
    pub protected: ProtectedHeader,
    /// Unprotected recipient header.
    pub unprotected: Header,
    /// Recipient ciphertext (the wrapped key in key-wrap mode).
    pub ciphertext: Option<Vec<u8>>,
}

/// A `COSE_Encrypt` object.
pub struct CoseEncrypt {
    /// Protected body header.
    pub protected: ProtectedHeader,
    /// Unprotected body header.
    pub unprotected: Header,
    /// Content ciphertext.
    pub ciphertext: Option<Vec<u8>>,
    /// Recipients.
    pub recipients: Vec<CoseRecipient>,
}

/// Which header of a `COSE_Encrypt` is being decoded.
#[derive(Clone, Copy, Debug, PartialEq, Eq, Structural)]
pub enum EncryptHeaderBucket {
    /// Protected body header.
    BodyProtected,
    /// Unprotected body header.
    BodyUnprotected,
    /// Protected recipient header.
    RecipientProtected,
    /// Unprotected recipient header.
    RecipientUnprotected,
}

/// The error of a header parameter that does not belong in `bucket`.
pub open spec fn spec_bucket_error(bucket: EncryptHeaderBucket) -> CoseError {
    match bucket {
        EncryptHeaderBucket::BodyProtected | EncryptHeaderBucket::BodyUnprotected => CoseError::InvalidFormat,
        _ => CoseError::InvalidRecipient,
    }
}

fn header_bucket_error(bucket: EncryptHeaderBucket) -> (r: CoseError)
    ensures
        r == spec_bucket_error(bucket),
{
    match bucket {
        EncryptHeaderBucket::BodyProtected | EncryptHeaderBucket::BodyUnprotected => CoseError::InvalidFormat,
        EncryptHeaderBucket::RecipientProtected | EncryptHeaderBucket::RecipientUnprotected => {
            CoseError::InvalidRecipient
        },
    }
}

/// The parameters read from a header so far: algorithm, key identifier,
/// IV and encapsulated key.
pub type HeaderScan = (
    Option<RegisteredLabelWithPrivate>,
    Option<Seq<u8>>,
    Option<Seq<u8>>,
    Option<Seq<u8>>,
);

/// The algorithm label carried by a header value: a registered or
/// private-use integer, or text.
pub open spec fn spec_parse_header_algorithm(value: CborValue) -> Result<
    RegisteredLabelWithPrivate,
    CoseError,
> {
    match value {
        CborValue::Integer(integer) => match spec_algorithm_label(integer) {
            Some(label) => Ok(label),
            None => Err(CoseError::InvalidFormat),
        },
        CborValue::Text(text) => Ok(RegisteredLabelWithPrivate::Text(text)),
        _ => Err(CoseError::InvalidFormat),
    }
}

/// Read one header parameter of `bucket`.
///
/// `alg` belongs only in protected headers, `kid` only in the protected
/// recipient header, the IV only in the unprotected body header and the
/// encapsulated key only in the unprotected recipient header; each may
/// appear once.
pub open spec fn spec_header_step(
    scan: HeaderScan,
    entry: (CborValue, CborValue),
    bucket: EncryptHeaderBucket,
) -> Result<HeaderScan, CoseError> {
    match entry.0 {
        CborValue::Integer(integer) => if integer < i64::MIN || integer > i64::MAX {
            Err(CoseError::InvalidFormat)
        } else if integer == HEADER_ALG {
            if scan.0 is Some {
                Err(CoseError::DuplicateMapLabel)
            } else if bucket == EncryptHeaderBucket::BodyUnprotected || bucket
                == EncryptHeaderBucket::RecipientUnprotected {
                Err(CoseError::UnprotectedHeaderNotAllowed)
            } else {
                match spec_parse_header_algorithm(entry.1) {
                    Ok(alg) => Ok((Some(alg), scan.1, scan.2, scan.3)),
                    Err(error) => Err(error),
                }
            }
        } else if integer == HEADER_KID {
            if scan.1 is Some {
                Err(CoseError::DuplicateMapLabel)
            } else if bucket != EncryptHeaderBucket::RecipientProtected {
                Err(spec_bucket_error(bucket))
            } else {
                match entry.1 {
                    CborValue::Bytes(kid) => if kid@.len() > 0 {
                        Ok((scan.0, Some(kid@), scan.2, scan.3))
                    } else {
                        Err(CoseError::InvalidRecipient)
                    },
                    _ => Err(CoseError::InvalidRecipient),
                }
            }
        } else if integer == HEADER_IV {
            if scan.2 is Some {
                Err(CoseError::DuplicateMapLabel)
            } else if bucket != EncryptHeaderBucket::BodyUnprotected {
                Err(spec_bucket_error(bucket))
            } else {
                match entry.1 {
                    CborValue::Bytes(iv) => if iv@.len() > 0 {
                        Ok((scan.0, scan.1, Some(iv@), scan.3))
                    } else {
                        Err(CoseError::InvalidIv)
                    },
                    _ => Err(CoseError::InvalidIv),
                }
            }
        } else if integer == REALLYME_COSE_HEADER_EK {
            if scan.3 is Some {
                Err(CoseError::DuplicateMapLabel)
            } else if bucket != EncryptHeaderBucket::RecipientUnprotected {
                Err(spec_bucket_error(bucket))
            } else {
                match entry.1 {
                    CborValue::Bytes(key) => Ok((scan.0, scan.1, scan.2, Some(key@))),
                    _ => Err(CoseError::InvalidEncapsulatedKey),
                }
            }
        } else {
            Err(spec_bucket_error(bucket))
        },
        _ => Err(spec_bucket_error(bucket)),
    }
}

/// Read the header parameters of `entries` in order, stopping at the first
/// refused one.
pub open spec fn spec_header_scan(
    entries: Seq<(CborValue, CborValue)>,
    bucket: EncryptHeaderBucket,
) -> Result<HeaderScan, CoseError>
    decreases entries.len(),
{
    if entries.len() == 0 {
        Ok((None, None, None, None))
    } else {
        match spec_header_scan(entries.drop_last(), bucket) {
            Ok(scan) => spec_header_step(scan, entries.last(), bucket),
            Err(error) => Err(error),
        }
    }
}

/// The parameters of a decoded header value: it must be a map.
pub open spec fn spec_decode_header(value: CborValue, bucket: EncryptHeaderBucket) -> Result<
    HeaderScan,
    CoseError,
> {
    match value {
        CborValue::Mapping(entries) => spec_header_scan(entries@, bucket),
        _ => Err(CoseError::InvalidFormat),
    }
}

/// The optional byte string view of an optional vector.
pub open spec fn spec_opt_bytes(value: Option<Vec<u8>>) -> Option<Seq<u8>> {
    match value {
        Some(bytes) => Some(bytes@),
        None => None,
    }
}

/// `header` holds exactly the parameters of `scan`.
pub open spec fn spec_header_holds(header: Header, scan: HeaderScan) -> bool {
    &&& header.alg == scan.0
    &&& header.key_id@ == (match scan.1 {
        Some(kid) => kid,
        None => Seq::<u8>::empty(),
    })
    &&& header.iv@ == (match scan.2 {
        Some(iv) => iv,
        None => Seq::<u8>::empty(),
    })
    &&& match scan.3 {
        Some(key) => header.rest@.len() == 1 && header.rest@[0].0 == Label::Int(
            REALLYME_COSE_HEADER_EK,
        ) && (header.rest@[0].1 matches CborValue::Bytes(bytes) && bytes@ == key),
        None => header.rest@.len() == 0,
    }
}

proof fn lemma_scan_error_persists(
    entries: Seq<(CborValue, CborValue)>,
    bucket: EncryptHeaderBucket,
    i: int,
    error: CoseError,
)
    requires
        0 <= i <= entries.len(),
        spec_header_scan(entries.take(i), bucket) == Err::<HeaderScan, CoseError>(error),
    ensures
        spec_header_scan(entries, bucket) == Err::<HeaderScan, CoseError>(error),
    decreases entries.len() - i,
{
    if i < entries.len() {
        assert(entries.take(i + 1).drop_last() =~= entries.take(i));
        lemma_scan_error_persists(entries, bucket, i + 1, error);
    } else {
        assert(entries.take(i) =~= entries);
    }
}

/// Parse the algorithm label of a header value.
fn parse_header_algorithm(value: &CborValue) -> (r: Result<RegisteredLabelWithPrivate, CoseError>)
    ensures
        r == spec_parse_header_algorithm(*value),
{
    match value {
        CborValue::Integer(integer) => match parse_algorithm_label(*integer) {
            Some(label) => Ok(label),
            None => Err(CoseError::InvalidFormat),
        },
        CborValue::Text(text) => Ok(RegisteredLabelWithPrivate::Text(text.clone())),
        _ => Err(CoseError::InvalidFormat),
    }
}

/// A header with no parameters.
pub fn empty_header() -> (r: Header)
    ensures
        spec_header_holds(r, (None, None, None, None)),
{
    Header { alg: None, key_id: Vec::new(), iv: Vec::new(), rest: Vec::new() }
}

/// Decode one header map of a `COSE_Encrypt` for `bucket`.
pub fn decode_encrypt_header(value: &CborValue, bucket: EncryptHeaderBucket) -> (r: Result<
    Header,
    CoseError,
>)
    ensures
        match r {
            Ok(header) => spec_decode_header(*value, bucket) matches Ok(scan) && spec_header_holds(
                header,
                scan,
            ),
            Err(error) => spec_decode_header(*value, bucket) == Err::<HeaderScan, CoseError>(error),
        },
{
    let entries = match value {
        CborValue::Mapping(entries) => entries,
        _ => return Err(CoseError::InvalidFormat),
    };
    let mut alg: Option<RegisteredLabelWithPrivate> = None;
    let mut kid: Option<Vec<u8>> = None;
    let mut iv: Option<Vec<u8>> = None;
    let mut encapsulated_key: Option<Vec<u8>> = None;
    let mut i: usize = 0;
    while i < entries.len()
        invariant
            i <= entries.len(),
            *value == CborValue::Mapping(*entries),
            spec_header_scan(entries@.take(i as int), bucket) == Ok::<HeaderScan, CoseError>(
                (alg, spec_opt_bytes(kid), spec_opt_bytes(iv), spec_opt_bytes(encapsulated_key)),
            ),
        decreases entries.len() - i,
    {
        let ghost before: HeaderScan = (
            alg,
            spec_opt_bytes(kid),
            spec_opt_bytes(iv),
            spec_opt_bytes(encapsulated_key),
        );
        proof {
            assert(entries@.take(i as int + 1).drop_last() =~= entries@.take(i as int));
            assert(entries@.take(i as int + 1).last() == entries@[i as int]);
        }
        let step: Result<(), CoseError> = match &entries[i].0 {
            CborValue::Integer(integer) => {
                let integer = *integer;
                if integer < i64::MIN as i128 || integer > i64::MAX as i128 {
                    Err(CoseError::InvalidFormat)
                } else if integer == HEADER_ALG as i128 {
                    if alg.is_some() {
                        Err(CoseError::DuplicateMapLabel)
                    } else if matches!(
                        bucket,
                        EncryptHeaderBucket::BodyUnprotected | EncryptHeaderBucket::RecipientUnprotected
                    ) {
                        Err(CoseError::UnprotectedHeaderNotAllowed)
                    } else {
                        match parse_header_algorithm(&entries[i].1) {
                            Ok(parsed) => {
                                alg = Some(parsed);
                                Ok(())
                            },
                            Err(error) => Err(error),
                        }
                    }
                } else if integer == HEADER_KID as i128 {
                    if kid.is_some() {
                        Err(CoseError::DuplicateMapLabel)
                    } else if !matches!(bucket, EncryptHeaderBucket::RecipientProtected) {
                        Err(header_bucket_error(bucket))
                    } else {
                        match &entries[i].1 {
                            CborValue::Bytes(bytes) => if bytes.len() > 0 {
                                kid = Some(vstd::slice::slice_to_vec(bytes.as_slice()));
                                Ok(())
                            } else {
                                Err(CoseError::InvalidRecipient)
                            },
                            _ => Err(CoseError::InvalidRecipient),
                        }
                    }
                } else if integer == HEADER_IV as i128 {
                    if iv.is_some() {
                        Err(CoseError::DuplicateMapLabel)
                    } else if !matches!(bucket, EncryptHeaderBucket::BodyUnprotected) {
                        Err(header_bucket_error(bucket))
                    } else {
                        match &entries[i].1 {
                            CborValue::Bytes(bytes) => if bytes.len() > 0 {
                                iv = Some(vstd::slice::slice_to_vec(bytes.as_slice()));
                                Ok(())
                            } else {
                                Err(CoseError::InvalidIv)
                            },
                            _ => Err(CoseError::InvalidIv),
                        }
                    }
                } else if integer == REALLYME_COSE_HEADER_EK as i128 {
                    if encapsulated_key.is_some() {
                        Err(CoseError::DuplicateMapLabel)
                    } else if !matches!(bucket, EncryptHeaderBucket::RecipientUnprotected) {
                        Err(header_bucket_error(bucket))
                    } else {
                        match &entries[i].1 {
                            CborValue::Bytes(bytes) => {
                                encapsulated_key = Some(vstd::slice::slice_to_vec(bytes.as_slice()));
                                Ok(())
                            },
                            _ => Err(CoseError::InvalidEncapsulatedKey),
                        }
                    }
                } else {
                    Err(header_bucket_error(bucket))
                }
            },
            _ => Err(header_bucket_error(bucket)),
        };
        match step {
            Ok(()) => {
                assert(spec_header_step(before, entries@[i as int], bucket) == Ok::<
                    HeaderScan,
                    CoseError,
                >((alg, spec_opt_bytes(kid), spec_opt_bytes(iv), spec_opt_bytes(encapsulated_key))));
            },
            Err(error) => {
                assert(spec_header_step(before, entries@[i as int], bucket) == Err::<
                    HeaderScan,
                    CoseError,
                >(error));
                proof {
                    lemma_scan_error_persists(entries@, bucket, i as int + 1, error);
                }
                return Err(error);
            },
        }
        i = i + 1;
    }
    proof {
        assert(entries@.take(i as int) =~= entries@);
    }
    let mut header = empty_header();
    header.alg = alg;
    match kid {
        Some(kid) => header.key_id = kid,
        None => {},
    }
    match iv {
        Some(iv) => header.iv = iv,
        None => {},
    }
    match encapsulated_key {
        Some(key) => header.rest.push((Label::Int(REALLYME_COSE_HEADER_EK), CborValue::Bytes(key))),
        None => {},
    }
    Ok(header)
}

/// A present byte string, or `null` for an absent one.
pub open spec fn spec_decode_optional_bytes(value: CborValue) -> Result<Option<Seq<u8>>, CoseError> {
    match value {
        CborValue::Bytes(bytes) => Ok(Some(bytes@)),
        CborValue::Null => Ok(None),
        _ => Err(CoseError::InvalidFormat),
    }
}

fn decode_optional_bytes(value: &CborValue) -> (r: Result<Option<Vec<u8>>, CoseError>)
    ensures
        match r {
            Ok(bytes) => spec_decode_optional_bytes(*value) == Ok::<Option<Seq<u8>>, CoseError>(
                spec_opt_bytes(bytes),
            ),
            Err(error) => spec_decode_optional_bytes(*value) == Err::<Option<Seq<u8>>, CoseError>(
                error,
            ),
        },
{
    match value {
        CborValue::Bytes(bytes) => Ok(Some(vstd::slice::slice_to_vec(bytes.as_slice()))),
        CborValue::Null => Ok(None),
        _ => Err(CoseError::InvalidFormat),
    }
}

/// The bytes and parameters of a protected header carried as a byte string:
/// an empty string is an empty header; any other must be one deterministic
/// CBOR map.
pub open spec fn spec_decode_protected(value: CborValue, bucket: EncryptHeaderBucket) -> Result<
    (Seq<u8>, HeaderScan),
    CoseError,
> {
    match value {
        CborValue::Bytes(bytes) => if bytes@.len() == 0 {
            Ok((bytes@, (None, None, None, None)))
        } else {
            match spec_validate_protected_header_bytes(bytes@) {
                Err(error) => Err(error),
                Ok(_) => match ciborium_decoding(bytes@) {
                    None => Err(CoseError::Cbor),
                    Some(header) => match spec_decode_header(header, bucket) {
                        Ok(scan) => Ok((bytes@, scan)),
                        Err(error) => Err(error),
                    },
                },
            }
        },
        _ => Err(CoseError::InvalidFormat),
    }
}

/// `protected` keeps `decoded.0` as the bytes it was received as and holds the
/// parameters `decoded.1`.
pub open spec fn spec_protected_holds(protected: ProtectedHeader, decoded: (Seq<u8>, HeaderScan)) -> bool {
    &&& spec_opt_bytes(protected.original_data) == Some(decoded.0)
    &&& spec_header_holds(protected.header, decoded.1)
}

fn decode_protected_header(value: &CborValue, bucket: EncryptHeaderBucket) -> (r: Result<
    ProtectedHeader,
    CoseError,
>)
    ensures
        match r {
            Ok(protected) => spec_decode_protected(*value, bucket) matches Ok(decoded)
                && spec_protected_holds(protected, decoded),
            Err(error) => spec_decode_protected(*value, bucket) == Err::<
                (Seq<u8>, HeaderScan),
                CoseError,
            >(error),
        },
{
    let bytes = match value {
        CborValue::Bytes(bytes) => bytes,
        _ => return Err(CoseError::InvalidFormat),
    };
    let original_data = Some(vstd::slice::slice_to_vec(bytes.as_slice()));
    if bytes.len() == 0 {
        return Ok(ProtectedHeader { original_data, header: empty_header() });
    }
    match validate_protected_header_bytes(bytes.as_slice()) {
        Ok(()) => {},
        Err(error) => return Err(error),
    }
    let decoded = match ciborium_decode(bytes.as_slice()) {
        Some(decoded) => decoded,
        None => return Err(CoseError::Cbor),
    };
    match decode_encrypt_header(&decoded, bucket) {
        Ok(header) => Ok(ProtectedHeader { original_data, header }),
        Err(error) => Err(error),
    }
}

/// What is decoded of one layer (body or recipient): the protected header's
/// bytes and parameters, the unprotected parameters, and the ciphertext.
pub type LayerScan = ((Seq<u8>, HeaderScan), HeaderScan, Option<Seq<u8>>);

/// Decode one layer from its protected, unprotected and ciphertext items.
pub open spec fn spec_decode_layer(
    protected: CborValue,
    unprotected: CborValue,
    ciphertext: CborValue,
    protected_bucket: EncryptHeaderBucket,
    unprotected_bucket: EncryptHeaderBucket,
) -> Result<LayerScan, CoseError> {
    match spec_decode_protected(protected, protected_bucket) {
        Err(error) => Err(error),
        Ok(decoded) => match spec_decode_header(unprotected, unprotected_bucket) {
            Err(error) => Err(error),
            Ok(scan) => match spec_decode_optional_bytes(ciphertext) {
                Err(error) => Err(error),
                Ok(bytes) => Ok((decoded, scan, bytes)),
            },
        },
    }
}

/// The single recipient of a decoded `COSE_Encrypt` array.
pub open spec fn spec_decode_recipient(recipients: CborValue) -> Result<LayerScan, CoseError> {
    match recipients {
        CborValue::Array(recipients) => if recipients@.len() == 1 {
            match recipients@[0] {
                CborValue::Array(items) => if items@.len() == 3 {
                    spec_decode_layer(
                        items@[0],
                        items@[1],
                        items@[2],
                        EncryptHeaderBucket::RecipientProtected,
                        EncryptHeaderBucket::RecipientUnprotected,
                    )
                } else {
                    Err(CoseError::InvalidRecipient)
                },
                _ => Err(CoseError::InvalidRecipient),
            }
        } else {
            Err(CoseError::InvalidRecipient)
        },
        _ => Err(CoseError::InvalidRecipient),
    }
}

/// The untagged body of a decoded item: the content of tag 96, or the item.
pub open spec fn spec_untagged(value: CborValue) -> CborValue {
    match value {
        CborValue::Tag(tag, body) => if tag == COSE_ENCRYPT_TAG {
            *body
        } else {
            value
        },
        _ => value,
    }
}

/// Decode an encoded `COSE_Encrypt` with one recipient: the bytes must pass
/// the deterministic CBOR boundary checks, and the item must be a
/// four-element array whose recipients array holds one three-element
/// recipient.
pub open spec fn spec_decode_cose_encrypt(bytes: Seq<u8>) -> Result<(LayerScan, LayerScan), CoseError> {
    match spec_validate_cbor_bytes(bytes, MAX_COSE_ENCRYPT_BYTES as int, CborItemRole::CoseEncryptTop) {
        Err(error) => Err(error),
        Ok(_) => match ciborium_decoding(bytes) {
            None => Err(CoseError::Cbor),
            Some(value) => match spec_untagged(value) {
                CborValue::Array(items) => if items@.len() == 4 {
                    match spec_decode_layer(
                        items@[0],
                        items@[1],
                        items@[2],
                        EncryptHeaderBucket::BodyProtected,
                        EncryptHeaderBucket::BodyUnprotected,
                    ) {
                        Err(error) => Err(error),
                        Ok(body) => match spec_decode_recipient(items@[3]) {
                            Err(error) => Err(error),
                            Ok(recipient) => Ok((body, recipient)),
                        },
                    }
                } else {
                    Err(CoseError::InvalidFormat)
                },
                _ => Err(CoseError::InvalidFormat),
            },
        },
    }
}

/// `recipient` holds exactly the decoded layer `layer`.
pub open spec fn spec_recipient_holds(recipient: CoseRecipient, layer: LayerScan) -> bool {
    &&& spec_protected_holds(recipient.protected, layer.0)
    &&& spec_header_holds(recipient.unprotected, layer.1)
    &&& spec_opt_bytes(recipient.ciphertext) == layer.2
}

/// `cose` holds exactly the decoded body and single recipient.
pub open spec fn spec_cose_encrypt_holds(cose: CoseEncrypt, decoded: (LayerScan, LayerScan)) -> bool {
    &&& spec_protected_holds(cose.protected, decoded.0.0)
    &&& spec_header_holds(cose.unprotected, decoded.0.1)
    &&& spec_opt_bytes(cose.ciphertext) == decoded.0.2
    &&& cose.recipients@.len() == 1
    &&& spec_recipient_holds(cose.recipients@[0], decoded.1)
}

/// Decode an encoded `COSE_Encrypt` of the ML-KEM profile.
pub fn decode(bytes: &[u8]) -> (r: Result<CoseEncrypt, CoseError>)
    ensures
        match r {
            Ok(cose) => spec_decode_cose_encrypt(bytes@) matches Ok(decoded)
                && spec_cose_encrypt_holds(cose, decoded),
            Err(error) => spec_decode_cose_encrypt(bytes@) == Err::<(LayerScan, LayerScan), CoseError>(
                error,
            ),
        },
{
    match validate_cose_encrypt_bytes(bytes) {
        Ok(()) => {},
        Err(error) => return Err(error),
    }
    let decoded = match ciborium_decode(bytes) {
        Some(decoded) => decoded,
        None => return Err(CoseError::Cbor),
    };
    let body = match &decoded {
        CborValue::Tag(tag, body) => if *tag == COSE_ENCRYPT_TAG {
            &**body
        } else {
            &decoded
        },
        _ => &decoded,
    };
    assert(*body == spec_untagged(decoded));
    let items = match body {
        CborValue::Array(items) => if items.len() == 4 {
            items
        } else {
            return Err(CoseError::InvalidFormat);
        },
        _ => return Err(CoseError::InvalidFormat),
    };
    let protected = match decode_protected_header(&items[0], EncryptHeaderBucket::BodyProtected) {
        Ok(protected) => protected,
        Err(error) => return Err(error),
    };
    let unprotected = match decode_encrypt_header(&items[1], EncryptHeaderBucket::BodyUnprotected) {
        Ok(unprotected) => unprotected,
        Err(error) => return Err(error),
    };
    let ciphertext = match decode_optional_bytes(&items[2]) {
        Ok(ciphertext) => ciphertext,
        Err(error) => return Err(error),
    };
    let recipients = match &items[3] {
        CborValue::Array(recipients) => if recipients.len() == 1 {
            recipients
        } else {
            return Err(CoseError::InvalidRecipient);
        },
        _ => return Err(CoseError::InvalidRecipient),
    };
    let recipient_items = match &recipients[0] {
        CborValue::Array(recipient_items) => if recipient_items.len() == 3 {
            recipient_items
        } else {
            return Err(CoseError::InvalidRecipient);
        },
        _ => return Err(CoseError::InvalidRecipient),
    };
    let recipient_protected = match decode_protected_header(
        &recipient_items[0],
        EncryptHeaderBucket::RecipientProtected,
    ) {
        Ok(protected) => protected,
        Err(error) => return Err(error),
    };
    let recipient_unprotected = match decode_encrypt_header(
        &recipient_items[1],
        EncryptHeaderBucket::RecipientUnprotected,
    ) {
        Ok(unprotected) => unprotected,
        Err(error) => return Err(error),
    };
    let recipient_ciphertext = match decode_optional_bytes(&recipient_items[2]) {
        Ok(ciphertext) => ciphertext,
        Err(error) => return Err(error),
    };
    let mut all_recipients: Vec<CoseRecipient> = Vec::new();
    all_recipients.push(
        CoseRecipient {
            protected: recipient_protected,
            unprotected: recipient_unprotected,
            ciphertext: recipient_ciphertext,
        },
    );
    Ok(CoseEncrypt { protected, unprotected, ciphertext, recipients: all_recipients })
}

/// The result of checking the first `n` unprotected recipient parameters:
/// each must be the encapsulated key, as a byte string.
pub open spec fn spec_recipient_rest_prefix(rest: Seq<(Label, CborValue)>, n: int) -> Result<
    (),
    CoseError,
>
    decreases n,
{
    if n <= 0 {
        Ok(())
    } else {
        match spec_recipient_rest_prefix(rest, n - 1) {
            Err(error) => Err(error),
            Ok(_) => if rest[n - 1].0 != Label::Int(REALLYME_COSE_HEADER_EK) {
                Err(CoseError::InvalidRecipient)
            } else if !(rest[n - 1].1 is Bytes) {
                Err(CoseError::InvalidEncapsulatedKey)
            } else {
                Ok(())
            },
        }
    }
}

/// The error, if any, of the headers and nesting of a recipient.
pub open spec fn spec_recipient_header_error(recipient: CoseRecipient) -> Option<CoseError> {
    let protected = recipient.protected.header;
    let unprotected = recipient.unprotected;
    if protected.alg is None || unprotected.alg is Some {
        Some(CoseError::UnprotectedHeaderNotAllowed)
    } else if protected.key_id@.len() != ML_KEM_KID_LENGTH || unprotected.key_id@.len() != 0
        || protected.iv@.len() != 0 || unprotected.iv@.len() != 0 || protected.rest@.len() != 0 {
        Some(CoseError::InvalidRecipient)
    } else {
        None
    }
}

/// The structural rules of the single recipient: a 32-byte `kid` and the
/// algorithm in the protected header, and exactly one encapsulated key, as
/// a byte string, in the unprotected header.
pub open spec fn spec_validate_recipient(recipient: CoseRecipient) -> Result<(), CoseError> {
    let rest = recipient.unprotected.rest@;
    match spec_recipient_header_error(recipient) {
        Some(error) => Err(error),
        None => match spec_recipient_rest_prefix(rest, rest.len() as int) {
            Err(error) => Err(error),
            Ok(_) => if rest.len() != 1 {
                Err(CoseError::MissingEncapsulatedKey)
            } else {
                Ok(())
            },
        },
    }
}

/// The structural rules of a `COSE_Encrypt` of the profile: one recipient,
/// an attached ciphertext, the algorithm only in the protected header, a
/// 12-byte IV only in the unprotected header, and no other parameters.
pub open spec fn spec_validate_structure(cose: CoseEncrypt) -> Result<(), CoseError> {
    let protected = cose.protected.header;
    let unprotected = cose.unprotected;
    if cose.recipients@.len() != 1 {
        Err(CoseError::InvalidRecipient)
    } else if cose.ciphertext is None {
        Err(CoseError::MissingCiphertext)
    } else if unprotected.alg is Some || protected.alg is None {
        Err(CoseError::UnprotectedHeaderNotAllowed)
    } else if unprotected.iv@.len() != AES_GCM_NONCE_LENGTH || protected.iv@.len() != 0 {
        Err(CoseError::InvalidIv)
    } else if protected.key_id@.len() != 0 || unprotected.key_id@.len() != 0
        || protected.rest@.len() != 0 || unprotected.rest@.len() != 0 {
        Err(CoseError::InvalidFormat)
    } else {
        spec_validate_recipient(cose.recipients@[0])
    }
}

/// Check the structural rules of a decoded `COSE_Encrypt`.
pub fn validate_structure(cose: &CoseEncrypt) -> (r: Result<(), CoseError>)
    ensures
        r == spec_validate_structure(*cose),
{
    if cose.recipients.len() != 1 {
        return Err(CoseError::InvalidRecipient);
    }
    if cose.ciphertext.is_none() {
        return Err(CoseError::MissingCiphertext);
    }
    if cose.unprotected.alg.is_some() || cose.protected.header.alg.is_none() {
        return Err(CoseError::UnprotectedHeaderNotAllowed);
    }
    if cose.unprotected.iv.len() != AES_GCM_NONCE_LENGTH || cose.protected.header.iv.len() != 0 {
        return Err(CoseError::InvalidIv);
    }
    if cose.protected.header.key_id.len() != 0 || cose.unprotected.key_id.len() != 0
        || cose.protected.header.rest.len() != 0 || cose.unprotected.rest.len() != 0 {
        return Err(CoseError::InvalidFormat);
    }
    validate_recipient(&cose.recipients[0])
}

fn validate_recipient(recipient: &CoseRecipient) -> (r: Result<(), CoseError>)
    ensures
        r == spec_validate_recipient(*recipient),
{
    let protected = &recipient.protected.header;
    let unprotected = &recipient.unprotected;
    if protected.alg.is_none() || unprotected.alg.is_some() {
        return Err(CoseError::UnprotectedHeaderNotAllowed);
    }
    if protected.key_id.len() != ML_KEM_KID_LENGTH || unprotected.key_id.len() != 0
        || protected.iv.len() != 0 || unprotected.iv.len() != 0 || protected.rest.len() != 0 {
        return Err(CoseError::InvalidRecipient);
    }
    let mut encapsulated_key_count: usize = 0;
    let mut i: usize = 0;
    while i < unprotected.rest.len()
        invariant
            i <= unprotected.rest@.len(),
            encapsulated_key_count == i,
            unprotected == &recipient.unprotected,
            spec_recipient_header_error(*recipient) is None,
            spec_recipient_rest_prefix(unprotected.rest@, i as int) == Ok::<(), CoseError>(()),
        decreases unprotected.rest@.len() - i,
    {
        let (label, value) = &unprotected.rest[i];
        if !label.is_int(REALLYME_COSE_HEADER_EK) {
            proof {
                lemma_rest_error_persists(unprotected.rest@, i as int + 1, CoseError::InvalidRecipient);
            }
            return Err(CoseError::InvalidRecipient);
        }
        if !matches!(value, CborValue::Bytes(_)) {
            proof {
                lemma_rest_error_persists(
                    unprotected.rest@,
                    i as int + 1,
                    CoseError::InvalidEncapsulatedKey,
                );
            }
            return Err(CoseError::InvalidEncapsulatedKey);
        }
        encapsulated_key_count = encapsulated_key_count + 1;
        i = i + 1;
    }
    if encapsulated_key_count != 1 {
        return Err(CoseError::MissingEncapsulatedKey);
    }
    Ok(())
}

proof fn lemma_rest_error_persists(rest: Seq<(Label, CborValue)>, i: int, error: CoseError)
    requires
        0 <= i <= rest.len(),
        spec_recipient_rest_prefix(rest, i) == Err::<(), CoseError>(error),
    ensures
        spec_recipient_rest_prefix(rest, rest.len() as int) == Err::<(), CoseError>(error),
    decreases rest.len() - i,
{
    if i < rest.len() {
        lemma_rest_error_persists(rest, i + 1, error);
    }
}

/// The first encapsulated key among the first `n` unprotected recipient
/// parameters: an entry labelled with the encapsulated-key label whose value
/// is a byte string.
pub open spec fn spec_find_encapsulated_key(rest: Seq<(Label, CborValue)>, n: int) -> Option<
    Seq<u8>,
>
    decreases n,
{
    if n <= 0 {
        None
    } else {
        match spec_find_encapsulated_key(rest, n - 1) {
            Some(key) => Some(key),
            None => if rest[n - 1].0 == Label::Int(REALLYME_COSE_HEADER_EK) {
                match rest[n - 1].1 {
                    CborValue::Bytes(bytes) => Some(bytes@),
                    _ => None,
                }
            } else {
                None
            },
        }
    }
}

/// The ML-KEM ciphertext carried by a recipient.
pub fn encapsulated_key(recipient: &CoseRecipient) -> (r: Result<&[u8], CoseError>)
    ensures
        match r {
            Ok(key) => spec_find_encapsulated_key(
                recipient.unprotected.rest@,
                recipient.unprotected.rest@.len() as int,
            ) == Some(key@),
            Err(error) => error == CoseError::MissingEncapsulatedKey && spec_find_encapsulated_key(
                recipient.unprotected.rest@,
                recipient.unprotected.rest@.len() as int,
            ) is None,
        },
{
    let rest = &recipient.unprotected.rest;
    let mut i: usize = 0;
    while i < rest.len()
        invariant
            i <= rest@.len(),
            rest == &recipient.unprotected.rest,
            spec_find_encapsulated_key(rest@, i as int) is None,
        decreases rest@.len() - i,
    {
        let (label, value) = &rest[i];
        if label.is_int(REALLYME_COSE_HEADER_EK) {
            match value {
                CborValue::Bytes(bytes) => {
                    proof {
                        lemma_found_key_persists(rest@, i as int + 1, bytes@);
                    }
                    return Ok(bytes.as_slice());
                },
                _ => {},
            }
        }
        i = i + 1;
    }
    Err(CoseError::MissingEncapsulatedKey)
}

proof fn lemma_found_key_persists(rest: Seq<(Label, CborValue)>, i: int, key: Seq<u8>)
    requires
        0 <= i <= rest.len(),
        spec_find_encapsulated_key(rest, i) == Some(key),
    ensures
        spec_find_encapsulated_key(rest, rest.len() as int) == Some(key),
    decreases rest.len() - i,
{
    if i < rest.len() {
        lemma_found_key_persists(rest, i + 1, key);
    }
}

/// Whether two parameter labels are the same label.
pub open spec fn spec_same_param_label(a: Label, b: Label) -> bool {
    match (a, b) {
        (Label::Int(x), Label::Int(y)) => x == y,
        (Label::Text(s), Label::Text(t)) => s@ == t@,
        _ => false,
    }
}

/// No label occurs twice among `rest`.
pub open spec fn spec_labels_distinct(rest: Seq<(Label, CborValue)>) -> bool {
    forall|i: int, j: int|
        0 <= i < j < rest.len() ==> !spec_same_param_label(#[trigger] rest[i].0, #[trigger] rest[j].0)
}

/// `value` is the CBOR encoding of the label `label`.
pub open spec fn spec_label_value_is(value: CborValue, label: Label) -> bool {
    match label {
        Label::Int(i) => value == CborValue::Integer(i as i128),
        Label::Text(t) => value matches CborValue::Text(u) && u@ == t@,
    }
}

/// `value` is the CBOR encoding of the algorithm label `alg`.
pub open spec fn spec_alg_value_is(value: CborValue, alg: RegisteredLabelWithPrivate) -> bool {
    match alg {
        RegisteredLabelWithPrivate::Assigned(i) => value == CborValue::Integer(i as i128),
        RegisteredLabelWithPrivate::PrivateUse(i) => value == CborValue::Integer(i as i128),
        RegisteredLabelWithPrivate::Text(t) => value matches CborValue::Text(u) && u@ == t@,
    }
}

/// The number of map entries of the parameters before the others: `alg`,
/// `kid` and the IV, each where present.
pub open spec fn spec_header_fixed_count(header: Header) -> int {
    (if header.alg is Some { 1int } else { 0int }) + (if header.key_id@.len() > 0 { 1int } else { 0int })
        + (if header.iv@.len() > 0 { 1int } else { 0int })
}

/// `value` is the CBOR map of `header`: `alg` (1), `kid` (4) and `IV` (5)
/// where present, in that order, then every other parameter in order.
pub open spec fn spec_is_header_map(value: CborValue, header: Header) -> bool {
    let a = if header.alg is Some { 1int } else { 0int };
    let k = if header.key_id@.len() > 0 { 1int } else { 0int };
    let fixed = spec_header_fixed_count(header);
    &&& value matches CborValue::Mapping(entries)
    &&& entries@.len() == fixed + header.rest@.len()
    &&& (header.alg matches Some(alg) ==> entries@[0].0 == CborValue::Integer(HEADER_ALG as i128)
        && spec_alg_value_is(entries@[0].1, alg))
    &&& (header.key_id@.len() > 0 ==> entries@[a].0 == CborValue::Integer(HEADER_KID as i128)
        && spec_is_bytes(entries@[a].1, header.key_id@))
    &&& (header.iv@.len() > 0 ==> entries@[a + k].0 == CborValue::Integer(HEADER_IV as i128)
        && spec_is_bytes(entries@[a + k].1, header.iv@))
    &&& forall|j: int|
        0 <= j < header.rest@.len() ==> spec_label_value_is(
            #[trigger] entries@[fixed + j].0,
            header.rest@[j].0,
        ) && spec_same_value(header.rest@[j].1, entries@[fixed + j].1)
}

/// Why a header has no CBOR map: an assigned algorithm that coset does not
/// register, or a parameter label that occurs twice.
pub open spec fn spec_header_map_error(header: Header) -> Option<CoseError> {
    if (header.alg matches Some(RegisteredLabelWithPrivate::Assigned(i)) && !iana_algorithm_registered(i))
        || !spec_labels_distinct(header.rest@) {
        Some(CoseError::Cbor)
    } else {
        None
    }
}

fn label_eq(a: &Label, b: &Label) -> (r: bool)
    ensures
        r == spec_same_param_label(*a, *b),
{
    match (a, b) {
        (Label::Int(x), Label::Int(y)) => *x == *y,
        (Label::Text(s), Label::Text(t)) => *s == *t,
        _ => false,
    }
}

pub(crate) fn labels_distinct(rest: &Vec<(Label, CborValue)>) -> (r: bool)
    ensures
        r == spec_labels_distinct(rest@),
{
    let mut j: usize = 0;
    while j < rest.len()
        invariant
            j <= rest@.len(),
            forall|a: int, b: int|
                0 <= a < b < j ==> !spec_same_param_label(#[trigger] rest@[a].0, #[trigger] rest@[b].0),
        decreases rest@.len() - j,
    {
        let mut i: usize = 0;
        while i < j
            invariant
                i <= j < rest@.len(),
                forall|a: int| 0 <= a < i ==> !spec_same_param_label(#[trigger] rest@[a].0, rest@[j as int].0),
            decreases j - i,
        {
            if label_eq(&rest[i].0, &rest[j].0) {
                return false;
            }
            i = i + 1;
        }
        j = j + 1;
    }
    true
}

pub(crate) fn label_value(label: &Label) -> (r: CborValue)
    ensures
        spec_label_value_is(r, *label),
{
    match label {
        Label::Int(i) => CborValue::Integer(*i as i128),
        Label::Text(t) => CborValue::Text(t.clone()),
    }
}

/// Build the CBOR map of a header.
pub fn header_value(header: &Header) -> (r: Result<CborValue, CoseError>)
    ensures
        match r {
            Ok(value) => spec_header_map_error(*header) is None && spec_is_header_map(value, *header),
            Err(error) => error == CoseError::Cbor && spec_header_map_error(*header) is Some,
        },
{
    if !labels_distinct(&header.rest) {
        return Err(CoseError::Cbor);
    }
    let mut entries: Vec<(CborValue, CborValue)> = Vec::new();
    match &header.alg {
        Some(alg) => {
            let value = match alg {
                RegisteredLabelWithPrivate::Assigned(i) => {
                    if !algorithm_registered(*i) {
                        return Err(CoseError::Cbor);
                    }
                    CborValue::Integer(*i as i128)
                },
                RegisteredLabelWithPrivate::PrivateUse(i) => CborValue::Integer(*i as i128),
                RegisteredLabelWithPrivate::Text(t) => CborValue::Text(t.clone()),
            };
            entries.push((CborValue::Integer(HEADER_ALG as i128), value));
        },
        None => {},
    }
    if header.key_id.len() > 0 {
        entries.push(
            (CborValue::Integer(HEADER_KID as i128), CborValue::Bytes(vstd::slice::slice_to_vec(header.key_id.as_slice()))),
        );
    }
    if header.iv.len() > 0 {
        entries.push(
            (CborValue::Integer(HEADER_IV as i128), CborValue::Bytes(vstd::slice::slice_to_vec(header.iv.as_slice()))),
        );
    }
    let fixed = entries.len();
    assert(fixed == spec_header_fixed_count(*header));
    let mut j: usize = 0;
    while j < header.rest.len()
        invariant
            j <= header.rest@.len(),
            fixed == spec_header_fixed_count(*header),
            entries@.len() == fixed + j,
            header.alg matches Some(alg) ==> entries@[0].0 == CborValue::Integer(HEADER_ALG as i128)
                && spec_alg_value_is(entries@[0].1, alg),
            header.key_id@.len() > 0 ==> entries@[if header.alg is Some { 1int } else { 0int }].0
                == CborValue::Integer(HEADER_KID as i128) && spec_is_bytes(
                entries@[if header.alg is Some { 1int } else { 0int }].1,
                header.key_id@,
            ),
            header.iv@.len() > 0 ==> entries@[(if header.alg is Some { 1int } else { 0int }) + (if header.key_id@.len() > 0 { 1int } else { 0int })].0
                == CborValue::Integer(HEADER_IV as i128) && spec_is_bytes(
                entries@[(if header.alg is Some { 1int } else { 0int }) + (if header.key_id@.len() > 0 { 1int } else { 0int })].1,
                header.iv@,
            ),
            forall|i: int|
                0 <= i < j ==> spec_label_value_is(#[trigger] entries@[fixed + i].0, header.rest@[i].0)
                    && spec_same_value(header.rest@[i].1, entries@[fixed + i].1),
        decreases header.rest@.len() - j,
    {
        let label = label_value(&header.rest[j].0);
        let value = clone_value(&header.rest[j].1);
        entries.push((label, value));
        j = j + 1;
    }
    let value = CborValue::Mapping(entries);
    assert(spec_header_map_error(*header) is None);
    assert(spec_is_header_map(value, *header));
    Ok(value)
}

/// `header` holds only parameters that belong in `bucket`, each in the form
/// the reader accepts: an `alg` that parses back to itself in a protected
/// header, a `kid` only in the protected recipient header, an IV only in
/// the unprotected body header, and as its one further parameter the
/// encapsulated key in the unprotected recipient header.
pub open spec fn spec_header_fits_bucket(header: Header, bucket: EncryptHeaderBucket) -> bool {
    &&& (header.alg matches Some(alg) ==> {
        &&& (bucket == EncryptHeaderBucket::BodyProtected || bucket == EncryptHeaderBucket::RecipientProtected)
        &&& match alg {
            RegisteredLabelWithPrivate::Assigned(i) => iana_algorithm_registered(i),
            RegisteredLabelWithPrivate::PrivateUse(i) => !iana_algorithm_registered(i) && i < COSE_PRIVATE_USE_MAX,
            RegisteredLabelWithPrivate::Text(_) => false,
        }
    })
    &&& (header.key_id@.len() > 0 ==> bucket == EncryptHeaderBucket::RecipientProtected)
    &&& (header.iv@.len() > 0 ==> bucket == EncryptHeaderBucket::BodyUnprotected)
    &&& (header.rest@.len() == 0 || {
        &&& bucket == EncryptHeaderBucket::RecipientUnprotected
        &&& header.rest@.len() == 1
        &&& header.rest@[0].0 == Label::Int(REALLYME_COSE_HEADER_EK)
        &&& header.rest@[0].1 is Bytes
    })
}

/// Reading gives back what writing wrote: the map that [`header_value`]
/// builds for a header that fits its bucket decodes, in that bucket, to
/// exactly the parameters of the header.
pub proof fn lemma_header_roundtrip(value: CborValue, header: Header, bucket: EncryptHeaderBucket)
    requires
        spec_is_header_map(value, header),
        spec_header_fits_bucket(header, bucket),
    ensures
        spec_decode_header(value, bucket) matches Ok(scan) && spec_header_holds(header, scan),
{
    let entries = value->Mapping_0@;
    let a = if header.alg is Some { 1int } else { 0int };
    let k = if header.key_id@.len() > 0 { 1int } else { 0int };
    let v = if header.iv@.len() > 0 { 1int } else { 0int };
    let fixed = a + k + v;
    let n = entries.len();
    let s0: HeaderScan = (None, None, None, None);
    let s1: HeaderScan = (header.alg, None, None, None);
    let s2: HeaderScan = (
        header.alg,
        if header.key_id@.len() > 0 { Some(header.key_id@) } else { None },
        None,
        None,
    );
    let s3: HeaderScan = (
        header.alg,
        s2.1,
        if header.iv@.len() > 0 { Some(header.iv@) } else { None },
        None,
    );
    assert(spec_header_scan(entries.take(0), bucket) == Ok::<HeaderScan, CoseError>(s0));
    if a == 1 {
        assert(entries.take(1).drop_last() =~= entries.take(0));
        assert(spec_header_step(s0, entries[0], bucket) == Ok::<HeaderScan, CoseError>(s1));
    }
    assert(spec_header_scan(entries.take(a), bucket) == Ok::<HeaderScan, CoseError>(s1));
    if k == 1 {
        assert(entries.take(a + 1).drop_last() =~= entries.take(a));
        assert(entries.take(a + 1).last() == entries[a]);
    }
    assert(spec_header_scan(entries.take(a + k), bucket) == Ok::<HeaderScan, CoseError>(s2));
    if v == 1 {
        assert(entries.take(a + k + 1).drop_last() =~= entries.take(a + k));
        assert(entries.take(a + k + 1).last() == entries[a + k]);
    }
    assert(spec_header_scan(entries.take(fixed), bucket) == Ok::<HeaderScan, CoseError>(s3));
    if k == 0 {
        assert(header.key_id@ =~= Seq::<u8>::empty());
    }
    if v == 0 {
        assert(header.iv@ =~= Seq::<u8>::empty());
    }
    if header.rest@.len() == 1 {
        assert(entries.take(fixed + 1).drop_last() =~= entries.take(fixed));
        assert(entries.take(fixed + 1).last() == entries[fixed]);
        assert(spec_label_value_is(entries[fixed + 0].0, header.rest@[0].0));
        assert(spec_same_value(header.rest@[0].1, entries[fixed + 0].1));
        let key = header.rest@[0].1->Bytes_0@;
        let s4: HeaderScan = (s3.0, s3.1, s3.2, Some(key));
        assert(spec_header_scan(entries.take(fixed + 1), bucket) == Ok::<HeaderScan, CoseError>(s4));
        assert(entries.take(fixed + 1) =~= entries);
        assert(spec_header_holds(header, s4));
    } else {
        assert(entries.take(fixed) =~= entries);
        assert(spec_header_holds(header, s3));
    }
}

/// A decoded protected header is authenticated exactly as it was received:
/// the bytes it is encoded to for the `Enc_structure` and the KDF context
/// are the received bytes, never a re-encoding, and that encoding cannot
/// fail.
pub proof fn lemma_protected_bytes_kept_as_received(
    protected: ProtectedHeader,
    decoded: (Seq<u8>, HeaderScan),
    bytes: Seq<u8>,
    error: CoseError,
)
    requires
        spec_protected_holds(protected, decoded),
    ensures
        spec_encoded_protected_is(protected, bytes) <==> bytes == decoded.0,
        !spec_encoded_protected_fails(protected, error),
{
}

/// Whether a header carries no parameter.
pub open spec fn spec_header_is_empty(header: Header) -> bool {
    header.alg is None && header.key_id@.len() == 0 && header.iv@.len() == 0 && header.rest@.len() == 0
}

/// `bytes` is the byte string that carries `protected` in a COSE
/// structure: the bytes it was decoded from, nothing for an empty header,
/// and otherwise the serialization of its map.
pub open spec fn spec_protected_bstr_is(protected: ProtectedHeader, bytes: Seq<u8>) -> bool {
    match protected.original_data {
        Some(original) => bytes == original@,
        None => if spec_header_is_empty(protected.header) {
            bytes.len() == 0
        } else {
            exists|value: CborValue|
                #![trigger spec_is_header_map(value, protected.header)]
                spec_is_header_map(value, protected.header) && ciborium_encoding(value) == Some(bytes)
        },
    }
}

/// Carrying `protected` fails: its map cannot be built or serialized.
pub open spec fn spec_protected_bstr_fails(protected: ProtectedHeader) -> bool {
    &&& protected.original_data is None
    &&& !spec_header_is_empty(protected.header)
    &&& (spec_header_map_error(protected.header) is Some || exists|value: CborValue|
        #![trigger spec_is_header_map(value, protected.header)]
        spec_is_header_map(value, protected.header) && ciborium_encoding(value) is None)
}

/// `bytes` are the authenticated bytes of `protected`: the bytes it was
/// decoded from, or the encoding of its map.
pub open spec fn spec_encoded_protected_is(protected: ProtectedHeader, bytes: Seq<u8>) -> bool {
    match protected.original_data {
        Some(original) => bytes == original@,
        None => exists|value: CborValue|
            #![trigger spec_is_header_map(value, protected.header)]
            spec_is_header_map(value, protected.header) && spec_encode_cbor_value(value) == Ok::<
                Seq<u8>,
                CoseError,
            >(bytes),
    }
}

/// Encoding the authenticated bytes of `protected` fails with `error`.
pub open spec fn spec_encoded_protected_fails(protected: ProtectedHeader, error: CoseError) -> bool {
    &&& protected.original_data is None
    &&& (spec_header_map_error(protected.header) == Some(error) || exists|value: CborValue|
        #![trigger spec_is_header_map(value, protected.header)]
        spec_is_header_map(value, protected.header) && spec_encode_cbor_value(value) == Err::<
            Seq<u8>,
            CoseError,
        >(error))
}

/// The authenticated bytes of a protected header.
pub fn encode_protected_header(protected: &ProtectedHeader) -> (r: Result<Vec<u8>, CoseError>)
    ensures
        match r {
            Ok(bytes) => spec_encoded_protected_is(*protected, bytes@),
            Err(error) => spec_encoded_protected_fails(*protected, error),
        },
{
    match &protected.original_data {
        Some(original) => Ok(vstd::slice::slice_to_vec(original.as_slice())),
        None => {
            let value = match header_value(&protected.header) {
                Ok(value) => value,
                Err(error) => return Err(error),
            };
            let r = encode_cbor_value(&value);
            match &r {
                Ok(bytes) => assert(spec_is_header_map(value, protected.header) && spec_encode_cbor_value(value) == Ok::<Seq<u8>, CoseError>(bytes@)),
                Err(error) => assert(spec_is_header_map(value, protected.header) && spec_encode_cbor_value(value) == Err::<Seq<u8>, CoseError>(*error)),
            }
            r
        },
    }
}

fn protected_bstr(protected: &ProtectedHeader) -> (r: Result<Vec<u8>, CoseError>)
    ensures
        match r {
            Ok(bytes) => spec_protected_bstr_is(*protected, bytes@),
            Err(error) => error == CoseError::Cbor && spec_protected_bstr_fails(*protected),
        },
{
    match &protected.original_data {
        Some(original) => Ok(vstd::slice::slice_to_vec(original.as_slice())),
        None => {
            let header = &protected.header;
            if header.alg.is_none() && header.key_id.len() == 0 && header.iv.len() == 0
                && header.rest.len() == 0 {
                return Ok(Vec::new());
            }
            let value = match header_value(header) {
                Ok(value) => value,
                Err(error) => return Err(error),
            };
            match ciborium_encode(&value) {
                Some(bytes) => {
                    assert(spec_is_header_map(value, protected.header));
                    Ok(bytes)
                },
                None => {
                    assert(spec_is_header_map(value, protected.header));
                    Err(CoseError::Cbor)
                },
            }
        },
    }
}

/// A protected header with the algorithm `algorithm` and, where given, the
/// key identifier `kid`.
pub fn protected_header(algorithm: RegisteredLabelWithPrivate, kid: Option<&[u8]>) -> (r: ProtectedHeader)
    ensures
        r.original_data is None,
        spec_header_holds(
            r.header,
            (
                Some(algorithm),
                match kid {
                    Some(kid) => if kid@.len() > 0 {
                        Some(kid@)
                    } else {
                        None
                    },
                    None => None,
                },
                None,
                None,
            ),
        ),
{
    let mut header = empty_header();
    header.alg = Some(algorithm);
    match kid {
        Some(kid) => {
            header.key_id = vstd::slice::slice_to_vec(kid);
            assert(kid@.len() == 0 ==> header.key_id@ =~= Seq::<u8>::empty());
        },
        None => {},
    }
    ProtectedHeader { original_data: None, header }
}

/// The unprotected recipient header carrying the ML-KEM ciphertext.
pub fn recipient_unprotected(encapsulated_key: Vec<u8>) -> (r: Header)
    ensures
        spec_header_holds(r, (None, None, None, Some(encapsulated_key@))),
{
    let mut header = empty_header();
    header.rest.push((Label::Int(REALLYME_COSE_HEADER_EK), CborValue::Bytes(encapsulated_key)));
    header
}

/// The unprotected body header carrying the content IV.
pub fn body_unprotected(iv: &[u8]) -> (r: Header)
    ensures
        spec_header_holds(
            r,
            (
                None,
                None,
                if iv@.len() > 0 {
                    Some(iv@)
                } else {
                    None
                },
                None,
            ),
        ),
{
    let mut header = empty_header();
    header.iv = vstd::slice::slice_to_vec(iv);
    assert(iv@.len() == 0 ==> header.iv@ =~= Seq::<u8>::empty());
    header
}

/// `value` is the byte string `bytes`.
pub open spec fn spec_is_bytes(value: CborValue, bytes: Seq<u8>) -> bool {
    value matches CborValue::Bytes(held) && held@ == bytes
}

/// `value` is the byte string `bytes`, or `null` where it is absent.
pub open spec fn spec_is_optional_bytes(value: CborValue, bytes: Option<Seq<u8>>) -> bool {
    match bytes {
        Some(bytes) => spec_is_bytes(value, bytes),
        None => value == CborValue::Null,
    }
}

/// `value` is the CBOR array of one layer: the protected header's byte
/// string, the unprotected header map and the ciphertext.
pub open spec fn spec_is_layer_value(
    value: CborValue,
    protected: ProtectedHeader,
    unprotected: Header,
    ciphertext: Option<Vec<u8>>,
) -> bool {
    &&& value matches CborValue::Array(items)
    &&& items@.len() >= 3
    &&& items@[0] matches CborValue::Bytes(bytes) && spec_protected_bstr_is(protected, bytes@)
    &&& spec_is_header_map(items@[1], unprotected)
    &&& spec_is_optional_bytes(items@[2], spec_opt_bytes(ciphertext))
}

/// Serializing the headers of one layer fails.
pub open spec fn spec_layer_fails(protected: ProtectedHeader, unprotected: Header) -> bool {
    spec_protected_bstr_fails(protected) || spec_header_map_error(unprotected) is Some
}

fn layer_items(
    protected: &ProtectedHeader,
    unprotected: &Header,
    ciphertext: &Option<Vec<u8>>,
) -> (r: Result<Vec<CborValue>, CoseError>)
    ensures
        match r {
            Ok(items) => items@.len() == 3 && spec_is_layer_value(
                CborValue::Array(items),
                *protected,
                *unprotected,
                *ciphertext,
            ),
            Err(error) => error == CoseError::Cbor && spec_layer_fails(*protected, *unprotected),
        },
{
    let protected_bytes = match protected_bstr(protected) {
        Ok(bytes) => bytes,
        Err(error) => return Err(error),
    };
    let unprotected_value = match header_value(unprotected) {
        Ok(value) => value,
        Err(error) => return Err(error),
    };
    let ciphertext_value = match ciphertext {
        Some(bytes) => CborValue::Bytes(vstd::slice::slice_to_vec(bytes.as_slice())),
        None => CborValue::Null,
    };
    let mut items: Vec<CborValue> = Vec::new();
    items.push(CborValue::Bytes(protected_bytes));
    items.push(unprotected_value);
    items.push(ciphertext_value);
    Ok(items)
}

/// Serializing a `COSE_Encrypt` model fails: the headers of its body or of
/// one of its recipients cannot be serialized.
pub open spec fn spec_cose_encrypt_fails(cose: CoseEncrypt) -> bool {
    spec_layer_fails(cose.protected, cose.unprotected) || exists|i: int|
        0 <= i < cose.recipients@.len() && spec_layer_fails(
            #[trigger] cose.recipients@[i].protected,
            cose.recipients@[i].unprotected,
        )
}

/// `value` is the CBOR array of `cose`: its body layer followed by the
/// array of its recipients' layers.
pub open spec fn spec_is_cose_encrypt_value(value: CborValue, cose: CoseEncrypt) -> bool {
    &&& value matches CborValue::Array(items)
    &&& items@.len() == 4
    &&& spec_is_layer_value(value, cose.protected, cose.unprotected, cose.ciphertext)
    &&& items@[3] matches CborValue::Array(recipients)
    &&& recipients@.len() == cose.recipients@.len()
    &&& forall|i: int|
        0 <= i < recipients@.len() ==> {
            &&& (#[trigger] recipients@[i]) matches CborValue::Array(layer)
            &&& layer@.len() == 3
            &&& spec_is_layer_value(
                recipients@[i],
                cose.recipients@[i].protected,
                cose.recipients@[i].unprotected,
                cose.recipients@[i].ciphertext,
            )
        }
}

/// Build the CBOR array of a `COSE_Encrypt` model.
pub fn cose_encrypt_value(cose: &CoseEncrypt) -> (r: Result<CborValue, CoseError>)
    ensures
        match r {
            Ok(value) => spec_is_cose_encrypt_value(value, *cose),
            Err(error) => error == CoseError::Cbor && spec_cose_encrypt_fails(*cose),
        },
{
    let mut items = match layer_items(&cose.protected, &cose.unprotected, &cose.ciphertext) {
        Ok(items) => items,
        Err(error) => return Err(error),
    };
    let mut recipients: Vec<CborValue> = Vec::new();
    let mut i: usize = 0;
    while i < cose.recipients.len()
        invariant
            i <= cose.recipients@.len(),
            recipients@.len() == i,
            forall|j: int|
                0 <= j < i ==> {
                    &&& (#[trigger] recipients@[j]) matches CborValue::Array(layer)
                    &&& layer@.len() == 3
                    &&& spec_is_layer_value(
                        recipients@[j],
                        cose.recipients@[j].protected,
                        cose.recipients@[j].unprotected,
                        cose.recipients@[j].ciphertext,
                    )
                },
        decreases cose.recipients@.len() - i,
    {
        let recipient = &cose.recipients[i];
        match layer_items(&recipient.protected, &recipient.unprotected, &recipient.ciphertext) {
            Ok(layer) => recipients.push(CborValue::Array(layer)),
            Err(error) => {
                assert(spec_layer_fails(cose.recipients@[i as int].protected, cose.recipients@[i as int].unprotected));
                return Err(error);
            },
        }
        i = i + 1;
    }
    items.push(CborValue::Array(recipients));
    Ok(CborValue::Array(items))
}

/// The result of encoding a tagged `COSE_Encrypt` item: the encoding of the
/// tag-96 item, which must not exceed the profile's size limit.
pub open spec fn spec_encode_tagged(value: CborValue) -> Result<Seq<u8>, CoseError> {
    match spec_encode_cbor_value(CborValue::Tag(COSE_ENCRYPT_TAG, Box::new(value))) {
        Err(error) => Err(error),
        Ok(bytes) => if bytes.len() > MAX_COSE_ENCRYPT_BYTES {
            Err(CoseError::ResourceLimitExceeded)
        } else {
            Ok(bytes)
        },
    }
}

/// Encode a `COSE_Encrypt` model as a tagged item within the profile's size
/// limit.
pub fn encode(cose: &CoseEncrypt) -> (r: Result<Vec<u8>, CoseError>)
    ensures
        match r {
            Ok(bytes) => exists|value: CborValue|
                #![trigger spec_is_cose_encrypt_value(value, *cose)]
                spec_is_cose_encrypt_value(value, *cose) && spec_encode_tagged(value) == Ok::<
                    Seq<u8>,
                    CoseError,
                >(bytes@),
            Err(error) => (error == CoseError::Cbor && spec_cose_encrypt_fails(*cose)) || exists|value: CborValue|
                #![trigger spec_is_cose_encrypt_value(value, *cose)]
                spec_is_cose_encrypt_value(value, *cose) && spec_encode_tagged(value) == Err::<
                    Seq<u8>,
                    CoseError,
                >(error),
        },
{
    let value = match cose_encrypt_value(cose) {
        Ok(value) => value,
        Err(error) => return Err(error),
    };
    let ghost untagged = value;
    let tagged = CborValue::Tag(COSE_ENCRYPT_TAG, Box::new(value));
    assert(tagged == CborValue::Tag(COSE_ENCRYPT_TAG, Box::new(untagged)));
    let encoded = match encode_cbor_value(&tagged) {
        Ok(encoded) => encoded,
        Err(error) => {
            assert(spec_is_cose_encrypt_value(untagged, *cose));
            assert(spec_encode_tagged(untagged) == Err::<Seq<u8>, CoseError>(error));
            return Err(error);
        },
    };
    if encoded.len() > MAX_COSE_ENCRYPT_BYTES {
        assert(spec_is_cose_encrypt_value(untagged, *cose));
        assert(spec_encode_tagged(untagged) == Err::<Seq<u8>, CoseError>(
            CoseError::ResourceLimitExceeded,
        ));
        return Err(CoseError::ResourceLimitExceeded);
    }
    assert(spec_is_cose_encrypt_value(untagged, *cose));
    assert(spec_encode_tagged(untagged) == Ok::<Seq<u8>, CoseError>(encoded@));
    Ok(encoded)
}

} // verus!
