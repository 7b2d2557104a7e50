use reallyme_cose::limits::{
    validate_cbor_bytes, validate_cose_encrypt_bytes, validate_cose_key_bytes,
    validate_cose_sign1_bytes_with_limit, validate_detached_payload_with_limit,
    validate_protected_header_bytes, CborItemRole, MAX_COSE_KEY_BYTES,
};
use reallyme_cose::CoseError;

const LARGE_MAP_ENTRIES: u64 = 1_024;

#[test]
fn large_map_with_unique_raw_keys_validates_linearly() {
    let cbor = integer_key_map(LARGE_MAP_ENTRIES, None);
    assert_eq!(
        validate_cbor_bytes(&cbor, cbor.len(), CborItemRole::Normal),
        Ok(()),
    );
}

#[test]
fn large_map_with_late_duplicate_raw_key_is_rejected() {
    let unique_entries = LARGE_MAP_ENTRIES.saturating_sub(1);
    let duplicate_key = unique_entries.saturating_sub(1);
    let cbor = integer_key_map(unique_entries, Some(duplicate_key));
    assert_eq!(
        validate_cbor_bytes(&cbor, cbor.len(), CborItemRole::Normal),
        Err(CoseError::DuplicateMapLabel),
    );
}

#[test]
fn impossible_map_length_is_rejected_before_key_tracking_allocation() {
    let mut cbor = vec![0xbb];
    cbor.extend_from_slice(&u64::MAX.to_be_bytes());
    assert!(matches!(
        validate_cbor_bytes(&cbor, cbor.len(), CborItemRole::Normal),
        Err(CoseError::Cbor | CoseError::ResourceLimitExceeded),
    ));
}

#[test]
fn collection_over_limit_is_rejected_before_key_tracking_allocation() {
    let cbor = integer_key_map(LARGE_MAP_ENTRIES + 1, None);
    assert_eq!(
        validate_cbor_bytes(&cbor, cbor.len(), CborItemRole::Normal),
        Err(CoseError::ResourceLimitExceeded),
    );
}

#[test]
fn overlong_simple_value_is_non_canonical() {
    assert_eq!(
        validate_cbor_bytes(&[0xf8, 0x00], 2, CborItemRole::Normal),
        Err(CoseError::NonCanonicalCbor),
    );
}

#[test]
fn floating_point_extension_values_are_rejected() {
    let encodings: [&[u8]; 3] = [
        &[0xf9, 0x3c, 0x00],
        &[0xfa, 0x3f, 0x80, 0x00, 0x00],
        &[0xfb, 0x3f, 0xf0, 0x00, 0x00, 0x00, 0x00, 0x00, 0x00],
    ];
    for encoding in encodings {
        assert_eq!(
            validate_cbor_bytes(encoding, encoding.len(), CborItemRole::Normal),
            Err(CoseError::NonCanonicalCbor),
        );
    }
}

#[test]
fn invalid_utf8_is_rejected_before_sensitive_tree_decode() {
    let cbor = [0xa2, 0x23, 0x41, 0xaa, 0x61, 0xff, 0x00];
    assert_eq!(
        validate_cbor_bytes(&cbor, cbor.len(), CborItemRole::CoseKeyTop),
        Err(CoseError::Cbor),
    );
}

#[test]
fn cose_key_map_uses_core_deterministic_bytewise_key_order() {
    // {24: null, -1: null}. The encoded key 0x18 0x18 sorts before 0x20
    // under RFC 8949 core deterministic bytewise ordering.
    let cbor = [0xa2, 0x18, 0x18, 0xf6, 0x20, 0xf6];
    assert_eq!(
        validate_cbor_bytes(&cbor, cbor.len(), CborItemRole::CoseKeyTop),
        Ok(()),
    );
}

#[test]
fn cose_key_map_rejects_length_first_order_that_violates_core_deterministic_order() {
    let cbor = [0xa2, 0x20, 0xf6, 0x18, 0x18, 0xf6];
    assert_eq!(
        validate_cbor_bytes(&cbor, cbor.len(), CborItemRole::CoseKeyTop),
        Err(CoseError::NonCanonicalCbor),
    );
}

#[test]
fn empty_input_is_rejected() {
    assert_eq!(validate_cbor_bytes(&[], 10, CborItemRole::Normal), Err(CoseError::Cbor));
}

#[test]
fn input_over_limit_is_rejected_before_parsing() {
    assert_eq!(
        validate_cbor_bytes(&[0x00, 0x00], 1, CborItemRole::Normal),
        Err(CoseError::ResourceLimitExceeded),
    );
    let oversized = vec![0u8; MAX_COSE_KEY_BYTES + 1];
    assert_eq!(validate_cose_key_bytes(&oversized), Err(CoseError::ResourceLimitExceeded));
}

#[test]
fn trailing_bytes_are_rejected() {
    assert_eq!(validate_cbor_bytes(&[0x01, 0x02], 2, CborItemRole::Normal), Err(CoseError::Cbor));
}

#[test]
fn indefinite_lengths_are_non_canonical() {
    for first in [0x5f_u8, 0x7f, 0x9f, 0xbf] {
        assert_eq!(
            validate_cbor_bytes(&[first, 0xff], 2, CborItemRole::Normal),
            Err(CoseError::NonCanonicalCbor),
        );
    }
    // The break code and indefinite integers are malformed.
    assert_eq!(validate_cbor_bytes(&[0xff], 1, CborItemRole::Normal), Err(CoseError::Cbor));
    assert_eq!(validate_cbor_bytes(&[0x1f], 1, CborItemRole::Normal), Err(CoseError::Cbor));
}

#[test]
fn non_shortest_arguments_are_non_canonical() {
    let cases: [&[u8]; 4] = [
        &[0x18, 0x17],
        &[0x19, 0x00, 0xff],
        &[0x1a, 0x00, 0x00, 0xff, 0xff],
        &[0x1b, 0x00, 0x00, 0x00, 0x00, 0xff, 0xff, 0xff, 0xff],
    ];
    for case in cases {
        assert_eq!(
            validate_cbor_bytes(case, case.len(), CborItemRole::Normal),
            Err(CoseError::NonCanonicalCbor),
        );
    }
    assert_eq!(validate_cbor_bytes(&[0x18, 0x18], 2, CborItemRole::Normal), Ok(()));
    assert_eq!(validate_cbor_bytes(&[0x19, 0x01, 0x00], 3, CborItemRole::Normal), Ok(()));
}

#[test]
fn truncated_items_are_malformed() {
    assert_eq!(validate_cbor_bytes(&[0x19, 0x01], 2, CborItemRole::Normal), Err(CoseError::Cbor));
    assert_eq!(validate_cbor_bytes(&[0x43, 0x01, 0x02], 3, CborItemRole::Normal), Err(CoseError::Cbor));
    assert_eq!(validate_cbor_bytes(&[0x82, 0x01], 2, CborItemRole::Normal), Err(CoseError::Cbor));
}

#[test]
fn tags_are_rejected_outside_cose_roots() {
    assert_eq!(
        validate_cbor_bytes(&[0xc1, 0x00], 2, CborItemRole::Normal),
        Err(CoseError::UnexpectedCborTag),
    );
    // Tag 18 is only accepted around a COSE_Sign1 root.
    assert_eq!(
        validate_cbor_bytes(&[0xd2, 0x00], 2, CborItemRole::Normal),
        Err(CoseError::UnexpectedCborTag),
    );
}

#[test]
fn nesting_deeper_than_the_limit_is_rejected() {
    let mut deep = vec![0x81_u8; 33];
    deep.push(0x00);
    assert_eq!(
        validate_cbor_bytes(&deep, deep.len(), CborItemRole::Normal),
        Err(CoseError::ResourceLimitExceeded),
    );
    let mut ok = vec![0x81_u8; 32];
    ok.push(0x00);
    assert_eq!(validate_cbor_bytes(&ok, ok.len(), CborItemRole::Normal), Ok(()));
}

#[test]
fn cose_sign1_shapes() {
    // [h'', {}, h'', h'']: untagged and tagged.
    let body = [0x84, 0x40, 0xa0, 0x40, 0x40];
    assert_eq!(validate_cose_sign1_bytes_with_limit(&body, 100), Ok(()));
    let mut tagged = vec![0xd2];
    tagged.extend_from_slice(&body);
    assert_eq!(validate_cose_sign1_bytes_with_limit(&tagged, 100), Ok(()));
    // Wrong arity.
    assert_eq!(
        validate_cose_sign1_bytes_with_limit(&[0x83, 0x40, 0xa0, 0x40], 100),
        Err(CoseError::InvalidFormat),
    );
    // A protected header that is not a map.
    assert_eq!(
        validate_cose_sign1_bytes_with_limit(&[0x84, 0x41, 0x01, 0xa0, 0x40, 0x40], 100),
        Err(CoseError::InvalidFormat),
    );
    // A protected header map {1: -8}.
    assert_eq!(
        validate_cose_sign1_bytes_with_limit(&[0x84, 0x43, 0xa1, 0x01, 0x27, 0xa0, 0x40, 0x40], 100),
        Ok(()),
    );
}

#[test]
fn cose_encrypt_recipient_shapes() {
    // [h'', {}, null, [[h'', {}, null]]]
    let one = [0x84, 0x40, 0xa0, 0xf6, 0x81, 0x83, 0x40, 0xa0, 0xf6];
    assert_eq!(validate_cose_encrypt_bytes(&one), Ok(()));
    let mut tagged = vec![0xd8, 0x60];
    tagged.extend_from_slice(&one);
    assert_eq!(validate_cose_encrypt_bytes(&tagged), Ok(()));
    // Two recipients.
    let two = [0x84, 0x40, 0xa0, 0xf6, 0x82, 0x83, 0x40, 0xa0, 0xf6, 0x83, 0x40, 0xa0, 0xf6];
    assert_eq!(validate_cose_encrypt_bytes(&two), Err(CoseError::InvalidRecipient));
    // A top-level map.
    assert_eq!(validate_cose_encrypt_bytes(&[0xa0]), Err(CoseError::InvalidFormat));
}

#[test]
fn protected_header_maps() {
    assert_eq!(validate_protected_header_bytes(&[]), Ok(()));
    assert_eq!(validate_protected_header_bytes(&[0xa0]), Ok(()));
    assert_eq!(validate_protected_header_bytes(&[0x80]), Err(CoseError::InvalidFormat));
}

#[test]
fn detached_payload_limit() {
    assert_eq!(validate_detached_payload_with_limit(&[0; 4], 4), Ok(()));
    assert_eq!(
        validate_detached_payload_with_limit(&[0; 5], 4),
        Err(CoseError::ResourceLimitExceeded),
    );
}

fn integer_key_map(unique_entries: u64, duplicate_key: Option<u64>) -> Vec<u8> {
    let total_entries = unique_entries + u64::from(duplicate_key.is_some());
    let mut cbor = Vec::new();
    append_major(&mut cbor, 5, total_entries);
    for key in 0..unique_entries {
        append_major(&mut cbor, 0, key);
        cbor.push(0xf6);
    }
    if let Some(key) = duplicate_key {
        append_major(&mut cbor, 0, key);
        cbor.push(0xf6);
    }
    cbor
}

fn append_major(output: &mut Vec<u8>, major: u8, value: u64) {
    let major_bits = major << 5;
    match value {
        0..=23 => output.push(major_bits | u8::try_from(value).unwrap_or(0)),
        24..=0xff => {
            output.push(major_bits | 24);
            output.push(u8::try_from(value).unwrap_or(0));
        }
        0x100..=0xffff => {
            output.push(major_bits | 25);
            output.extend_from_slice(&u16::try_from(value).unwrap_or(0).to_be_bytes());
        }
        0x1_0000..=0xffff_ffff => {
            output.push(major_bits | 26);
            output.extend_from_slice(&u32::try_from(value).unwrap_or(0).to_be_bytes());
        }
        _ => {
            output.push(major_bits | 27);
            output.extend_from_slice(&value.to_be_bytes());
        }
    }
}
