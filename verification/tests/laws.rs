use reallyme_cose::algorithm::{Algorithm, Label, RegisteredLabelWithPrivate};
use reallyme_cose::boundary::{boundary_error_from_failure, CoseErrorReason, CoseWireErrorBranch};
use reallyme_cose::cbor::CborValue;
use reallyme_cose::encrypt::codec::{
    body_unprotected, decode_encrypt_header, header_value, protected_header,
    recipient_unprotected, EncryptHeaderBucket,
};
use reallyme_cose::failure::CoseFailure;
use reallyme_cose::key::convert::{construct_cose_key_from_public_impl, MaterialCheck};
use reallyme_cose::key::encode::encode_cose_key_value;
use reallyme_cose::key::extract::extract_cose_key_public_impl;
use reallyme_cose::multikey::convert::{cose_key_from_multikey_parts, cose_key_multikey_parts};
use reallyme_cose::CoseError;

#[test]
fn every_header_bucket_reads_back_what_was_written() {
    let recipient = protected_header(RegisteredLabelWithPrivate::PrivateUse(-65_538), Some(&[7u8; 32]));
    let value = header_value(&recipient.header).expect("map");
    let decoded = decode_encrypt_header(&value, EncryptHeaderBucket::RecipientProtected).expect("decoded");
    assert_eq!(decoded.alg, Some(RegisteredLabelWithPrivate::PrivateUse(-65_538)));
    assert_eq!(decoded.key_id, vec![7u8; 32]);

    let body = protected_header(RegisteredLabelWithPrivate::Assigned(3), None);
    let value = header_value(&body.header).expect("map");
    let decoded = decode_encrypt_header(&value, EncryptHeaderBucket::BodyProtected).expect("decoded");
    assert_eq!(decoded.alg, Some(RegisteredLabelWithPrivate::Assigned(3)));

    let iv = body_unprotected(&[9u8; 12]);
    let value = header_value(&iv).expect("map");
    let decoded = decode_encrypt_header(&value, EncryptHeaderBucket::BodyUnprotected).expect("decoded");
    assert_eq!(decoded.iv, vec![9u8; 12]);

    let ek = recipient_unprotected(vec![5u8; 768]);
    let value = header_value(&ek).expect("map");
    let decoded = decode_encrypt_header(&value, EncryptHeaderBucket::RecipientUnprotected).expect("decoded");
    assert_eq!(decoded.rest.len(), 1);
    assert_eq!(decoded.rest[0].0, Label::Int(-65_543));
    assert!(matches!(&decoded.rest[0].1, CborValue::Bytes(bytes) if *bytes == vec![5u8; 768]));
}

#[test]
fn parameters_outside_their_bucket_are_refused() {
    let body = protected_header(RegisteredLabelWithPrivate::Assigned(3), None);
    let value = header_value(&body.header).expect("map");
    assert_eq!(
        decode_encrypt_header(&value, EncryptHeaderBucket::BodyUnprotected).err(),
        Some(CoseError::UnprotectedHeaderNotAllowed)
    );
    let iv = body_unprotected(&[9u8; 12]);
    let value = header_value(&iv).expect("map");
    assert_eq!(
        decode_encrypt_header(&value, EncryptHeaderBucket::RecipientUnprotected).err(),
        Some(CoseError::InvalidRecipient)
    );
    let duplicate = CborValue::Mapping(vec![
        (CborValue::Integer(1), CborValue::Integer(3)),
        (CborValue::Integer(1), CborValue::Integer(3)),
    ]);
    assert_eq!(
        decode_encrypt_header(&duplicate, EncryptHeaderBucket::BodyProtected).err(),
        Some(CoseError::DuplicateMapLabel)
    );
}

#[test]
fn public_keys_round_trip_through_cose_key() {
    let cases: [(Algorithm, Vec<u8>); 5] = [
        (Algorithm::Ed25519, vec![1u8; 32]),
        (Algorithm::X25519, vec![2u8; 32]),
        (Algorithm::MlDsa44, vec![3u8; 1_312]),
        (Algorithm::MlKem512, vec![4u8; 800]),
        (Algorithm::MlKem1024, vec![5u8; 1_568]),
    ];
    for (algorithm, public_key) in cases {
        let construction =
            construct_cose_key_from_public_impl(algorithm, None, &public_key).expect("built");
        let (extracted, checks) = extract_cose_key_public_impl(&construction.key).expect("extracted");
        assert_eq!(extracted, public_key);
        assert!(!checks.is_empty());
    }
}

#[test]
fn multikey_parts_round_trip_through_cose_key() {
    let construction = cose_key_from_multikey_parts("p384-pub", &[0x04; 97]).expect("built");
    let (name, public_key, _) = cose_key_multikey_parts(&construction.key).expect("parts");
    assert_eq!(name, "p384-pub");
    assert_eq!(public_key.len(), 49);
    let construction = cose_key_from_multikey_parts("mlkem-768-pub", &[6u8; 1_184]).expect("built");
    let (name, public_key, _) = cose_key_multikey_parts(&construction.key).expect("parts");
    assert_eq!(name, "mlkem-768-pub");
    assert_eq!(public_key, vec![6u8; 1_184]);
    assert!(cose_key_from_multikey_parts("ed448-pub", &[0u8; 57]).is_err());
}

#[test]
fn the_boundary_reports_each_origin_on_its_branch() {
    let provider = boundary_error_from_failure(CoseFailure::from(CoseError::ProviderUnavailable));
    assert_eq!(provider.branch(), CoseWireErrorBranch::Provider);
    assert_eq!(provider.reason(), CoseErrorReason::ProviderUnavailable);
    let backend = boundary_error_from_failure(CoseFailure::from(CoseError::Crypto));
    assert_eq!(backend.branch(), CoseWireErrorBranch::Backend);
    let caller = boundary_error_from_failure(CoseFailure::from(CoseError::InvalidIv));
    assert_eq!(caller.branch(), CoseWireErrorBranch::Primitive);
}

#[test]
fn raw_and_uncompressed_points_build_one_key() {
    let x: Vec<u8> = (1u8..33).collect();
    let y: Vec<u8> = (40u8..72).collect();
    let mut raw = x.clone();
    raw.extend_from_slice(&y);
    let mut sec1 = vec![0x04u8];
    sec1.extend_from_slice(&raw);
    let from_raw = construct_cose_key_from_public_impl(Algorithm::P256, None, &raw).expect("raw");
    let from_sec1 = construct_cose_key_from_public_impl(Algorithm::P256, None, &sec1).expect("sec1");
    assert_eq!(
        encode_cose_key_value(&from_raw.key).expect("encoded"),
        encode_cose_key_value(&from_sec1.key).expect("encoded")
    );
    match (&from_raw.checks[0], &from_sec1.checks[0]) {
        (MaterialCheck::PublicKey { public_key: a, .. }, MaterialCheck::PublicKey { public_key: b, .. }) => {
            assert_eq!(a, b);
            assert_eq!(*a, sec1);
        }
        _ => panic!("a public-key check is expected"),
    }
    let mut compressed = vec![if y[31] % 2 == 1 { 0x03u8 } else { 0x02u8 }];
    compressed.extend_from_slice(&x);
    let from_compressed =
        construct_cose_key_from_public_impl(Algorithm::P256, None, &compressed).expect("compressed");
    assert_eq!(
        encode_cose_key_value(&from_compressed.key).expect("encoded"),
        encode_cose_key_value(&from_raw.key).expect("encoded")
    );
}
