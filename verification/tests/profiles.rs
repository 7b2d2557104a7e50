use reallyme_cose::algorithm::{
    Algorithm, CoseSignatureAlgorithm, RegisteredLabelWithPrivate, REALLYME_COSE_ALG_ML_KEM_1024,
    REALLYME_COSE_ALG_ML_KEM_1024_A256KW, REALLYME_COSE_ALG_ML_KEM_512,
    REALLYME_COSE_ALG_ML_KEM_512_A128KW, REALLYME_COSE_ALG_ML_KEM_768,
    REALLYME_COSE_ALG_ML_KEM_768_A192KW, REALLYME_COSE_HEADER_EK,
};
use reallyme_cose::bytes::constant_time_equal;
use reallyme_cose::cbor::{encode_cbor_value, encoded_upper_bound, CborValue};
use reallyme_cose::encrypt::profile::{
    content_algorithm_from_cose, content_algorithm_profile, suite_for, suite_from_cose_algorithm,
};
use reallyme_cose::encrypt::{CoseContentEncryptionAlgorithm, CoseMlKemAlgorithm, CoseMlKemMode};
use reallyme_cose::multikey::convert::{algorithm_for_codec_name, codec_name_for_algorithm};
use reallyme_cose::policy::validate::{algorithm_from_cose_alg, validate_cose_sign1_policy};
use reallyme_cose::policy::CosePolicy;
use reallyme_cose::CoseError;

const SIGNATURE_ALGORITHMS: [(CoseSignatureAlgorithm, i64, Algorithm); 9] = [
    (CoseSignatureAlgorithm::Ed25519, -19, Algorithm::Ed25519),
    (CoseSignatureAlgorithm::Es256, -7, Algorithm::P256),
    (CoseSignatureAlgorithm::Esp256, -9, Algorithm::P256),
    (CoseSignatureAlgorithm::Esp384, -51, Algorithm::P384),
    (CoseSignatureAlgorithm::Esp512, -52, Algorithm::P521),
    (CoseSignatureAlgorithm::Es256K, -47, Algorithm::Secp256k1),
    (CoseSignatureAlgorithm::MlDsa44, -48, Algorithm::MlDsa44),
    (CoseSignatureAlgorithm::MlDsa65, -49, Algorithm::MlDsa65),
    (CoseSignatureAlgorithm::MlDsa87, -50, Algorithm::MlDsa87),
];

#[test]
fn signature_registrations_round_trip_through_their_identifiers() {
    for (algorithm, identifier, primitive) in SIGNATURE_ALGORITHMS {
        assert_eq!(algorithm.identifier(), identifier);
        assert_eq!(CoseSignatureAlgorithm::from_identifier(identifier), Ok(algorithm));
        assert_eq!(algorithm.crypto_algorithm(), primitive);
    }
    assert_eq!(CoseSignatureAlgorithm::from_identifier(-8), Err(CoseError::UnsupportedAlgorithm));
    assert_eq!(CoseSignatureAlgorithm::from_identifier(0), Err(CoseError::UnsupportedAlgorithm));
    assert_eq!(
        CoseSignatureAlgorithm::from_crypto_algorithm(Algorithm::P256),
        Ok(CoseSignatureAlgorithm::Esp256)
    );
    assert_eq!(
        CoseSignatureAlgorithm::from_crypto_algorithm(Algorithm::X25519),
        Err(CoseError::UnsupportedAlgorithm)
    );
}

#[test]
fn ml_kem_suites_use_the_private_use_identifiers() {
    let cases = [
        (CoseMlKemAlgorithm::MlKem512, CoseMlKemMode::Direct, REALLYME_COSE_ALG_ML_KEM_512, -65_537),
        (CoseMlKemAlgorithm::MlKem768, CoseMlKemMode::Direct, REALLYME_COSE_ALG_ML_KEM_768, -65_538),
        (CoseMlKemAlgorithm::MlKem1024, CoseMlKemMode::Direct, REALLYME_COSE_ALG_ML_KEM_1024, -65_539),
        (CoseMlKemAlgorithm::MlKem512, CoseMlKemMode::KeyWrap, REALLYME_COSE_ALG_ML_KEM_512_A128KW, -65_540),
        (CoseMlKemAlgorithm::MlKem768, CoseMlKemMode::KeyWrap, REALLYME_COSE_ALG_ML_KEM_768_A192KW, -65_541),
        (CoseMlKemAlgorithm::MlKem1024, CoseMlKemMode::KeyWrap, REALLYME_COSE_ALG_ML_KEM_1024_A256KW, -65_542),
    ];
    for (kem, mode, constant, literal) in cases {
        assert_eq!(constant, literal);
        let suite = suite_for(kem, mode).expect("suite");
        assert_eq!(suite.cose_algorithm, literal);
        assert_eq!(suite.kem, kem);
        assert_eq!(suite.mode, mode);
        let decoded = suite_from_cose_algorithm(&RegisteredLabelWithPrivate::PrivateUse(literal)).expect("decoded");
        assert_eq!(decoded, suite);
    }
    assert_eq!(REALLYME_COSE_HEADER_EK, -65_543);
    let suite = suite_for(CoseMlKemAlgorithm::MlKem1024, CoseMlKemMode::KeyWrap).expect("suite");
    assert_eq!(suite.kek_length, Some(32));
    assert_eq!(suite.key_wrap_algorithm_id, Some(-5));
    assert_eq!(suite.public_key_length, 1_568);
    assert_eq!(suite.encapsulated_key_length, 1_568);
    assert_eq!(
        suite_from_cose_algorithm(&RegisteredLabelWithPrivate::Assigned(-65_538)),
        Err(CoseError::UnsupportedAlgorithm)
    );
}

#[test]
fn content_algorithms_map_to_iana_aes_gcm() {
    let cases = [
        (CoseContentEncryptionAlgorithm::Aes128Gcm, 1, 16),
        (CoseContentEncryptionAlgorithm::Aes192Gcm, 2, 24),
        (CoseContentEncryptionAlgorithm::Aes256Gcm, 3, 32),
    ];
    for (algorithm, identifier, key_length) in cases {
        assert_eq!(content_algorithm_profile(algorithm), (identifier, key_length));
        assert_eq!(
            content_algorithm_from_cose(&RegisteredLabelWithPrivate::Assigned(identifier)),
            Ok(algorithm)
        );
    }
    assert!(content_algorithm_from_cose(&RegisteredLabelWithPrivate::Assigned(4)).is_err());
}

#[test]
fn multikey_codec_names_round_trip() {
    let names = [
        (Algorithm::Ed25519, "ed25519-pub"),
        (Algorithm::X25519, "x25519-pub"),
        (Algorithm::P256, "p256-pub"),
        (Algorithm::P384, "p384-pub"),
        (Algorithm::P521, "p521-pub"),
        (Algorithm::Secp256k1, "secp256k1-pub"),
        (Algorithm::MlDsa44, "mldsa-44-pub"),
        (Algorithm::MlDsa65, "mldsa-65-pub"),
        (Algorithm::MlDsa87, "mldsa-87-pub"),
        (Algorithm::MlKem512, "mlkem-512-pub"),
        (Algorithm::MlKem768, "mlkem-768-pub"),
        (Algorithm::MlKem1024, "mlkem-1024-pub"),
    ];
    for (algorithm, name) in names {
        assert_eq!(codec_name_for_algorithm(algorithm), Ok(name));
        assert_eq!(algorithm_for_codec_name(name), Ok(algorithm));
    }
    assert!(algorithm_for_codec_name("ed448-pub").is_err());
    assert!(codec_name_for_algorithm(Algorithm::XWing768).is_err());
}

#[test]
fn sign1_policy_checks_kid_and_allow_list() {
    let default = CosePolicy::new();
    assert!(!default.require_kid());
    assert!(default.allowed_algorithms().is_empty());
    let es256 = RegisteredLabelWithPrivate::Assigned(-7);
    assert_eq!(validate_cose_sign1_policy(Some(&es256), &[], &default), Ok(()));
    assert_eq!(validate_cose_sign1_policy(None, &[], &default), Ok(()));

    let policy = CosePolicy::new().with_require_kid(true).allow_algorithm(Algorithm::P256);
    assert_eq!(validate_cose_sign1_policy(Some(&es256), &[], &policy), Err(CoseError::MissingKid));
    assert_eq!(validate_cose_sign1_policy(Some(&es256), b"k", &policy), Ok(()));
    let ed25519 = RegisteredLabelWithPrivate::Assigned(-19);
    assert_eq!(
        validate_cose_sign1_policy(Some(&ed25519), b"k", &policy),
        Err(CoseError::UnsupportedAlgorithm)
    );
    assert_eq!(validate_cose_sign1_policy(None, b"k", &policy), Err(CoseError::UnsupportedAlgorithm));
    assert_eq!(algorithm_from_cose_alg(&ed25519), Ok(Algorithm::Ed25519));

    let limits = CosePolicy::new().with_max_cose_sign1_bytes(10).with_max_detached_payload_bytes(20);
    assert_eq!(limits.max_cose_sign1_bytes(), 10);
    assert_eq!(limits.max_detached_payload_bytes(), 20);
    let listed = CosePolicy::new().with_allowed_algorithms(vec![Algorithm::Ed25519]);
    assert_eq!(listed.allowed_algorithms(), &[Algorithm::Ed25519]);
}

#[test]
fn constant_time_equality_compares_whole_slices() {
    assert!(constant_time_equal(b"abc", b"abc"));
    assert!(!constant_time_equal(b"abc", b"abd"));
    assert!(!constant_time_equal(b"abc", b"ab"));
    assert!(constant_time_equal(b"", b""));
}

#[test]
fn cbor_encoding_and_its_size_bound() {
    let value = CborValue::Array(vec![
        CborValue::Integer(1),
        CborValue::Bytes(vec![0xFF; 3]),
        CborValue::Text("hi".to_string()),
        CborValue::Mapping(vec![(CborValue::Integer(-1), CborValue::Bool(true))]),
        CborValue::Null,
    ]);
    let bytes = encode_cbor_value(&value).expect("encoded");
    assert_eq!(
        bytes,
        vec![0x85, 0x01, 0x43, 0xFF, 0xFF, 0xFF, 0x62, b'h', b'i', 0xA1, 0x20, 0xF5, 0xF6]
    );
    let bound = encoded_upper_bound(&value).expect("bound");
    assert!(bound >= bytes.len());
    assert_eq!(encoded_upper_bound(&CborValue::Bytes(vec![0; 10])), Ok(19));
    assert_eq!(encoded_upper_bound(&CborValue::Integer(0)), Ok(9));
    let tagged = CborValue::Tag(96, Box::new(CborValue::Null));
    assert_eq!(encode_cbor_value(&tagged), Ok(vec![0xD8, 0x60, 0xF6]));
}
