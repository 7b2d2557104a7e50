use ciborium::value::Value;
use coset::{iana, CborSerializable, CoseKeyBuilder};
use reallyme_cose::algorithm::{Algorithm, CoseSignatureAlgorithm};
use reallyme_cose::key::convert::{
    construct_cose_key_from_private_impl, construct_cose_key_from_public_impl,
    construct_cose_key_from_public_with_encoding_impl, ec_key_from_point,
    expand_canonical_ec_point, DecompressedPoint, EncodedPublicKey, MaterialCheck,
};
use reallyme_cose::key::derive_kid::{canonical_ml_kem_public_key_bytes, canonical_public_key_bytes};
use reallyme_cose::key::ec::{canonical_ec_public_key, compress_point, point_validation_input};
use reallyme_cose::key::encode::encode_cose_key_value;
use reallyme_cose::key::encoding::CoseEc2PointEncoding;
use reallyme_cose::key::extract::{extract_cose_key_private_impl, extract_cose_key_public_impl};
use reallyme_cose::key::parse::parse_cose_key;
use reallyme_cose::key::profile::ec2_profile;
use reallyme_cose::key::validate::validate_cose_key_profile;
use reallyme_cose::algorithm::{Label, RegisteredLabel, RegisteredLabelWithPrivate};
use reallyme_cose::cbor::CborValue;
use reallyme_cose::key::owned::CoseKey;
use reallyme_cose::key::wipe::{wipe_cose_key, wipe_value};
use reallyme_cose::CoseError;

fn p256_point() -> (Vec<u8>, Vec<u8>) {
    let x: Vec<u8> = (0u8..32).collect();
    let y: Vec<u8> = (100u8..132).collect();
    (x, y)
}

#[test]
fn ed25519_public_key_encodes_as_coset_does() {
    let public_key = [0x11u8; 32];
    let construction =
        construct_cose_key_from_public_impl(Algorithm::Ed25519, None, &public_key).expect("built");
    assert_eq!(construction.checks.len(), 1);
    assert!(matches!(
        &construction.checks[0],
        MaterialCheck::PublicKey { algorithm: Algorithm::Ed25519, public_key: p } if p.as_slice() == public_key
    ));
    let bytes = encode_cose_key_value(&construction.key).expect("encoded");
    let expected = CoseKeyBuilder::new_okp_key()
        .param(iana::OkpKeyParameter::Crv as i64, Value::Integer((iana::EllipticCurve::Ed25519 as i64).into()))
        .param(iana::OkpKeyParameter::X as i64, Value::Bytes(public_key.to_vec()))
        .algorithm(iana::Algorithm::Ed25519)
        .build()
        .to_vec()
        .expect("coset encodes");
    assert_eq!(bytes, expected);
}

#[test]
fn parsed_key_reencodes_to_the_same_bytes() {
    let public_key = [0x22u8; 32];
    let construction =
        construct_cose_key_from_public_impl(Algorithm::Ed25519, None, &public_key).expect("built");
    let bytes = encode_cose_key_value(&construction.key).expect("encoded");
    let (parsed, checks) = parse_cose_key(&bytes).expect("parsed");
    assert!(!checks.is_empty());
    assert_eq!(encode_cose_key_value(&parsed).expect("encoded"), bytes);
    let (extracted, _) = extract_cose_key_public_impl(&parsed).expect("public key");
    assert_eq!(extracted, public_key.to_vec());
}

#[test]
fn parse_rejects_empty_and_tagged_input() {
    assert!(parse_cose_key(&[]).is_err());
    assert!(parse_cose_key(&[0xC0, 0xA0]).is_err());
}

#[test]
fn raw_p256_point_is_stored_compressed_after_full_point_validation() {
    let (x, y) = p256_point();
    let mut raw = x.clone();
    raw.extend_from_slice(&y);
    let construction =
        construct_cose_key_from_public_impl(Algorithm::P256, None, &raw).expect("built");
    let mut sec1 = vec![0x04u8];
    sec1.extend_from_slice(&raw);
    assert!(matches!(
        &construction.checks[0],
        MaterialCheck::PublicKey { algorithm: Algorithm::P256, public_key: p } if *p == sec1
    ));
    let bytes = encode_cose_key_value(&construction.key).expect("encoded");
    let expected = CoseKeyBuilder::new_ec2_pub_key_y_sign(iana::EllipticCurve::P_256, x.clone(), true)
        .algorithm(iana::Algorithm::ESP256)
        .build()
        .to_vec()
        .expect("coset encodes");
    assert_eq!(bytes, expected);
}

#[test]
fn es256_registration_is_kept_in_the_key() {
    let (x, y) = p256_point();
    let mut sec1 = vec![0x04u8];
    sec1.extend_from_slice(&x);
    sec1.extend_from_slice(&y);
    let construction = construct_cose_key_from_public_impl(
        Algorithm::P256,
        Some(CoseSignatureAlgorithm::Es256),
        &sec1,
    )
    .expect("built");
    let bytes = encode_cose_key_value(&construction.key).expect("encoded");
    let expected = CoseKeyBuilder::new_ec2_pub_key_y_sign(iana::EllipticCurve::P_256, x, true)
        .algorithm(iana::Algorithm::ES256)
        .build()
        .to_vec()
        .expect("coset encodes");
    assert_eq!(bytes, expected);
    assert!(validate_cose_key_profile(&construction.key).is_ok());
    let (parsed, _checks) = parse_cose_key(&bytes).expect("an ES256 key parses");
    assert_eq!(encode_cose_key_value(&parsed).expect("encoded"), bytes);
    let esp256 = construct_cose_key_from_public_impl(
        Algorithm::P256,
        Some(CoseSignatureAlgorithm::Esp256),
        &sec1,
    )
    .expect("built");
    assert_ne!(encode_cose_key_value(&esp256.key).expect("encoded"), bytes);
    assert!(matches!(
        construct_cose_key_from_public_impl(Algorithm::P384, Some(CoseSignatureAlgorithm::Es256), &sec1),
        Err(CoseError::UnsupportedAlgorithm)
    ));
}

#[test]
fn point_forms_and_compression() {
    let profile = ec2_profile(Algorithm::P256).expect("profile");
    let (x, y) = p256_point();
    let mut raw = x.clone();
    raw.extend_from_slice(&y);
    let canonical = canonical_ec_public_key(profile, &raw, Ok(())).expect("canonical");
    assert_eq!(canonical, compress_point(&x, *y.last().unwrap()));
    assert_eq!(canonical[0], 0x03);
    assert_eq!(compress_point(&[1, 2], 0x10), vec![0x02, 1, 2]);
    let mut sec1 = vec![0x04u8];
    sec1.extend_from_slice(&raw);
    assert_eq!(point_validation_input(profile, &raw).expect("input"), sec1);
    assert_eq!(point_validation_input(profile, &canonical).expect("input"), canonical);
    assert_eq!(canonical_ec_public_key(profile, &[0x05; 33], Ok(())), Err(CoseError::InvalidKeyMaterial));
    assert_eq!(canonical_ec_public_key(profile, &canonical, Ok(())), Ok(canonical.clone()));
    assert_eq!(canonical.len(), 33);
}

#[test]
fn an_off_curve_point_is_refused_not_compressed() {
    let profile = ec2_profile(Algorithm::P256).expect("profile");
    let off_curve = vec![0u8; 64];
    assert_eq!(
        canonical_ec_public_key(profile, &off_curve, Err(CoseError::InvalidKeyMaterial)),
        Err(CoseError::InvalidKeyMaterial)
    );
    // A malformed point is refused before the provider's verdict is consulted.
    assert_eq!(
        canonical_ec_public_key(profile, &[0x04; 10], Err(CoseError::Crypto)),
        Err(CoseError::InvalidKeyMaterial)
    );
}

#[test]
fn full_coordinate_encoding_expands_the_canonical_point() {
    let (x, y) = p256_point();
    let mut raw = x.clone();
    raw.extend_from_slice(&y);
    let plan = construct_cose_key_from_public_with_encoding_impl(
        Algorithm::Secp256k1,
        None,
        &raw,
        CoseEc2PointEncoding::FullCoordinates,
    )
    .expect("plan");
    let (profile, canonical) = match plan {
        EncodedPublicKey::Expand { profile, canonical, .. } => (profile, canonical),
        EncodedPublicKey::Built(_) => panic!("full coordinates need the expansion"),
    };
    assert_eq!(canonical[0], 0x03);
    let expanded =
        expand_canonical_ec_point(profile, Some(DecompressedPoint::Coordinates(x.clone(), y.clone())))
            .expect("expanded");
    let mut sec1 = vec![0x04u8];
    sec1.extend_from_slice(&raw);
    assert_eq!(expanded, sec1);
    assert_eq!(
        expand_canonical_ec_point(profile, Some(DecompressedPoint::Coordinates(x.clone(), vec![1]))),
        Err(CoseError::InvalidKeyMaterial)
    );
    assert_eq!(expand_canonical_ec_point(profile, None), Err(CoseError::InvalidKeyMaterial));
    let key = ec_key_from_point(profile, &expanded).expect("key");
    let bytes = encode_cose_key_value(&key).expect("encoded");
    let expected = CoseKeyBuilder::new_ec2_pub_key(iana::EllipticCurve::Secp256k1, x, y)
        .algorithm(iana::Algorithm::ES256K)
        .build()
        .to_vec()
        .expect("coset encodes");
    assert_eq!(bytes, expected);
    assert_eq!(CoseEc2PointEncoding::default(), CoseEc2PointEncoding::Compressed);
}

#[test]
fn compressed_encoding_is_built_at_once_and_non_ec_algorithms_are_refused() {
    let (x, y) = p256_point();
    let mut raw = x;
    raw.extend_from_slice(&y);
    let plan = construct_cose_key_from_public_with_encoding_impl(
        Algorithm::P256,
        None,
        &raw,
        CoseEc2PointEncoding::Compressed,
    )
    .expect("plan");
    assert!(matches!(plan, EncodedPublicKey::Built(_)));
    assert!(matches!(
        construct_cose_key_from_public_with_encoding_impl(
            Algorithm::Ed25519,
            None,
            &[0u8; 32],
            CoseEc2PointEncoding::Compressed,
        ),
        Err(CoseError::UnsupportedAlgorithm)
    ));
}

#[test]
fn ml_kem_public_key_has_one_canonical_cose_key() {
    let public_key = vec![0x33u8; 1_184];
    let bytes = canonical_ml_kem_public_key_bytes(Algorithm::MlKem768, &public_key).expect("encoded");
    let expected = coset::CoseKey {
        kty: coset::KeyType::Assigned(iana::KeyType::AKP),
        alg: Some(coset::RegisteredLabelWithPrivate::PrivateUse(-65_538)),
        params: vec![(coset::Label::Int(-1), Value::Bytes(public_key.clone()))],
        ..Default::default()
    }
    .to_vec()
    .expect("coset encodes");
    assert_eq!(bytes, expected);
    assert_eq!(
        canonical_ml_kem_public_key_bytes(Algorithm::MlKem768, &public_key[..1_000]),
        Err(CoseError::InvalidKeyMaterial)
    );
    assert_eq!(
        canonical_ml_kem_public_key_bytes(Algorithm::MlDsa44, &[0u8; 1_312]),
        Err(CoseError::InvalidKeyMaterial)
    );
}

#[test]
fn equal_points_in_different_forms_have_one_canonical_key() {
    let (x, y) = p256_point();
    let mut raw = x.clone();
    raw.extend_from_slice(&y);
    let mut sec1 = vec![0x04u8];
    sec1.extend_from_slice(&raw);
    let from_raw = construct_cose_key_from_public_impl(Algorithm::P256, None, &raw).expect("built");
    let from_sec1 = construct_cose_key_from_public_impl(Algorithm::P256, None, &sec1).expect("built");
    let (a, _) = canonical_public_key_bytes(&from_raw.key).expect("canonical");
    let (b, _) = canonical_public_key_bytes(&from_sec1.key).expect("canonical");
    assert_eq!(a, b);
}

#[test]
fn private_key_round_trips_through_the_key() {
    let private_key = [0x44u8; 32];
    let public_key = [0x55u8; 32];
    let construction = construct_cose_key_from_private_impl(
        Algorithm::Ed25519,
        None,
        &private_key,
        Some(&public_key),
    )
    .expect("built");
    assert!(construction
        .checks
        .iter()
        .any(|check| matches!(check, MaterialCheck::KeyPair { algorithm: Algorithm::Ed25519, .. })));
    let (extracted, _) = extract_cose_key_private_impl(&construction.key).expect("private key");
    assert_eq!(extracted, private_key.to_vec());
    assert!(matches!(
        construct_cose_key_from_private_impl(Algorithm::Ed25519, None, &[], Some(&public_key)),
        Err(CoseError::MissingPrivateKey)
    ));
}

#[test]
fn key_operations_are_written_in_coset_order() {
    let x = [0x21u8; 32];
    let d = [0x42u8; 32];
    let encode = |ops: &[u8]| {
        let mut bytes = vec![0xa6, 0x01, 0x01, 0x03, 0x32, 0x04, 0x82];
        bytes.extend_from_slice(ops);
        bytes.extend_from_slice(&[0x20, 0x06, 0x21, 0x58, 0x20]);
        bytes.extend_from_slice(&x);
        bytes.extend_from_slice(&[0x23, 0x58, 0x20]);
        bytes.extend_from_slice(&d);
        bytes
    };
    let (key, _checks) = parse_cose_key(&encode(&[0x02, 0x01])).expect("parsed");
    assert_eq!(encode_cose_key_value(&key).expect("encoded"), encode(&[0x01, 0x02]));
}

#[test]
fn wiping_a_key_empties_every_byte_field() {
    let mut bytes = vec![0xa5, 0x01, 0x01, 0x03, 0x32, 0x20, 0x06, 0x21, 0x58, 0x20];
    bytes.extend_from_slice(&[0x21u8; 32]);
    bytes.extend_from_slice(&[0x23, 0x58, 0x20]);
    bytes.extend_from_slice(&[0x42u8; 32]);
    let (mut key, _checks) = parse_cose_key(&bytes).expect("parsed");
    wipe_cose_key(&mut key);
    let wiped = encode_cose_key_value(&key).expect("a wiped key still encodes");
    assert_eq!(wiped, vec![0xa5, 0x01, 0x01, 0x03, 0x32, 0x20, 0x06, 0x21, 0x40, 0x23, 0x40]);
    assert!(extract_cose_key_private_impl(&key).is_err());
}

#[test]
fn rejected_text_labels_and_owned_values_are_wiped() {
    let mut key = CoseKey::from_parts(
        RegisteredLabel::Text("sensitive-kty".to_owned()),
        b"sensitive-kid".to_vec(),
        Some(RegisteredLabelWithPrivate::Text("sensitive-alg".to_owned())),
        vec![RegisteredLabel::Text("sensitive-operation".to_owned())],
        b"sensitive-base-iv".to_vec(),
        vec![(Label::Text("sensitive-label".to_owned()), CborValue::Bytes(b"sensitive-value".to_vec()))],
    );

    wipe_cose_key(&mut key);

    // What is left is a map of the emptied text `kty` (1), the emptied text
    // `alg` (3), and the one parameter, an empty text label holding an empty
    // byte string; the identifier, base IV and key operations are gone.
    assert_eq!(
        encode_cose_key_value(&key).expect("a wiped key still encodes"),
        vec![0xa3, 0x01, 0x60, 0x03, 0x60, 0x60, 0x40]
    );
}

#[test]
fn wiping_an_item_keeps_its_shape() {
    let mut value = CborValue::Array(vec![
        CborValue::Integer(-7),
        CborValue::Bytes(vec![1, 2, 3]),
        CborValue::Tag(24, Box::new(CborValue::Text("secret".to_owned()))),
        CborValue::Mapping(vec![(CborValue::Text("k".to_owned()), CborValue::Bool(true))]),
        CborValue::Null,
    ]);
    wipe_value(&mut value);
    assert_eq!(
        value,
        CborValue::Array(vec![
            CborValue::Integer(-7),
            CborValue::Bytes(Vec::new()),
            CborValue::Tag(24, Box::new(CborValue::Text(String::new()))),
            CborValue::Mapping(vec![(CborValue::Text(String::new()), CborValue::Bool(true))]),
            CborValue::Null,
        ])
    );
}
