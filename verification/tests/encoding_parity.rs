use ciborium::value::Value;
use coset::{iana, AsCborValue};
use reallyme_cose::algorithm::{Algorithm, RegisteredLabelWithPrivate};
use reallyme_cose::encrypt::codec::{
    body_unprotected, encode, protected_header, recipient_unprotected, CoseEncrypt, CoseRecipient,
};
use reallyme_cose::encrypt::profile::suite_for;
use reallyme_cose::encrypt::{CoseMlKemAlgorithm, CoseMlKemMode};
use reallyme_cose::failure::{CoseFailure, CoseFailureBranch, CoseFailureOrigin, CoseFailureReason};
use reallyme_cose::key::convert::construct_cose_key_from_public_impl;
use reallyme_cose::key::encode::encode_cose_key_value;
use reallyme_cose::key::parse::parse_cose_key;
use reallyme_cose::limits::MAX_COSE_KEY_BYTES;
use reallyme_cose::CoseError;

const RFC_8032_ED25519_PUBLIC_KEY: [u8; 32] = [
    0xd7, 0x5a, 0x98, 0x01, 0x82, 0xb1, 0x0a, 0xb7, 0xd5, 0x4b, 0xfe, 0xd3, 0xc9, 0x64, 0x07, 0x3a,
    0x0e, 0xe1, 0x72, 0xf3, 0xda, 0xa6, 0x23, 0x25, 0xaf, 0x02, 0x1a, 0x68, 0xf7, 0x07, 0x51, 0x1a,
];

#[test]
fn semantic_parse_preserves_canonical_key_bytes() -> Result<(), CoseError> {
    let construction =
        construct_cose_key_from_public_impl(Algorithm::Ed25519, None, &RFC_8032_ED25519_PUBLIC_KEY)?;
    let encoded = encode_cose_key_value(&construction.key)?;

    let (parsed, _) = parse_cose_key(&encoded)?;
    let reencoded = encode_cose_key_value(&parsed)?;

    assert_eq!(reencoded.as_slice(), encoded.as_slice());
    Ok(())
}

#[test]
fn semantic_parse_rejects_empty_input_with_typed_error() {
    let failure = parse_cose_key(&[]).err().map(CoseFailure::from);

    assert_eq!(
        failure.map(|value| (value.origin(), value.branch(), value.reason())),
        Some((
            CoseFailureOrigin::Caller,
            CoseFailureBranch::Primitive,
            CoseFailureReason::CommonCbor,
        ))
    );
}

#[test]
fn semantic_parse_rejects_oversized_input_before_decode() {
    let oversized_len = match MAX_COSE_KEY_BYTES.checked_add(1) {
        Some(value) => value,
        None => panic!("COSE_Key test length overflowed"),
    };
    let oversized = vec![0_u8; oversized_len];

    let failure = parse_cose_key(&oversized).err().map(CoseFailure::from);

    assert_eq!(
        failure.map(|value| (value.origin(), value.branch(), value.reason())),
        Some((
            CoseFailureOrigin::Caller,
            CoseFailureBranch::Primitive,
            CoseFailureReason::CommonResourceLimitExceeded,
        ))
    );
}

fn coset_header(alg: coset::RegisteredLabelWithPrivate<iana::Algorithm>, kid: Option<&[u8]>) -> coset::ProtectedHeader {
    coset::ProtectedHeader {
        original_data: None,
        header: coset::Header {
            alg: Some(alg),
            key_id: kid.map(<[u8]>::to_vec).unwrap_or_default(),
            ..coset::Header::default()
        },
    }
}

#[test]
fn sensitive_encrypt_encoder_matches_coset_for_every_suite() {
    for kem in [
        CoseMlKemAlgorithm::MlKem512,
        CoseMlKemAlgorithm::MlKem768,
        CoseMlKemAlgorithm::MlKem1024,
    ] {
        for mode in [CoseMlKemMode::Direct, CoseMlKemMode::KeyWrap] {
            let suite = suite_for(kem, mode).expect("supported suite");
            for (content, content_id) in [
                (iana::Algorithm::A128GCM, 1i64),
                (iana::Algorithm::A192GCM, 2i64),
                (iana::Algorithm::A256GCM, 3i64),
            ] {
                let wrapped = if mode == CoseMlKemMode::KeyWrap { Some(vec![0x33; 40]) } else { None };
                let cose = CoseEncrypt {
                    protected: protected_header(RegisteredLabelWithPrivate::Assigned(content_id), None),
                    unprotected: body_unprotected(&[0x44; 12]),
                    ciphertext: Some(vec![0x55; 256]),
                    recipients: vec![CoseRecipient {
                        protected: protected_header(
                            RegisteredLabelWithPrivate::PrivateUse(suite.cose_algorithm),
                            Some(&[0x11; 32]),
                        ),
                        unprotected: recipient_unprotected(vec![0x22; suite.encapsulated_key_length]),
                        ciphertext: wrapped.clone(),
                    }],
                };
                let reference_cose = coset::CoseEncrypt {
                    protected: coset_header(coset::RegisteredLabelWithPrivate::Assigned(content), None),
                    unprotected: coset::Header { iv: vec![0x44; 12], ..coset::Header::default() },
                    ciphertext: Some(vec![0x55; 256]),
                    recipients: vec![coset::CoseRecipient {
                        protected: coset_header(
                            coset::RegisteredLabelWithPrivate::PrivateUse(suite.cose_algorithm),
                            Some(&[0x11; 32]),
                        ),
                        unprotected: coset::Header {
                            rest: vec![(
                                coset::Label::Int(-65_543),
                                Value::Bytes(vec![0x22; suite.encapsulated_key_length]),
                            )],
                            ..coset::Header::default()
                        },
                        ciphertext: wrapped,
                        recipients: Vec::new(),
                    }],
                };
                let reference = Value::Tag(96, Box::new(reference_cose.to_cbor_value().expect("coset")));
                let mut expected = Vec::new();
                ciborium::ser::into_writer(&reference, &mut expected).expect("CBOR");
                assert_eq!(encode(&cose).expect("sensitive encoding").as_slice(), expected);
            }
        }
    }
}
