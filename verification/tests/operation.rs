use reallyme_cose::algorithm::{Algorithm, CoseSignatureAlgorithm};
use reallyme_cose::boundary::{CoseErrorReason, CoseWireError, CoseWireErrorBranch};
use reallyme_cose::encrypt::{CoseContentEncryptionAlgorithm, CoseMlKemAlgorithm, CoseMlKemMode};
use reallyme_cose::key::encoding::CoseEc2PointEncoding;
use reallyme_cose::operation::{
    content_algorithm_from_proto, content_algorithm_to_proto, decrypt_metadata_is_valid,
    ec2_point_encoding_from_proto, kem_algorithm_from_proto, kem_algorithm_to_proto,
    key_agreement_algorithm_from_proto, legacy_signature_algorithm_to_proto,
    ml_kem_algorithm_from_proto, mode_to_proto, response_boundary_error, result_matches_request,
    signature_algorithm_from_proto, signature_algorithm_is_valid, signature_algorithm_to_proto,
    validate_ec2_point_encoding, CoseOperationKind, KeyAlgorithmInput, WireContentEncryptionAlgorithm,
    WireEc2PointEncoding, WireKemAlgorithm, WireKeyAgreementAlgorithm, WireMlKemMode,
    WireSignatureAlgorithm,
};

const REGISTRATIONS: [CoseSignatureAlgorithm; 9] = [
    CoseSignatureAlgorithm::Ed25519,
    CoseSignatureAlgorithm::Es256,
    CoseSignatureAlgorithm::Esp256,
    CoseSignatureAlgorithm::Esp384,
    CoseSignatureAlgorithm::Esp512,
    CoseSignatureAlgorithm::Es256K,
    CoseSignatureAlgorithm::MlDsa44,
    CoseSignatureAlgorithm::MlDsa65,
    CoseSignatureAlgorithm::MlDsa87,
];

fn is_invalid_parameter(error: CoseWireError) -> bool {
    error.branch() == CoseWireErrorBranch::Primitive
        && error.reason() == CoseErrorReason::CommonInvalidParameter
}

#[test]
fn signature_values_round_trip_and_legacy_values_are_valid_results() {
    for registration in REGISTRATIONS {
        let exact = signature_algorithm_to_proto(registration);
        assert_eq!(signature_algorithm_from_proto(Some(exact)), Ok(registration));
        let legacy = legacy_signature_algorithm_to_proto(registration);
        assert!(signature_algorithm_is_valid(Some(legacy)));
    }
    assert_eq!(
        legacy_signature_algorithm_to_proto(CoseSignatureAlgorithm::Es256),
        WireSignatureAlgorithm::EcdsaP256Sha256
    );
    assert_eq!(
        signature_algorithm_from_proto(Some(WireSignatureAlgorithm::EcdsaP256Sha256)),
        Ok(CoseSignatureAlgorithm::Esp256)
    );
    assert!(!signature_algorithm_is_valid(Some(WireSignatureAlgorithm::Es256)));
    assert!(!signature_algorithm_is_valid(None));
    assert!(is_invalid_parameter(
        signature_algorithm_from_proto(Some(WireSignatureAlgorithm::Unspecified)).unwrap_err()
    ));
    assert!(is_invalid_parameter(signature_algorithm_from_proto(None).unwrap_err()));
}

#[test]
fn encryption_values_round_trip_and_make_valid_metadata() {
    for content in [
        CoseContentEncryptionAlgorithm::Aes128Gcm,
        CoseContentEncryptionAlgorithm::Aes192Gcm,
        CoseContentEncryptionAlgorithm::Aes256Gcm,
    ] {
        assert_eq!(content_algorithm_from_proto(Some(content_algorithm_to_proto(content))), Ok(content));
        for kem in [CoseMlKemAlgorithm::MlKem512, CoseMlKemAlgorithm::MlKem768, CoseMlKemAlgorithm::MlKem1024] {
            assert_eq!(ml_kem_algorithm_from_proto(Some(kem_algorithm_to_proto(kem))), Ok(kem));
            for mode in [CoseMlKemMode::Direct, CoseMlKemMode::KeyWrap] {
                assert!(decrypt_metadata_is_valid(
                    Some(content_algorithm_to_proto(content)),
                    Some(kem_algorithm_to_proto(kem)),
                    Some(mode_to_proto(mode)),
                ));
            }
        }
    }
    assert!(!decrypt_metadata_is_valid(
        Some(WireContentEncryptionAlgorithm::Aes128Gcm),
        Some(WireKemAlgorithm::XWing768),
        Some(WireMlKemMode::Direct),
    ));
    assert!(!decrypt_metadata_is_valid(
        Some(WireContentEncryptionAlgorithm::Aes128Gcm),
        Some(WireKemAlgorithm::MlKem512),
        Some(WireMlKemMode::Unspecified),
    ));
    let unsupported = ml_kem_algorithm_from_proto(Some(WireKemAlgorithm::XWing768)).unwrap_err();
    assert_eq!(unsupported.branch(), CoseWireErrorBranch::Provider);
    assert_eq!(unsupported.reason(), CoseErrorReason::CommonUnsupportedAlgorithm);
    assert_eq!(kem_algorithm_from_proto(Some(WireKemAlgorithm::XWing768)), Ok(Algorithm::XWing768));
    assert_eq!(
        key_agreement_algorithm_from_proto(Some(WireKeyAgreementAlgorithm::X25519)),
        Ok(Algorithm::X25519)
    );
    assert!(key_agreement_algorithm_from_proto(Some(WireKeyAgreementAlgorithm::Unspecified)).is_err());
}

#[test]
fn point_encoding_is_only_for_ec_algorithms() {
    assert_eq!(ec2_point_encoding_from_proto(Some(WireEc2PointEncoding::Unspecified)), Ok(None));
    assert_eq!(
        ec2_point_encoding_from_proto(Some(WireEc2PointEncoding::FullCoordinates)),
        Ok(Some(CoseEc2PointEncoding::FullCoordinates))
    );
    assert!(ec2_point_encoding_from_proto(None).is_err());
    let ec = KeyAlgorithmInput::Crypto(Algorithm::P384);
    let ed = KeyAlgorithmInput::Signature(CoseSignatureAlgorithm::Ed25519);
    assert_eq!(
        validate_ec2_point_encoding(&ec, Some(CoseEc2PointEncoding::Compressed)),
        Ok(Some(CoseEc2PointEncoding::Compressed))
    );
    assert!(validate_ec2_point_encoding(&ed, Some(CoseEc2PointEncoding::Compressed)).is_err());
    assert_eq!(validate_ec2_point_encoding(&ed, None), Ok(None));
}

#[test]
fn results_must_answer_their_request() {
    assert!(result_matches_request(Some(CoseOperationKind::KeyParse), Some(CoseOperationKind::KeyParse)));
    assert!(!result_matches_request(Some(CoseOperationKind::KeyParse), Some(CoseOperationKind::KeyToMultikey)));
    assert!(!result_matches_request(None, None));
    assert!(!result_matches_request(Some(CoseOperationKind::MlKemDecrypt), None));
    let limit = response_boundary_error(CoseWireError::primitive_internal(
        CoseErrorReason::CommonResourceLimitExceeded,
    ));
    assert_eq!(limit.branch(), CoseWireErrorBranch::Backend);
    assert_eq!(limit.reason(), CoseErrorReason::CommonResourceLimitExceeded);
    let other = response_boundary_error(CoseWireError::primitive_internal(CoseErrorReason::CommonCbor));
    assert_eq!(other.reason(), CoseErrorReason::BackendInternal);
}
