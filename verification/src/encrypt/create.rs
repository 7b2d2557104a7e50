//! The decisions of ML-KEM `COSE_Encrypt` creation.
//!
//! Creation alternates decisions with provider work: encapsulation, KMAC256
//! key derivation, random key and nonce generation, AES Key Wrap and
//! AES-GCM. Each decision below is a step from the values the previous
//! provider call returned to the next value it needs; the caller performs
//! the provider calls between the steps, in this order:
//!
//! 1. [`begin_encrypt`] checks the request and selects the suite;
//! 2. the provider encapsulates to the recipient public key;
//! 3. [`check_encapsulated_key`] checks the ciphertext length;
//! 4. the expected `kid` is derived from the recipient public key and
//!    [`check_recipient_kid`] compares it with the request's;
//! 5. [`recipient_protected`] builds the protected recipient header and
//!    [`recipient_key_derivation`] the KDF context bound to it;
//! 6. the provider derives the content key (direct mode) or the
//!    key-encryption key, a random content key and its wrapping (key-wrap
//!    mode), and a random nonce;
//! 7. [`content_aad`] builds the authenticated data of the content layer;
//! 8. the provider encrypts the plaintext and [`check_content_ciphertext`]
//!    checks the result;
//! 9. [`finish_encrypt`] assembles and encodes the object.

use vstd::prelude::*;

use crate::algorithm::label::RegisteredLabelWithPrivate;
use crate::bytes::constant_time_equal;
use crate::cbor::spec_encode_cbor_value;
use crate::error::CoseError;

use super::codec::{
    body_unprotected, encode, encode_protected_header, protected_header, recipient_unprotected,
    spec_cose_encrypt_fails, spec_encoded_protected_fails, spec_encoded_protected_is, spec_encode_tagged,
    spec_header_holds, spec_is_cose_encrypt_value, spec_opt_bytes, CoseEncrypt, CoseRecipient,
    ProtectedHeader, AES_GCM_NONCE_LENGTH, AES_GCM_TAG_LENGTH, MAX_EXTERNAL_AAD_BYTES,
    MAX_KID_BYTES, MAX_PLAINTEXT_BYTES, MAX_SUPP_PRIV_INFO_BYTES,
};
use super::kdf::{
    enc_structure, kdf_context, spec_is_enc_structure, spec_is_kdf_context, spec_kdf_context_fails,
    spec_opt_slice,
};
use super::profile::{
    content_algorithm_profile, spec_content_profile, spec_suite_for, suite_for, MlKemSuite,
    ML_KEM_KID_LENGTH,
};
use super::types::{CoseContentEncryptionAlgorithm, CoseMlKemEncryptRequest, CoseMlKemMode};

verus! {

/// The size and identifier checks of an encryption request.
pub open spec fn spec_validate_encrypt_request(
    request: CoseMlKemEncryptRequest,
    external_aad: Seq<u8>,
) -> Result<(), CoseError> {
    if request.plaintext@.len() > MAX_PLAINTEXT_BYTES || external_aad.len() > MAX_EXTERNAL_AAD_BYTES
        || (request.supp_priv_info matches Some(info) && info@.len() > MAX_SUPP_PRIV_INFO_BYTES) {
        Err(CoseError::ResourceLimitExceeded)
    } else if request.recipient_kid@.len() == 0 {
        Err(CoseError::MissingKid)
    } else if request.recipient_kid@.len() > MAX_KID_BYTES {
        Err(CoseError::ResourceLimitExceeded)
    } else if request.recipient_kid@.len() != ML_KEM_KID_LENGTH {
        Err(CoseError::KidMismatch)
    } else {
        Ok(())
    }
}

fn validate_request(request: &CoseMlKemEncryptRequest, external_aad: &[u8]) -> (r: Result<
    (),
    CoseError,
>)
    ensures
        r == spec_validate_encrypt_request(*request, external_aad@),
{
    let oversized_info = match request.supp_priv_info {
        Some(info) => info.len() > MAX_SUPP_PRIV_INFO_BYTES,
        None => false,
    };
    if request.plaintext.len() > MAX_PLAINTEXT_BYTES || external_aad.len() > MAX_EXTERNAL_AAD_BYTES
        || oversized_info {
        return Err(CoseError::ResourceLimitExceeded);
    }
    if request.recipient_kid.len() == 0 {
        return Err(CoseError::MissingKid);
    }
    if request.recipient_kid.len() > MAX_KID_BYTES {
        return Err(CoseError::ResourceLimitExceeded);
    }
    if request.recipient_kid.len() != ML_KEM_KID_LENGTH {
        return Err(CoseError::KidMismatch);
    }
    Ok(())
}

/// The suite of an acceptable request, whose recipient public key must have
/// the suite's length.
pub open spec fn spec_begin_encrypt(
    request: CoseMlKemEncryptRequest,
    mode: CoseMlKemMode,
    external_aad: Seq<u8>,
) -> Result<MlKemSuite, CoseError> {
    match spec_validate_encrypt_request(request, external_aad) {
        Err(error) => Err(error),
        Ok(_) => {
            let suite = spec_suite_for(request.kem_algorithm, mode);
            if request.recipient_public_key@.len() != suite.public_key_length {
                Err(CoseError::InvalidKeyMaterial)
            } else {
                Ok(suite)
            }
        },
    }
}

/// Check an encryption request and select its recipient suite.
pub fn begin_encrypt(
    request: &CoseMlKemEncryptRequest,
    mode: CoseMlKemMode,
    external_aad: &[u8],
) -> (r: Result<MlKemSuite, CoseError>)
    ensures
        r == spec_begin_encrypt(*request, mode, external_aad@),
{
    match validate_request(request, external_aad) {
        Ok(()) => {},
        Err(error) => return Err(error),
    }
    let suite = match suite_for(request.kem_algorithm, mode) {
        Ok(suite) => suite,
        Err(error) => return Err(error),
    };
    if request.recipient_public_key.len() != suite.public_key_length {
        return Err(CoseError::InvalidKeyMaterial);
    }
    Ok(suite)
}

/// An encapsulation whose ciphertext does not have the suite's length is a
/// provider failure.
pub fn check_encapsulated_key(suite: &MlKemSuite, encapsulated_key: &[u8]) -> (r: Result<
    (),
    CoseError,
>)
    ensures
        r is Ok <==> encapsulated_key@.len() == suite.encapsulated_key_length,
        r is Err ==> r == Err::<(), CoseError>(CoseError::Crypto),
{
    if encapsulated_key.len() != suite.encapsulated_key_length {
        return Err(CoseError::Crypto);
    }
    Ok(())
}

/// The request's recipient `kid` must equal the one derived from the
/// recipient public key.
pub fn check_recipient_kid(expected_kid: &[u8], recipient_kid: &[u8]) -> (r: Result<(), CoseError>)
    ensures
        r is Ok <==> expected_kid@ == recipient_kid@,
        r is Err ==> r == Err::<(), CoseError>(CoseError::KidMismatch),
{
    if !constant_time_equal(expected_kid, recipient_kid) {
        return Err(CoseError::KidMismatch);
    }
    Ok(())
}

/// The protected recipient header: the suite's private-use algorithm and
/// the recipient `kid`.
pub fn recipient_protected(suite: &MlKemSuite, recipient_kid: &[u8]) -> (r: ProtectedHeader)
    requires
        recipient_kid@.len() > 0,
    ensures
        r.original_data is None,
        spec_header_holds(
            r.header,
            (
                Some(RegisteredLabelWithPrivate::PrivateUse(suite.cose_algorithm)),
                Some(recipient_kid@),
                None,
                None,
            ),
        ),
{
    protected_header(RegisteredLabelWithPrivate::PrivateUse(suite.cose_algorithm), Some(recipient_kid))
}

/// The algorithm identifier and length of the key derived from the shared
/// secret: the content key in direct mode, the key-encryption key in
/// key-wrap mode.
pub open spec fn spec_key_derivation(
    suite: MlKemSuite,
    content_algorithm: CoseContentEncryptionAlgorithm,
) -> Result<(i64, usize), CoseError> {
    match suite.mode {
        CoseMlKemMode::Direct => Ok(spec_content_profile(content_algorithm)),
        CoseMlKemMode::KeyWrap => match (suite.key_wrap_algorithm_id, suite.kek_length) {
            (Some(algorithm_id), Some(kek_length)) => Ok((algorithm_id, kek_length)),
            _ => Err(CoseError::UnsupportedAlgorithm),
        },
    }
}

/// Select the identifier and length of the key derived from the shared
/// secret.
pub fn key_derivation(suite: &MlKemSuite, content_algorithm: CoseContentEncryptionAlgorithm) -> (r:
    Result<(i64, usize), CoseError>)
    ensures
        r == spec_key_derivation(*suite, content_algorithm),
{
    match suite.mode {
        CoseMlKemMode::Direct => Ok(content_algorithm_profile(content_algorithm)),
        CoseMlKemMode::KeyWrap => {
            let kek_length = match suite.kek_length {
                Some(length) => length,
                None => return Err(CoseError::UnsupportedAlgorithm),
            };
            let algorithm_id = match suite.key_wrap_algorithm_id {
                Some(id) => id,
                None => return Err(CoseError::UnsupportedAlgorithm),
            };
            Ok((algorithm_id, kek_length))
        },
    }
}

/// The encoded KDF context of the key derived for `recipient`: its
/// algorithm identifier, length in bits, the authenticated bytes of the
/// protected recipient header and the optional private context.
pub fn recipient_key_derivation(
    suite: &MlKemSuite,
    content_algorithm: CoseContentEncryptionAlgorithm,
    recipient: &ProtectedHeader,
    supp_priv_info: Option<&[u8]>,
) -> (r: Result<(usize, Vec<u8>), CoseError>)
    ensures
        match r {
            Ok((length, context)) => {
                &&& spec_key_derivation(*suite, content_algorithm) matches Ok((algorithm_id, key_length))
                &&& length == key_length
                &&& exists|protected: Seq<u8>, value: crate::cbor::CborValue|
                    #![trigger spec_encoded_protected_is(*recipient, protected), spec_encode_cbor_value(value)]
                    spec_encoded_protected_is(*recipient, protected) && spec_is_kdf_context(
                        value,
                        algorithm_id,
                        key_length * 8,
                        protected,
                        spec_opt_slice(supp_priv_info),
                    ) && spec_encode_cbor_value(value) == Ok::<Seq<u8>, CoseError>(context@)
            },
            Err(error) => match spec_key_derivation(*suite, content_algorithm) {
                Err(derivation_error) => error == derivation_error,
                Ok((algorithm_id, key_length)) => {
                    ||| spec_encoded_protected_fails(*recipient, error)
                    ||| exists|protected: Seq<u8>|
                        #![trigger spec_encoded_protected_is(*recipient, protected)]
                        spec_encoded_protected_is(*recipient, protected) && spec_kdf_context_fails(
                            algorithm_id,
                            key_length,
                            protected,
                            spec_opt_slice(supp_priv_info),
                            error,
                        )
                },
            },
        },
{
    let (algorithm_id, length) = match key_derivation(suite, content_algorithm) {
        Ok(derivation) => derivation,
        Err(error) => return Err(error),
    };
    let protected = match encode_protected_header(recipient) {
        Ok(protected) => protected,
        Err(error) => return Err(error),
    };
    match kdf_context(algorithm_id, length, protected.as_slice(), supp_priv_info) {
        Ok(context) => {
            assert(spec_encoded_protected_is(*recipient, protected@));
            Ok((length, context))
        },
        Err(error) => {
            assert(spec_encoded_protected_is(*recipient, protected@));
            Err(error)
        },
    }
}

/// How the content key of a mode is obtained.
#[derive(Clone, Copy, Debug, PartialEq, Eq, Structural)]
pub enum ContentKeyStep {
    /// Direct mode: the derived key is the content key and the recipient
    /// carries no ciphertext.
    UseDerivedKey,
    /// Key-wrap mode: a fresh content key of `content_key_length` bytes is
    /// drawn and wrapped under the derived key; the wrapped key is the
    /// recipient ciphertext.
    WrapFreshKey { content_key_length: usize },
}

/// The content-key step of a suite's mode.
pub fn content_key_step(suite: &MlKemSuite, content_algorithm: CoseContentEncryptionAlgorithm) -> (r:
    ContentKeyStep)
    ensures
        r is UseDerivedKey <==> suite.mode == CoseMlKemMode::Direct,
        r matches ContentKeyStep::WrapFreshKey { content_key_length } ==> content_key_length
            == spec_content_profile(content_algorithm).1,
{
    match suite.mode {
        CoseMlKemMode::Direct => ContentKeyStep::UseDerivedKey,
        CoseMlKemMode::KeyWrap => {
            let (_, content_key_length) = content_algorithm_profile(content_algorithm);
            ContentKeyStep::WrapFreshKey { content_key_length }
        },
    }
}

/// The protected body header: the content cipher's IANA algorithm.
pub fn body_protected(content_algorithm: CoseContentEncryptionAlgorithm) -> (r: ProtectedHeader)
    ensures
        r.original_data is None,
        spec_header_holds(
            r.header,
            (
                Some(RegisteredLabelWithPrivate::Assigned(spec_content_profile(content_algorithm).0)),
                None,
                None,
                None,
            ),
        ),
{
    let (algorithm, _) = content_algorithm_profile(content_algorithm);
    protected_header(RegisteredLabelWithPrivate::Assigned(algorithm), None)
}

/// The authenticated data of the content layer: the `Enc_structure` over
/// the protected body header's bytes and the external AAD.
pub fn content_aad(body: &ProtectedHeader, external_aad: &[u8]) -> (r: Result<Vec<u8>, CoseError>)
    ensures
        match r {
            Ok(aad) => {
                &&& exists|protected: Seq<u8>, value: crate::cbor::CborValue|
                    #![trigger spec_encoded_protected_is(*body, protected), spec_encode_cbor_value(value)]
                    spec_encoded_protected_is(*body, protected) && spec_is_enc_structure(
                        value,
                        protected,
                        external_aad@,
                    ) && spec_encode_cbor_value(value) == Ok::<Seq<u8>, CoseError>(aad@)
            },
            Err(error) => {
                ||| spec_encoded_protected_fails(*body, error)
                ||| exists|protected: Seq<u8>, value: crate::cbor::CborValue|
                    #![trigger spec_encoded_protected_is(*body, protected), spec_encode_cbor_value(value)]
                    spec_encoded_protected_is(*body, protected) && spec_is_enc_structure(
                        value,
                        protected,
                        external_aad@,
                    ) && spec_encode_cbor_value(value) == Err::<Seq<u8>, CoseError>(error)
            },
        },
{
    let protected = match encode_protected_header(body) {
        Ok(protected) => protected,
        Err(error) => return Err(error),
    };
    let r = enc_structure(protected.as_slice(), external_aad);
    assert(spec_encoded_protected_is(*body, protected@));
    r
}

/// The content ciphertext must be the plaintext followed by the 16-byte
/// tag; any other length is a provider failure.
pub fn check_content_ciphertext(plaintext_length: usize, ciphertext: &[u8]) -> (r: Result<
    (),
    CoseError,
>)
    ensures
        r is Ok <==> ciphertext@.len() == plaintext_length + AES_GCM_TAG_LENGTH,
        r is Err ==> (r == Err::<(), CoseError>(CoseError::ResourceLimitExceeded)
            && plaintext_length + AES_GCM_TAG_LENGTH > usize::MAX) || r == Err::<(), CoseError>(
            CoseError::Crypto,
        ),
{
    let ciphertext_length = ciphertext.len();
    let expected_length = match plaintext_length.checked_add(AES_GCM_TAG_LENGTH) {
        Some(length) => length,
        None => return Err(CoseError::ResourceLimitExceeded),
    };
    if ciphertext_length != expected_length {
        return Err(CoseError::Crypto);
    }
    Ok(())
}

/// `r` is the result of encoding `cose` as a tagged item.
pub open spec fn spec_encode_result_is(cose: CoseEncrypt, r: Result<Vec<u8>, CoseError>) -> bool {
    match r {
        Ok(bytes) => exists|value: crate::cbor::CborValue|
            #![trigger spec_is_cose_encrypt_value(value, cose)]
            spec_is_cose_encrypt_value(value, cose) && spec_encode_tagged(value) == Ok::<
                Seq<u8>,
                CoseError,
            >(bytes@),
        Err(error) => (error == CoseError::Cbor && spec_cose_encrypt_fails(cose)) || exists|value: crate::cbor::CborValue|
            #![trigger spec_is_cose_encrypt_value(value, cose)]
            spec_is_cose_encrypt_value(value, cose) && spec_encode_tagged(value) == Err::<
                Seq<u8>,
                CoseError,
            >(error),
    }
}

/// Assemble the one-recipient object and encode it as a tagged item.
///
/// The recipient carries a wrapped content key exactly in key-wrap mode;
/// the nonce must be the 12-byte AES-GCM nonce.
pub fn finish_encrypt(
    suite: &MlKemSuite,
    recipient_protected: ProtectedHeader,
    encapsulated_key: Vec<u8>,
    wrapped_key: Option<Vec<u8>>,
    body_protected: ProtectedHeader,
    nonce: &[u8],
    ciphertext: Vec<u8>,
) -> (r: Result<Vec<u8>, CoseError>)
    requires
        (wrapped_key is None) <==> (suite.mode == CoseMlKemMode::Direct),
    ensures
        nonce@.len() != AES_GCM_NONCE_LENGTH ==> r == Err::<Vec<u8>, CoseError>(CoseError::InvalidIv),
        nonce@.len() == AES_GCM_NONCE_LENGTH ==> exists|cose: CoseEncrypt|
            #![trigger spec_encode_result_is(cose, r)]
            {
                &&& cose.protected == body_protected
                &&& spec_header_holds(cose.unprotected, (None, None, Some(nonce@), None))
                &&& spec_opt_bytes(cose.ciphertext) == Some(ciphertext@)
                &&& cose.recipients@.len() == 1
                &&& cose.recipients@[0].protected == recipient_protected
                &&& spec_header_holds(
                    cose.recipients@[0].unprotected,
                    (None, None, None, Some(encapsulated_key@)),
                )
                &&& cose.recipients@[0].ciphertext == wrapped_key
                &&& (cose.recipients@[0].ciphertext is None <==> suite.mode == CoseMlKemMode::Direct)
                &&& spec_encode_result_is(cose, r)
            },
{
    if nonce.len() != AES_GCM_NONCE_LENGTH {
        return Err(CoseError::InvalidIv);
    }
    let ghost expected_key = encapsulated_key@;
    let ghost expected_ciphertext = ciphertext@;
    let ghost expected_wrapped = wrapped_key;
    let recipient = CoseRecipient {
        protected: recipient_protected,
        unprotected: recipient_unprotected(encapsulated_key),
        ciphertext: wrapped_key,
    };
    let mut recipients: Vec<CoseRecipient> = Vec::new();
    recipients.push(recipient);
    let cose = CoseEncrypt {
        protected: body_protected,
        unprotected: body_unprotected(nonce),
        ciphertext: Some(ciphertext),
        recipients,
    };
    let r = encode(&cose);
    assert(cose.recipients@[0].ciphertext == expected_wrapped);
    assert(cose.protected == body_protected);
    assert(spec_header_holds(cose.unprotected, (None, None, Some(nonce@), None)));
    assert(cose.recipients@.len() == 1);
    assert(cose.recipients@[0].protected == recipient_protected);
    assert(spec_header_holds(cose.recipients@[0].unprotected, (None, None, None, Some(expected_key))));
    assert(spec_opt_bytes(cose.ciphertext) == Some(expected_ciphertext));
    assert(spec_encode_result_is(cose, r));
    assert(cose.recipients@[0].ciphertext == wrapped_key);
    assert(spec_opt_bytes(cose.ciphertext) == Some(ciphertext@));
    assert(cose.recipients@[0].protected == recipient_protected);
    assert(spec_header_holds(cose.recipients@[0].unprotected, (None, None, None, Some(encapsulated_key@))));
    r
}

} // verus!
