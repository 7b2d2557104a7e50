//! The decisions of ML-KEM `COSE_Encrypt` decryption.
//!
//! Decryption alternates decisions with provider work: deriving the
//! recipient public key from its seed, decapsulation, KMAC256 key
//! derivation, AES Key Wrap and AES-GCM. The caller performs the provider
//! calls between the steps below, in this order:
//!
//! 1. [`begin_decrypt`] checks the request, decodes and validates the
//!    object, resolves its algorithms and compares the recipient `kid` with
//!    the expected one;
//! 2. the provider derives the public key from the private seed, and its
//!    `kid` is derived;
//! 3. [`check_recipient`] compares that `kid`, checks the recipient mode and
//!    returns the encapsulated key;
//! 4. the provider decapsulates, and the key derived from the shared secret
//!    over the context of [`super::create::recipient_key_derivation`] is the
//!    content key (direct mode) or the key-encryption key that unwraps
//!    [`wrapped_key`], checked by [`check_unwrapped_key`] (key-wrap mode);
//! 5. [`content_ciphertext`] and [`super::create::content_aad`] give the
//!    inputs of the AES-GCM decryption;
//! 6. [`finish_decrypt`] bounds the plaintext and returns the result.

use vstd::prelude::*;

use crate::bytes::constant_time_equal;
use crate::error::CoseError;

use super::codec::{
    decode, encapsulated_key, spec_cose_encrypt_holds, spec_decode_cose_encrypt,
    spec_find_encapsulated_key, spec_opt_bytes, spec_validate_structure, validate_structure, CoseEncrypt,
    HeaderScan, LayerScan, AES_GCM_NONCE_LENGTH, AES_GCM_TAG_LENGTH, MAX_EXTERNAL_AAD_BYTES,
    MAX_KID_BYTES, MAX_PLAINTEXT_BYTES, MAX_SUPP_PRIV_INFO_BYTES,
};
use super::profile::{
    content_algorithm_from_cose, content_algorithm_profile, spec_content_algorithm_from_cose, spec_content_profile, spec_suite_from_cose_algorithm,
    suite_from_cose_algorithm, MlKemSuite, ML_KEM_KID_LENGTH, ML_KEM_PRIVATE_SEED_LENGTH,
};
use super::types::{
    CoseContentEncryptionAlgorithm, CoseMlKemDecryptRequest, CoseMlKemMode, DecryptedCoseEncrypt,
};

verus! {

/// The size and identifier checks of a decryption request.
pub open spec fn spec_validate_decrypt_request(
    request: CoseMlKemDecryptRequest,
    external_aad: Seq<u8>,
) -> Result<(), CoseError> {
    if request.recipient_private_key@.len() != ML_KEM_PRIVATE_SEED_LENGTH {
        Err(CoseError::InvalidKeyMaterial)
    } else if request.expected_recipient_kid@.len() == 0 {
        Err(CoseError::MissingKid)
    } else if request.expected_recipient_kid@.len() > MAX_KID_BYTES || external_aad.len()
        > MAX_EXTERNAL_AAD_BYTES || (request.supp_priv_info matches Some(info) && info@.len()
        > MAX_SUPP_PRIV_INFO_BYTES) {
        Err(CoseError::ResourceLimitExceeded)
    } else if request.expected_recipient_kid@.len() != ML_KEM_KID_LENGTH {
        Err(CoseError::KidMismatch)
    } else {
        Ok(())
    }
}

fn validate_request(request: &CoseMlKemDecryptRequest, external_aad: &[u8]) -> (r: Result<
    (),
    CoseError,
>)
    ensures
        r == spec_validate_decrypt_request(*request, external_aad@),
{
    if request.recipient_private_key.len() != ML_KEM_PRIVATE_SEED_LENGTH {
        return Err(CoseError::InvalidKeyMaterial);
    }
    if request.expected_recipient_kid.len() == 0 {
        return Err(CoseError::MissingKid);
    }
    let oversized_info = match request.supp_priv_info {
        Some(info) => info.len() > MAX_SUPP_PRIV_INFO_BYTES,
        None => false,
    };
    if request.expected_recipient_kid.len() > MAX_KID_BYTES || external_aad.len()
        > MAX_EXTERNAL_AAD_BYTES || oversized_info {
        return Err(CoseError::ResourceLimitExceeded);
    }
    if request.expected_recipient_kid.len() != ML_KEM_KID_LENGTH {
        return Err(CoseError::KidMismatch);
    }
    Ok(())
}

/// The length of an optional decoded byte string; absent is empty.
pub open spec fn spec_scan_len(bytes: Option<Seq<u8>>) -> nat {
    match bytes {
        Some(bytes) => bytes.len(),
        None => 0,
    }
}

/// An optional decoded byte string; absent is empty.
pub open spec fn spec_scan_bytes(bytes: Option<Seq<u8>>) -> Seq<u8> {
    match bytes {
        Some(bytes) => bytes,
        None => Seq::empty(),
    }
}

/// The structural rules of `COSE_Encrypt` stated over what was decoded.
pub open spec fn spec_validate_decoded(decoded: (LayerScan, LayerScan)) -> Result<(), CoseError> {
    let body_protected: HeaderScan = decoded.0.0.1;
    let body_unprotected: HeaderScan = decoded.0.1;
    let recipient_protected: HeaderScan = decoded.1.0.1;
    let recipient_unprotected: HeaderScan = decoded.1.1;
    if decoded.0.2 is None {
        Err(CoseError::MissingCiphertext)
    } else if body_unprotected.0 is Some || body_protected.0 is None {
        Err(CoseError::UnprotectedHeaderNotAllowed)
    } else if spec_scan_len(body_unprotected.2) != AES_GCM_NONCE_LENGTH || spec_scan_len(
        body_protected.2,
    ) != 0 {
        Err(CoseError::InvalidIv)
    } else if spec_scan_len(body_protected.1) != 0 || spec_scan_len(body_unprotected.1) != 0
        || body_protected.3 is Some || body_unprotected.3 is Some {
        Err(CoseError::InvalidFormat)
    } else if recipient_protected.0 is None || recipient_unprotected.0 is Some {
        Err(CoseError::UnprotectedHeaderNotAllowed)
    } else if spec_scan_len(recipient_protected.1) != ML_KEM_KID_LENGTH || spec_scan_len(
        recipient_unprotected.1,
    ) != 0 || spec_scan_len(recipient_protected.2) != 0 || spec_scan_len(recipient_unprotected.2)
        != 0 || recipient_protected.3 is Some {
        Err(CoseError::InvalidRecipient)
    } else if recipient_unprotected.3 is None {
        Err(CoseError::MissingEncapsulatedKey)
    } else {
        Ok(())
    }
}

proof fn lemma_validate_decoded(cose: CoseEncrypt, decoded: (LayerScan, LayerScan))
    requires
        spec_cose_encrypt_holds(cose, decoded),
    ensures
        spec_validate_structure(cose) == spec_validate_decoded(decoded),
{
    let rest = cose.recipients@[0].unprotected.rest@;
    if rest.len() == 1 {
        assert(super::codec::spec_recipient_rest_prefix(rest, 0) == Ok::<(), CoseError>(()));
        assert(super::codec::spec_recipient_rest_prefix(rest, 1) == Ok::<(), CoseError>(()));
    }
}

/// What a decryption learns before any key material is used: the content
/// cipher and the recipient suite.
pub open spec fn spec_begin_decrypt(request: CoseMlKemDecryptRequest, external_aad: Seq<u8>) -> Result<
    (CoseContentEncryptionAlgorithm, MlKemSuite),
    CoseError,
> {
    match spec_validate_decrypt_request(request, external_aad) {
        Err(error) => Err(error),
        Ok(_) => match spec_decode_cose_encrypt(request.cose_encrypt@) {
            Err(error) => Err(error),
            Ok(decoded) => match spec_validate_decoded(decoded) {
                Err(error) => Err(error),
                Ok(_) => match spec_content_algorithm_from_cose(decoded.0.0.1.0->Some_0) {
                    Err(error) => Err(error),
                    Ok(content_algorithm) => match spec_suite_from_cose_algorithm(
                        decoded.1.0.1.0->Some_0,
                    ) {
                        Err(error) => Err(error),
                        Ok(suite) => if spec_scan_bytes(decoded.1.0.1.1)
                            != request.expected_recipient_kid@ {
                            Err(CoseError::KidMismatch)
                        } else {
                            Ok((content_algorithm, suite))
                        },
                    },
                },
            },
        },
    }
}

/// A decoded and validated object with its resolved algorithms.
pub struct DecryptPlan {
    /// The decoded object.
    pub cose: CoseEncrypt,
    /// The content cipher of the protected body header.
    pub content_algorithm: CoseContentEncryptionAlgorithm,
    /// The suite of the protected recipient header.
    pub suite: MlKemSuite,
}

/// Check a decryption request, decode and validate its object, and resolve
/// its algorithms and recipient.
pub fn begin_decrypt(request: &CoseMlKemDecryptRequest, external_aad: &[u8]) -> (r: Result<
    DecryptPlan,
    CoseError,
>)
    ensures
        match r {
            Ok(plan) => {
                &&& spec_begin_decrypt(*request, external_aad@) == Ok::<
                    (CoseContentEncryptionAlgorithm, MlKemSuite),
                    CoseError,
                >((plan.content_algorithm, plan.suite))
                &&& spec_decode_cose_encrypt(request.cose_encrypt@) matches Ok(decoded)
                &&& spec_cose_encrypt_holds(plan.cose, decoded)
            },
            Err(error) => spec_begin_decrypt(*request, external_aad@) == Err::<
                (CoseContentEncryptionAlgorithm, MlKemSuite),
                CoseError,
            >(error),
        },
{
    match validate_request(request, external_aad) {
        Ok(()) => {},
        Err(error) => return Err(error),
    }
    let cose = match decode(request.cose_encrypt) {
        Ok(cose) => cose,
        Err(error) => return Err(error),
    };
    let ghost decoded = spec_decode_cose_encrypt(request.cose_encrypt@)->Ok_0;
    proof {
        lemma_validate_decoded(cose, decoded);
    }
    match validate_structure(&cose) {
        Ok(()) => {},
        Err(error) => return Err(error),
    }
    let body_algorithm = match &cose.protected.header.alg {
        Some(algorithm) => algorithm,
        None => return Err(CoseError::UnsupportedAlgorithm),
    };
    let content_algorithm = match content_algorithm_from_cose(body_algorithm) {
        Ok(algorithm) => algorithm,
        Err(error) => return Err(error),
    };
    let recipient = &cose.recipients[0];
    let recipient_algorithm = match &recipient.protected.header.alg {
        Some(algorithm) => algorithm,
        None => return Err(CoseError::UnsupportedAlgorithm),
    };
    let suite = match suite_from_cose_algorithm(recipient_algorithm) {
        Ok(suite) => suite,
        Err(error) => return Err(error),
    };
    if !constant_time_equal(recipient.protected.header.key_id.as_slice(), request.expected_recipient_kid) {
        return Err(CoseError::KidMismatch);
    }
    Ok(DecryptPlan { cose, content_algorithm, suite })
}

/// The recipient's protected `kid`.
pub open spec fn spec_plan_kid(plan: DecryptPlan) -> Seq<u8> {
    plan.cose.recipients@[0].protected.header.key_id@
}

/// The checks of the recipient once its public key is known: the `kid`
/// derived from that key must match, the recipient ciphertext must be
/// present exactly in key-wrap mode, and the encapsulated key must have the
/// suite's length.
pub open spec fn spec_check_recipient(plan: DecryptPlan, derived_kid: Seq<u8>) -> Result<
    Seq<u8>,
    CoseError,
> {
    let recipient = plan.cose.recipients@[0];
    if derived_kid != spec_plan_kid(plan) {
        Err(CoseError::KidMismatch)
    } else if plan.suite.mode == CoseMlKemMode::Direct && recipient.ciphertext is Some {
        Err(CoseError::InvalidRecipient)
    } else if plan.suite.mode == CoseMlKemMode::KeyWrap && recipient.ciphertext is None {
        Err(CoseError::MissingCiphertext)
    } else {
        match spec_find_encapsulated_key(
            recipient.unprotected.rest@,
            recipient.unprotected.rest@.len() as int,
        ) {
            None => Err(CoseError::MissingEncapsulatedKey),
            Some(key) => if key.len() != plan.suite.encapsulated_key_length {
                Err(CoseError::InvalidEncapsulatedKey)
            } else {
                Ok(key)
            },
        }
    }
}

/// Check the recipient against the `kid` derived from the recipient's
/// public key and return the encapsulated key.
pub fn check_recipient<'a>(plan: &'a DecryptPlan, derived_kid: &[u8]) -> (r: Result<
    &'a [u8],
    CoseError,
>)
    requires
        plan.cose.recipients@.len() == 1,
    ensures
        match r {
            Ok(key) => spec_check_recipient(*plan, derived_kid@) == Ok::<Seq<u8>, CoseError>(key@),
            Err(error) => spec_check_recipient(*plan, derived_kid@) == Err::<Seq<u8>, CoseError>(
                error,
            ),
        },
{
    let recipient = &plan.cose.recipients[0];
    if !constant_time_equal(derived_kid, recipient.protected.header.key_id.as_slice()) {
        return Err(CoseError::KidMismatch);
    }
    match plan.suite.mode {
        CoseMlKemMode::Direct => if recipient.ciphertext.is_some() {
            return Err(CoseError::InvalidRecipient);
        },
        CoseMlKemMode::KeyWrap => if recipient.ciphertext.is_none() {
            return Err(CoseError::MissingCiphertext);
        },
    }
    let key = match encapsulated_key(recipient) {
        Ok(key) => key,
        Err(error) => return Err(error),
    };
    if key.len() != plan.suite.encapsulated_key_length {
        return Err(CoseError::InvalidEncapsulatedKey);
    }
    Ok(key)
}

/// The wrapped content key of a key-wrap recipient.
pub fn wrapped_key(plan: &DecryptPlan) -> (r: Result<&[u8], CoseError>)
    requires
        plan.cose.recipients@.len() == 1,
    ensures
        match r {
            Ok(wrapped) => spec_opt_bytes(plan.cose.recipients@[0].ciphertext) == Some(wrapped@),
            Err(error) => error == CoseError::MissingCiphertext
                && plan.cose.recipients@[0].ciphertext is None,
        },
{
    match &plan.cose.recipients[0].ciphertext {
        Some(wrapped) => Ok(wrapped.as_slice()),
        None => Err(CoseError::MissingCiphertext),
    }
}

/// Where the content key of a decrypted object comes from: in direct mode
/// the derived key is the content key (`None`); in key-wrap mode the
/// recipient's wrapped key is unwrapped under the derived key, and the
/// unwrapped key must have the content cipher's key length.
pub fn content_key_source<'a>(plan: &'a DecryptPlan) -> (r: Result<Option<(&'a [u8], usize)>, CoseError>)
    requires
        plan.cose.recipients@.len() == 1,
    ensures
        plan.suite.mode == CoseMlKemMode::Direct ==> r matches Ok(None),
        plan.suite.mode == CoseMlKemMode::KeyWrap ==> match r {
            Ok(Some((wrapped, length))) => spec_opt_bytes(plan.cose.recipients@[0].ciphertext) == Some(
                wrapped@,
            ) && length == spec_content_profile(plan.content_algorithm).1,
            Ok(None) => false,
            Err(error) => error == CoseError::MissingCiphertext && plan.cose.recipients@[0].ciphertext is None,
        },
{
    match plan.suite.mode {
        CoseMlKemMode::Direct => Ok(None),
        CoseMlKemMode::KeyWrap => {
            let wrapped = match wrapped_key(plan) {
                Ok(wrapped) => wrapped,
                Err(error) => return Err(error),
            };
            let (_, length) = content_algorithm_profile(plan.content_algorithm);
            Ok(Some((wrapped, length)))
        },
    }
}

/// An unwrapped content key must have the content cipher's key length.
pub fn check_unwrapped_key(unwrapped: &[u8], expected_length: usize) -> (r: Result<(), CoseError>)
    ensures
        r is Ok <==> unwrapped@.len() == expected_length,
        r is Err ==> r == Err::<(), CoseError>(CoseError::InvalidRecipient),
{
    if unwrapped.len() != expected_length {
        return Err(CoseError::InvalidRecipient);
    }
    Ok(())
}

/// The nonce and authenticated ciphertext of the content layer; a
/// ciphertext shorter than the tag is malformed.
pub fn content_ciphertext(plan: &DecryptPlan) -> (r: Result<(&[u8], &[u8]), CoseError>)
    ensures
        match r {
            Ok((nonce, ciphertext)) => {
                &&& nonce@ == plan.cose.unprotected.iv@
                &&& spec_opt_bytes(plan.cose.ciphertext) == Some(ciphertext@)
                &&& ciphertext@.len() >= AES_GCM_TAG_LENGTH
            },
            Err(error) => match spec_opt_bytes(plan.cose.ciphertext) {
                None => error == CoseError::MissingCiphertext,
                Some(bytes) => error == CoseError::InvalidFormat && bytes.len() < AES_GCM_TAG_LENGTH,
            },
        },
{
    let ciphertext = match &plan.cose.ciphertext {
        Some(ciphertext) => ciphertext,
        None => return Err(CoseError::MissingCiphertext),
    };
    if ciphertext.len() < AES_GCM_TAG_LENGTH {
        return Err(CoseError::InvalidFormat);
    }
    Ok((plan.cose.unprotected.iv.as_slice(), ciphertext.as_slice()))
}

/// Bound the authenticated plaintext and return it with the recipient
/// metadata.
pub fn finish_decrypt(plan: &DecryptPlan, plaintext: Vec<u8>) -> (r: Result<
    DecryptedCoseEncrypt,
    CoseError,
>)
    requires
        plan.cose.recipients@.len() == 1,
    ensures
        match r {
            Ok(result) => {
                &&& plaintext@.len() <= MAX_PLAINTEXT_BYTES
                &&& result.plaintext@ == plaintext@
                &&& result.content_algorithm == plan.content_algorithm
                &&& result.kem_algorithm == plan.suite.kem
                &&& result.mode == plan.suite.mode
                &&& result.kid@ == spec_plan_kid(*plan)
                &&& result.profile == plan.suite.profile
            },
            Err(error) => error == CoseError::ResourceLimitExceeded && plaintext@.len()
                > MAX_PLAINTEXT_BYTES,
        },
{
    if plaintext.len() > MAX_PLAINTEXT_BYTES {
        return Err(CoseError::ResourceLimitExceeded);
    }
    Ok(
        DecryptedCoseEncrypt {
            plaintext,
            content_algorithm: plan.content_algorithm,
            kem_algorithm: plan.suite.kem,
            mode: plan.suite.mode,
            kid: vstd::slice::slice_to_vec(plan.cose.recipients[0].protected.header.key_id.as_slice()),
            profile: plan.suite.profile,
        },
    )
}

} // verus!
