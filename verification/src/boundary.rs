//! Structured errors of the protobuf operation boundary, and the canonical
//! mapping of semantic failures onto them.
//!
//! A boundary error carries a branch and an exact reason. Every semantic
//! failure keeps its branch and its reason on the way out, so a caller on
//! the far side of the boundary can tell every public error apart.

use vstd::prelude::*;

use crate::error::CoseError;
use crate::failure::{
    lemma_failure_origin_classification, lemma_native_error_roundtrip, spec_failure_from_error,
    CoseFailure, CoseFailureBranch, CoseFailureReason,
};

verus! {

/// Exact reason carried by a boundary error.
#[derive(Clone, Copy, Debug, PartialEq, Eq, Structural)]
pub enum CoseErrorReason {
    BackendInternal,
    CommonInvalidParameter,
    CommonInvalidLength,
    CommonCbor,
    CommonUnsupportedAlgorithm,
    Sign1MissingPayload,
    Sign1InvalidSignature,
    Sign1InvalidSignatureEncoding,
    CommonCryptoFailed,
    ProviderUnavailable,
    MultikeyInvalidMultikey,
    KeyMissingKeyMaterial,
    KeyInvalidKeyMaterial,
    Sign1MissingKid,
    Sign1KeyNotResolved,
    CommonInvalidFormat,
    CommonResourceLimitExceeded,
    CommonNonCanonicalCbor,
    CommonUnexpectedCborTag,
    CommonDuplicateMapLabel,
    Sign1UnsupportedCriticalHeader,
    Sign1UnprotectedHeaderNotAllowed,
    Sign1MissingPrivateKey,
    Sign1KidKeyMismatch,
    EncryptMissingCiphertext,
    EncryptInvalidIv,
    EncryptInvalidRecipient,
    EncryptMissingEncapsulatedKey,
    EncryptInvalidEncapsulatedKey,
    EncryptAuthenticationFailed,
    EncryptKeyUnwrapFailed,
    EncryptKidMismatch,
    EncryptMissingKid,
    EncryptUnprotectedHeaderNotAllowed,
}

/// Branch of a boundary error.
#[derive(Clone, Copy, Debug, PartialEq, Eq, Structural)]
pub enum CoseWireErrorBranch {
    /// COSE input, structure, key material or authentication failed.
    Primitive,
    /// Provider selection or availability failed.
    Provider,
    /// Backend execution failed.
    Backend,
}

/// A structured boundary error.
#[derive(Clone, Copy, Debug, PartialEq, Eq, Structural)]
pub struct CoseWireError {
    branch: CoseWireErrorBranch,
    reason: CoseErrorReason,
}

impl CoseWireError {
    /// The branch of the error.
    pub closed spec fn spec_branch(self) -> CoseWireErrorBranch {
        self.branch
    }

    /// The reason of the error.
    pub closed spec fn spec_reason(self) -> CoseErrorReason {
        self.reason
    }

    /// An error on the primitive branch.
    pub fn primitive_internal(reason: CoseErrorReason) -> (r: Self)
        ensures
            r.spec_branch() == CoseWireErrorBranch::Primitive,
            r.spec_reason() == reason,
    {
        CoseWireError { branch: CoseWireErrorBranch::Primitive, reason }
    }

    /// An error on the provider branch.
    pub fn provider_internal(reason: CoseErrorReason) -> (r: Self)
        ensures
            r.spec_branch() == CoseWireErrorBranch::Provider,
            r.spec_reason() == reason,
    {
        CoseWireError { branch: CoseWireErrorBranch::Provider, reason }
    }

    /// An error on the backend branch.
    pub fn backend_internal(reason: CoseErrorReason) -> (r: Self)
        ensures
            r.spec_branch() == CoseWireErrorBranch::Backend,
            r.spec_reason() == reason,
    {
        CoseWireError { branch: CoseWireErrorBranch::Backend, reason }
    }

    /// The branch of the error.
    pub fn branch(&self) -> (r: CoseWireErrorBranch)
        ensures
            r == self.spec_branch(),
    {
        self.branch
    }

    /// The reason of the error.
    pub fn reason(&self) -> (r: CoseErrorReason)
        ensures
            r == self.spec_reason(),
    {
        self.reason
    }
}

/// The boundary reason of a semantic reason: the reason of the same name.
pub open spec fn spec_reason_from_failure(reason: CoseFailureReason) -> CoseErrorReason {
    match reason {
        CoseFailureReason::CommonCbor => CoseErrorReason::CommonCbor,
        CoseFailureReason::CommonUnsupportedAlgorithm => CoseErrorReason::CommonUnsupportedAlgorithm,
        CoseFailureReason::Sign1MissingPayload => CoseErrorReason::Sign1MissingPayload,
        CoseFailureReason::Sign1InvalidSignature => CoseErrorReason::Sign1InvalidSignature,
        CoseFailureReason::Sign1InvalidSignatureEncoding => CoseErrorReason::Sign1InvalidSignatureEncoding,
        CoseFailureReason::CommonCryptoFailed => CoseErrorReason::CommonCryptoFailed,
        CoseFailureReason::ProviderUnavailable => CoseErrorReason::ProviderUnavailable,
        CoseFailureReason::MultikeyInvalidMultikey => CoseErrorReason::MultikeyInvalidMultikey,
        CoseFailureReason::KeyMissingKeyMaterial => CoseErrorReason::KeyMissingKeyMaterial,
        CoseFailureReason::KeyInvalidKeyMaterial => CoseErrorReason::KeyInvalidKeyMaterial,
        CoseFailureReason::Sign1MissingKid => CoseErrorReason::Sign1MissingKid,
        CoseFailureReason::Sign1KeyNotResolved => CoseErrorReason::Sign1KeyNotResolved,
        CoseFailureReason::CommonInvalidFormat => CoseErrorReason::CommonInvalidFormat,
        CoseFailureReason::CommonResourceLimitExceeded => CoseErrorReason::CommonResourceLimitExceeded,
        CoseFailureReason::CommonNonCanonicalCbor => CoseErrorReason::CommonNonCanonicalCbor,
        CoseFailureReason::CommonUnexpectedCborTag => CoseErrorReason::CommonUnexpectedCborTag,
        CoseFailureReason::CommonDuplicateMapLabel => CoseErrorReason::CommonDuplicateMapLabel,
        CoseFailureReason::Sign1UnsupportedCriticalHeader => CoseErrorReason::Sign1UnsupportedCriticalHeader,
        CoseFailureReason::Sign1UnprotectedHeaderNotAllowed => CoseErrorReason::Sign1UnprotectedHeaderNotAllowed,
        CoseFailureReason::Sign1MissingPrivateKey => CoseErrorReason::Sign1MissingPrivateKey,
        CoseFailureReason::Sign1KidKeyMismatch => CoseErrorReason::Sign1KidKeyMismatch,
        CoseFailureReason::EncryptMissingCiphertext => CoseErrorReason::EncryptMissingCiphertext,
        CoseFailureReason::EncryptInvalidIv => CoseErrorReason::EncryptInvalidIv,
        CoseFailureReason::EncryptInvalidRecipient => CoseErrorReason::EncryptInvalidRecipient,
        CoseFailureReason::EncryptMissingEncapsulatedKey => CoseErrorReason::EncryptMissingEncapsulatedKey,
        CoseFailureReason::EncryptInvalidEncapsulatedKey => CoseErrorReason::EncryptInvalidEncapsulatedKey,
        CoseFailureReason::EncryptAuthenticationFailed => CoseErrorReason::EncryptAuthenticationFailed,
        CoseFailureReason::EncryptKeyUnwrapFailed => CoseErrorReason::EncryptKeyUnwrapFailed,
        CoseFailureReason::EncryptKidMismatch => CoseErrorReason::EncryptKidMismatch,
        CoseFailureReason::EncryptMissingKid => CoseErrorReason::EncryptMissingKid,
        CoseFailureReason::EncryptUnprotectedHeaderNotAllowed => CoseErrorReason::EncryptUnprotectedHeaderNotAllowed,
    }
}

/// The boundary branch of a failure branch: the branch of the same name.
pub open spec fn spec_wire_branch(branch: CoseFailureBranch) -> CoseWireErrorBranch {
    match branch {
        CoseFailureBranch::Primitive => CoseWireErrorBranch::Primitive,
        CoseFailureBranch::Provider => CoseWireErrorBranch::Provider,
        CoseFailureBranch::Backend => CoseWireErrorBranch::Backend,
    }
}

/// The boundary reason of a semantic reason.
pub fn reason_from_failure(reason: CoseFailureReason) -> (r: CoseErrorReason)
    ensures
        r == spec_reason_from_failure(reason),
{
    match reason {
        CoseFailureReason::CommonCbor => CoseErrorReason::CommonCbor,
        CoseFailureReason::CommonUnsupportedAlgorithm => CoseErrorReason::CommonUnsupportedAlgorithm,
        CoseFailureReason::Sign1MissingPayload => CoseErrorReason::Sign1MissingPayload,
        CoseFailureReason::Sign1InvalidSignature => CoseErrorReason::Sign1InvalidSignature,
        CoseFailureReason::Sign1InvalidSignatureEncoding => CoseErrorReason::Sign1InvalidSignatureEncoding,
        CoseFailureReason::CommonCryptoFailed => CoseErrorReason::CommonCryptoFailed,
        CoseFailureReason::ProviderUnavailable => CoseErrorReason::ProviderUnavailable,
        CoseFailureReason::MultikeyInvalidMultikey => CoseErrorReason::MultikeyInvalidMultikey,
        CoseFailureReason::KeyMissingKeyMaterial => CoseErrorReason::KeyMissingKeyMaterial,
        CoseFailureReason::KeyInvalidKeyMaterial => CoseErrorReason::KeyInvalidKeyMaterial,
        CoseFailureReason::Sign1MissingKid => CoseErrorReason::Sign1MissingKid,
        CoseFailureReason::Sign1KeyNotResolved => CoseErrorReason::Sign1KeyNotResolved,
        CoseFailureReason::CommonInvalidFormat => CoseErrorReason::CommonInvalidFormat,
        CoseFailureReason::CommonResourceLimitExceeded => CoseErrorReason::CommonResourceLimitExceeded,
        CoseFailureReason::CommonNonCanonicalCbor => CoseErrorReason::CommonNonCanonicalCbor,
        CoseFailureReason::CommonUnexpectedCborTag => CoseErrorReason::CommonUnexpectedCborTag,
        CoseFailureReason::CommonDuplicateMapLabel => CoseErrorReason::CommonDuplicateMapLabel,
        CoseFailureReason::Sign1UnsupportedCriticalHeader => CoseErrorReason::Sign1UnsupportedCriticalHeader,
        CoseFailureReason::Sign1UnprotectedHeaderNotAllowed => CoseErrorReason::Sign1UnprotectedHeaderNotAllowed,
        CoseFailureReason::Sign1MissingPrivateKey => CoseErrorReason::Sign1MissingPrivateKey,
        CoseFailureReason::Sign1KidKeyMismatch => CoseErrorReason::Sign1KidKeyMismatch,
        CoseFailureReason::EncryptMissingCiphertext => CoseErrorReason::EncryptMissingCiphertext,
        CoseFailureReason::EncryptInvalidIv => CoseErrorReason::EncryptInvalidIv,
        CoseFailureReason::EncryptInvalidRecipient => CoseErrorReason::EncryptInvalidRecipient,
        CoseFailureReason::EncryptMissingEncapsulatedKey => CoseErrorReason::EncryptMissingEncapsulatedKey,
        CoseFailureReason::EncryptInvalidEncapsulatedKey => CoseErrorReason::EncryptInvalidEncapsulatedKey,
        CoseFailureReason::EncryptAuthenticationFailed => CoseErrorReason::EncryptAuthenticationFailed,
        CoseFailureReason::EncryptKeyUnwrapFailed => CoseErrorReason::EncryptKeyUnwrapFailed,
        CoseFailureReason::EncryptKidMismatch => CoseErrorReason::EncryptKidMismatch,
        CoseFailureReason::EncryptMissingKid => CoseErrorReason::EncryptMissingKid,
        CoseFailureReason::EncryptUnprotectedHeaderNotAllowed => CoseErrorReason::EncryptUnprotectedHeaderNotAllowed,
    }
}

/// The boundary error of a semantic failure: its branch and its reason.
pub fn boundary_error_from_failure(failure: CoseFailure) -> (r: CoseWireError)
    ensures
        r.spec_branch() == spec_wire_branch(failure.spec_branch()),
        r.spec_reason() == spec_reason_from_failure(failure.spec_reason()),
{
    let reason = reason_from_failure(failure.reason());
    match failure.branch() {
        CoseFailureBranch::Primitive => CoseWireError::primitive_internal(reason),
        CoseFailureBranch::Provider => CoseWireError::provider_internal(reason),
        CoseFailureBranch::Backend => CoseWireError::backend_internal(reason),
    }
}

/// The boundary loses no semantic reason: distinct reasons give distinct
/// boundary reasons.
pub proof fn lemma_reason_from_failure_injective(a: CoseFailureReason, b: CoseFailureReason)
    ensures
        spec_reason_from_failure(a) == spec_reason_from_failure(b) ==> a == b,
{
}

/// Every public error crosses the boundary losslessly: the boundary reason
/// of its canonical failure determines the error, and it is reported on the
/// provider branch exactly for unsupported algorithms and unavailable
/// providers, on the backend branch exactly for backend crypto failures, and
/// on the primitive branch otherwise.
pub proof fn lemma_boundary_error_lossless(a: CoseError, b: CoseError)
    ensures
        spec_reason_from_failure(spec_failure_from_error(a).spec_reason())
            == spec_reason_from_failure(spec_failure_from_error(b).spec_reason()) ==> a == b,
        spec_wire_branch(spec_failure_from_error(a).spec_branch()) == (if a == CoseError::UnsupportedAlgorithm
            || a == CoseError::ProviderUnavailable {
            CoseWireErrorBranch::Provider
        } else if a == CoseError::Crypto {
            CoseWireErrorBranch::Backend
        } else {
            CoseWireErrorBranch::Primitive
        }),
{
    lemma_native_error_roundtrip(a);
    lemma_native_error_roundtrip(b);
    lemma_failure_origin_classification(a);
    lemma_reason_from_failure_injective(
        spec_failure_from_error(a).spec_reason(),
        spec_failure_from_error(b).spec_reason(),
    );
}

/// The size limit a request asks for: `0` asks for the library's `default`;
/// any other value is the limit itself, which must fit `usize` (else an
/// invalid length) and stay within `message_limit`, the largest protobuf
/// message accepted (else a resource-limit error); both errors are on the
/// primitive branch.
pub fn optional_limit_to_usize(value: u64, default: usize, message_limit: usize) -> (r: Result<
    usize,
    CoseWireError,
>)
    ensures
        value == 0 ==> r == Ok::<usize, CoseWireError>(default),
        value != 0 && value > usize::MAX ==> (r matches Err(error) && error.spec_branch()
            == CoseWireErrorBranch::Primitive && error.spec_reason() == CoseErrorReason::CommonInvalidLength),
        value != 0 && value <= usize::MAX && value > message_limit ==> (r matches Err(error)
            && error.spec_branch() == CoseWireErrorBranch::Primitive && error.spec_reason()
            == CoseErrorReason::CommonResourceLimitExceeded),
        value != 0 && value <= message_limit ==> r == Ok::<usize, CoseWireError>(value as usize),
{
    if value == 0 {
        return Ok(default);
    }
    if value > usize::MAX as u64 {
        return Err(CoseWireError::primitive_internal(CoseErrorReason::CommonInvalidLength));
    }
    let limit = value as usize;
    if limit > message_limit {
        return Err(CoseWireError::primitive_internal(CoseErrorReason::CommonResourceLimitExceeded));
    }
    Ok(limit)
}

} // verus!
