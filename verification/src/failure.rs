//! Canonical internal COSE failure classification.
//!
//! A [`CoseFailure`] pairs the component responsible for a failure with the
//! external branch it is reported on and an exact, allocation-free reason. It
//! carries only fixed enums and therefore cannot retain secrets, PII, raw
//! input, or backend text.

use vstd::prelude::*;

use crate::error::CoseError;

verus! {

/// Component responsible for a failed COSE operation.
#[derive(Clone, Copy, Debug, PartialEq, Eq, Structural)]
pub enum CoseFailureOrigin {
    /// Caller-controlled input or COSE semantic validation failed.
    Caller,
    /// Algorithm selection or provider availability failed.
    Provider,
    /// Cryptographic backend or internal execution failed.
    Backend,
}

/// Structured external error branch selected for a failure.
#[derive(Clone, Copy, Debug, PartialEq, Eq, Structural)]
pub enum CoseFailureBranch {
    /// COSE input, structure, key material, or authentication semantics failed.
    Primitive,
    /// Provider selection or availability failed.
    Provider,
    /// Backend execution failed without caller-safe detail.
    Backend,
}

/// Exact semantic reason retained across COSE boundaries.
#[derive(Clone, Copy, Debug, PartialEq, Eq, Structural)]
pub enum CoseFailureReason {
    CommonCbor,
    CommonUnsupportedAlgorithm,
    Sign1MissingPayload,
    Sign1InvalidSignature,
    Sign1InvalidSignatureEncoding,
    CommonCryptoFailed,
    ProviderUnavailable,
    MultikeyInvalidMultikey,
    KeyMissingKeyMaterial,
    KeyInvalidKeyMaterial,
    Sign1MissingKid,
    Sign1KeyNotResolved,
    CommonInvalidFormat,
    CommonResourceLimitExceeded,
    CommonNonCanonicalCbor,
    CommonUnexpectedCborTag,
    CommonDuplicateMapLabel,
    Sign1UnsupportedCriticalHeader,
    Sign1UnprotectedHeaderNotAllowed,
    Sign1MissingPrivateKey,
    Sign1KidKeyMismatch,
    EncryptMissingCiphertext,
    EncryptInvalidIv,
    EncryptInvalidRecipient,
    EncryptMissingEncapsulatedKey,
    EncryptInvalidEncapsulatedKey,
    EncryptAuthenticationFailed,
    EncryptKeyUnwrapFailed,
    EncryptKidMismatch,
    EncryptMissingKid,
    EncryptUnprotectedHeaderNotAllowed,
}

/// The branch on which failures of each origin are reported.
pub open spec fn branch_for_origin(origin: CoseFailureOrigin) -> CoseFailureBranch {
    match origin {
        CoseFailureOrigin::Caller => CoseFailureBranch::Primitive,
        CoseFailureOrigin::Provider => CoseFailureBranch::Provider,
        CoseFailureOrigin::Backend => CoseFailureBranch::Backend,
    }
}

/// Canonical internal failure shared by semantic functions and adapters.
///
/// The fields are private to the crate so that only the canonical
/// constructors, which pair each origin with its branch, build values.
#[derive(Clone, Copy, Debug, PartialEq, Eq, Structural)]
pub struct CoseFailure {
    origin: CoseFailureOrigin,
    branch: CoseFailureBranch,
    reason: CoseFailureReason,
}

/// The public error that a semantic reason is exposed as.
pub open spec fn spec_reason_error(reason: CoseFailureReason) -> CoseError {
    match reason {
        CoseFailureReason::CommonCbor => CoseError::Cbor,
        CoseFailureReason::CommonUnsupportedAlgorithm => CoseError::UnsupportedAlgorithm,
        CoseFailureReason::Sign1MissingPayload => CoseError::MissingPayload,
        CoseFailureReason::Sign1InvalidSignature => CoseError::InvalidSignature,
        CoseFailureReason::Sign1InvalidSignatureEncoding => CoseError::InvalidSignatureEncoding,
        CoseFailureReason::CommonCryptoFailed => CoseError::Crypto,
        CoseFailureReason::ProviderUnavailable => CoseError::ProviderUnavailable,
        CoseFailureReason::MultikeyInvalidMultikey => CoseError::InvalidMultikey,
        CoseFailureReason::KeyMissingKeyMaterial => CoseError::MissingKeyMaterial,
        CoseFailureReason::KeyInvalidKeyMaterial => CoseError::InvalidKeyMaterial,
        CoseFailureReason::Sign1MissingKid => CoseError::MissingKid,
        CoseFailureReason::Sign1KeyNotResolved => CoseError::KeyNotResolved,
        CoseFailureReason::CommonInvalidFormat => CoseError::InvalidFormat,
        CoseFailureReason::CommonResourceLimitExceeded => CoseError::ResourceLimitExceeded,
        CoseFailureReason::CommonNonCanonicalCbor => CoseError::NonCanonicalCbor,
        CoseFailureReason::CommonUnexpectedCborTag => CoseError::UnexpectedCborTag,
        CoseFailureReason::CommonDuplicateMapLabel => CoseError::DuplicateMapLabel,
        CoseFailureReason::Sign1UnsupportedCriticalHeader => CoseError::UnsupportedCriticalHeader,
        CoseFailureReason::Sign1UnprotectedHeaderNotAllowed => CoseError::UnprotectedHeaderNotAllowed,
        CoseFailureReason::Sign1MissingPrivateKey => CoseError::MissingPrivateKey,
        CoseFailureReason::Sign1KidKeyMismatch => CoseError::KeyNotResolved,
        CoseFailureReason::EncryptMissingCiphertext => CoseError::MissingCiphertext,
        CoseFailureReason::EncryptInvalidIv => CoseError::InvalidIv,
        CoseFailureReason::EncryptInvalidRecipient => CoseError::InvalidRecipient,
        CoseFailureReason::EncryptMissingEncapsulatedKey => CoseError::MissingEncapsulatedKey,
        CoseFailureReason::EncryptInvalidEncapsulatedKey => CoseError::InvalidEncapsulatedKey,
        CoseFailureReason::EncryptAuthenticationFailed => CoseError::AuthenticationFailed,
        CoseFailureReason::EncryptKeyUnwrapFailed => CoseError::KeyUnwrapFailed,
        CoseFailureReason::EncryptKidMismatch => CoseError::KidMismatch,
        CoseFailureReason::EncryptMissingKid => CoseError::MissingKid,
        CoseFailureReason::EncryptUnprotectedHeaderNotAllowed => CoseError::UnprotectedHeaderNotAllowed,
    }
}

/// The exact reason a public error is classified under.
pub open spec fn spec_error_reason(error: CoseError) -> CoseFailureReason {
    match error {
        CoseError::Cbor => CoseFailureReason::CommonCbor,
        CoseError::UnsupportedAlgorithm => CoseFailureReason::CommonUnsupportedAlgorithm,
        CoseError::MissingPayload => CoseFailureReason::Sign1MissingPayload,
        CoseError::InvalidSignature => CoseFailureReason::Sign1InvalidSignature,
        CoseError::InvalidSignatureEncoding => CoseFailureReason::Sign1InvalidSignatureEncoding,
        CoseError::Crypto => CoseFailureReason::CommonCryptoFailed,
        CoseError::ProviderUnavailable => CoseFailureReason::ProviderUnavailable,
        CoseError::InvalidMultikey => CoseFailureReason::MultikeyInvalidMultikey,
        CoseError::MissingKeyMaterial => CoseFailureReason::KeyMissingKeyMaterial,
        CoseError::InvalidKeyMaterial => CoseFailureReason::KeyInvalidKeyMaterial,
        CoseError::MissingKid => CoseFailureReason::Sign1MissingKid,
        CoseError::KeyNotResolved => CoseFailureReason::Sign1KeyNotResolved,
        CoseError::InvalidFormat => CoseFailureReason::CommonInvalidFormat,
        CoseError::ResourceLimitExceeded => CoseFailureReason::CommonResourceLimitExceeded,
        CoseError::NonCanonicalCbor => CoseFailureReason::CommonNonCanonicalCbor,
        CoseError::UnexpectedCborTag => CoseFailureReason::CommonUnexpectedCborTag,
        CoseError::DuplicateMapLabel => CoseFailureReason::CommonDuplicateMapLabel,
        CoseError::UnsupportedCriticalHeader => CoseFailureReason::Sign1UnsupportedCriticalHeader,
        CoseError::UnprotectedHeaderNotAllowed => CoseFailureReason::Sign1UnprotectedHeaderNotAllowed,
        CoseError::MissingPrivateKey => CoseFailureReason::Sign1MissingPrivateKey,
        CoseError::MissingCiphertext => CoseFailureReason::EncryptMissingCiphertext,
        CoseError::InvalidIv => CoseFailureReason::EncryptInvalidIv,
        CoseError::InvalidRecipient => CoseFailureReason::EncryptInvalidRecipient,
        CoseError::MissingEncapsulatedKey => CoseFailureReason::EncryptMissingEncapsulatedKey,
        CoseError::InvalidEncapsulatedKey => CoseFailureReason::EncryptInvalidEncapsulatedKey,
        CoseError::AuthenticationFailed => CoseFailureReason::EncryptAuthenticationFailed,
        CoseError::KeyUnwrapFailed => CoseFailureReason::EncryptKeyUnwrapFailed,
        CoseError::KidMismatch => CoseFailureReason::EncryptKidMismatch,
    }
}

/// The component held responsible for a public error: algorithm selection
/// and provider availability are the provider's, a failed primitive is the
/// backend's, and every other error is the caller's.
pub open spec fn spec_error_origin(error: CoseError) -> CoseFailureOrigin {
    match error {
        CoseError::UnsupportedAlgorithm => CoseFailureOrigin::Provider,
        CoseError::Crypto => CoseFailureOrigin::Backend,
        CoseError::ProviderUnavailable => CoseFailureOrigin::Provider,
        _ => CoseFailureOrigin::Caller,
    }
}

/// The reason of an error raised by the `COSE_Encrypt` profile: a missing or
/// unprotected recipient `kid` has a reason of its own, every other error
/// the reason of [`spec_error_reason`].
pub open spec fn spec_encrypt_error_reason(error: CoseError) -> CoseFailureReason {
    match error {
        CoseError::MissingKid => CoseFailureReason::EncryptMissingKid,
        CoseError::UnprotectedHeaderNotAllowed => CoseFailureReason::EncryptUnprotectedHeaderNotAllowed,
        other => spec_error_reason(other),
    }
}

/// The failure built from `reason` for a failure of `origin`.
pub closed spec fn spec_failure(origin: CoseFailureOrigin, reason: CoseFailureReason) -> CoseFailure {
    CoseFailure { origin, branch: branch_for_origin(origin), reason }
}

/// The canonical failure of a public error.
pub closed spec fn spec_failure_from_error(error: CoseError) -> CoseFailure {
    match error {
        CoseError::Cbor => spec_failure(CoseFailureOrigin::Caller, CoseFailureReason::CommonCbor),
        CoseError::UnsupportedAlgorithm => spec_failure(CoseFailureOrigin::Provider, CoseFailureReason::CommonUnsupportedAlgorithm),
        CoseError::MissingPayload => spec_failure(CoseFailureOrigin::Caller, CoseFailureReason::Sign1MissingPayload),
        CoseError::InvalidSignature => spec_failure(CoseFailureOrigin::Caller, CoseFailureReason::Sign1InvalidSignature),
        CoseError::InvalidSignatureEncoding => spec_failure(CoseFailureOrigin::Caller, CoseFailureReason::Sign1InvalidSignatureEncoding),
        CoseError::Crypto => spec_failure(CoseFailureOrigin::Backend, CoseFailureReason::CommonCryptoFailed),
        CoseError::ProviderUnavailable => spec_failure(CoseFailureOrigin::Provider, CoseFailureReason::ProviderUnavailable),
        CoseError::InvalidMultikey => spec_failure(CoseFailureOrigin::Caller, CoseFailureReason::MultikeyInvalidMultikey),
        CoseError::MissingKeyMaterial => spec_failure(CoseFailureOrigin::Caller, CoseFailureReason::KeyMissingKeyMaterial),
        CoseError::InvalidKeyMaterial => spec_failure(CoseFailureOrigin::Caller, CoseFailureReason::KeyInvalidKeyMaterial),
        CoseError::MissingKid => spec_failure(CoseFailureOrigin::Caller, CoseFailureReason::Sign1MissingKid),
        CoseError::KeyNotResolved => spec_failure(CoseFailureOrigin::Caller, CoseFailureReason::Sign1KeyNotResolved),
        CoseError::InvalidFormat => spec_failure(CoseFailureOrigin::Caller, CoseFailureReason::CommonInvalidFormat),
        CoseError::ResourceLimitExceeded => spec_failure(CoseFailureOrigin::Caller, CoseFailureReason::CommonResourceLimitExceeded),
        CoseError::NonCanonicalCbor => spec_failure(CoseFailureOrigin::Caller, CoseFailureReason::CommonNonCanonicalCbor),
        CoseError::UnexpectedCborTag => spec_failure(CoseFailureOrigin::Caller, CoseFailureReason::CommonUnexpectedCborTag),
        CoseError::DuplicateMapLabel => spec_failure(CoseFailureOrigin::Caller, CoseFailureReason::CommonDuplicateMapLabel),
        CoseError::UnsupportedCriticalHeader => spec_failure(CoseFailureOrigin::Caller, CoseFailureReason::Sign1UnsupportedCriticalHeader),
        CoseError::UnprotectedHeaderNotAllowed => spec_failure(CoseFailureOrigin::Caller, CoseFailureReason::Sign1UnprotectedHeaderNotAllowed),
        CoseError::MissingPrivateKey => spec_failure(CoseFailureOrigin::Caller, CoseFailureReason::Sign1MissingPrivateKey),
        CoseError::MissingCiphertext => spec_failure(CoseFailureOrigin::Caller, CoseFailureReason::EncryptMissingCiphertext),
        CoseError::InvalidIv => spec_failure(CoseFailureOrigin::Caller, CoseFailureReason::EncryptInvalidIv),
        CoseError::InvalidRecipient => spec_failure(CoseFailureOrigin::Caller, CoseFailureReason::EncryptInvalidRecipient),
        CoseError::MissingEncapsulatedKey => spec_failure(CoseFailureOrigin::Caller, CoseFailureReason::EncryptMissingEncapsulatedKey),
        CoseError::InvalidEncapsulatedKey => spec_failure(CoseFailureOrigin::Caller, CoseFailureReason::EncryptInvalidEncapsulatedKey),
        CoseError::AuthenticationFailed => spec_failure(CoseFailureOrigin::Caller, CoseFailureReason::EncryptAuthenticationFailed),
        CoseError::KeyUnwrapFailed => spec_failure(CoseFailureOrigin::Caller, CoseFailureReason::EncryptKeyUnwrapFailed),
        CoseError::KidMismatch => spec_failure(CoseFailureOrigin::Caller, CoseFailureReason::EncryptKidMismatch),
    }
}

/// The canonical failure of an error raised by the `COSE_Encrypt` profile,
/// where a missing or unprotected recipient `kid` has its own reasons.
pub closed spec fn spec_failure_from_encrypt_error(error: CoseError) -> CoseFailure {
    match error {
        CoseError::MissingKid => spec_failure(
            CoseFailureOrigin::Caller,
            CoseFailureReason::EncryptMissingKid,
        ),
        CoseError::UnprotectedHeaderNotAllowed => spec_failure(
            CoseFailureOrigin::Caller,
            CoseFailureReason::EncryptUnprotectedHeaderNotAllowed,
        ),
        other => spec_failure_from_error(other),
    }
}

impl CoseFailure {
    /// The component responsible for the failure.
    pub closed spec fn spec_origin(self) -> CoseFailureOrigin {
        self.origin
    }

    /// The branch the failure is reported on.
    pub closed spec fn spec_branch(self) -> CoseFailureBranch {
        self.branch
    }

    /// The exact semantic reason of the failure.
    pub closed spec fn spec_reason(self) -> CoseFailureReason {
        self.reason
    }

    /// Every failure reports its origin on the matching branch.
    #[verifier::type_invariant]
    spec fn paired(self) -> bool {
        self.branch == branch_for_origin(self.origin)
    }

    /// The component responsible for the failure.
    pub fn origin(&self) -> (r: CoseFailureOrigin)
        ensures
            r == self.spec_origin(),
    {
        self.origin
    }

    /// The external branch, which is always the one of the origin.
    pub fn branch(&self) -> (r: CoseFailureBranch)
        ensures
            r == self.spec_branch(),
            r == branch_for_origin(self.spec_origin()),
    {
        proof {
            use_type_invariant(self);
        }
        self.branch
    }

    /// The exact semantic reason.
    pub fn reason(&self) -> (r: CoseFailureReason)
        ensures
            r == self.spec_reason(),
    {
        self.reason
    }

    /// Converts a semantic failure to the public native error.
    pub fn into_native_error(self) -> (r: CoseError)
        ensures
            r == spec_reason_error(self.spec_reason()),
    {
        match self.reason {
            CoseFailureReason::CommonCbor => CoseError::Cbor,
            CoseFailureReason::CommonUnsupportedAlgorithm => CoseError::UnsupportedAlgorithm,
            CoseFailureReason::Sign1MissingPayload => CoseError::MissingPayload,
            CoseFailureReason::Sign1InvalidSignature => CoseError::InvalidSignature,
            CoseFailureReason::Sign1InvalidSignatureEncoding => CoseError::InvalidSignatureEncoding,
            CoseFailureReason::CommonCryptoFailed => CoseError::Crypto,
            CoseFailureReason::ProviderUnavailable => CoseError::ProviderUnavailable,
            CoseFailureReason::MultikeyInvalidMultikey => CoseError::InvalidMultikey,
            CoseFailureReason::KeyMissingKeyMaterial => CoseError::MissingKeyMaterial,
            CoseFailureReason::KeyInvalidKeyMaterial => CoseError::InvalidKeyMaterial,
            CoseFailureReason::Sign1MissingKid => CoseError::MissingKid,
            CoseFailureReason::Sign1KeyNotResolved => CoseError::KeyNotResolved,
            CoseFailureReason::CommonInvalidFormat => CoseError::InvalidFormat,
            CoseFailureReason::CommonResourceLimitExceeded => CoseError::ResourceLimitExceeded,
            CoseFailureReason::CommonNonCanonicalCbor => CoseError::NonCanonicalCbor,
            CoseFailureReason::CommonUnexpectedCborTag => CoseError::UnexpectedCborTag,
            CoseFailureReason::CommonDuplicateMapLabel => CoseError::DuplicateMapLabel,
            CoseFailureReason::Sign1UnsupportedCriticalHeader => CoseError::UnsupportedCriticalHeader,
            CoseFailureReason::Sign1UnprotectedHeaderNotAllowed => CoseError::UnprotectedHeaderNotAllowed,
            CoseFailureReason::Sign1MissingPrivateKey => CoseError::MissingPrivateKey,
            CoseFailureReason::Sign1KidKeyMismatch => CoseError::KeyNotResolved,
            CoseFailureReason::EncryptMissingCiphertext => CoseError::MissingCiphertext,
            CoseFailureReason::EncryptInvalidIv => CoseError::InvalidIv,
            CoseFailureReason::EncryptInvalidRecipient => CoseError::InvalidRecipient,
            CoseFailureReason::EncryptMissingEncapsulatedKey => CoseError::MissingEncapsulatedKey,
            CoseFailureReason::EncryptInvalidEncapsulatedKey => CoseError::InvalidEncapsulatedKey,
            CoseFailureReason::EncryptAuthenticationFailed => CoseError::AuthenticationFailed,
            CoseFailureReason::EncryptKeyUnwrapFailed => CoseError::KeyUnwrapFailed,
            CoseFailureReason::EncryptKidMismatch => CoseError::KidMismatch,
            CoseFailureReason::EncryptMissingKid => CoseError::MissingKid,
            CoseFailureReason::EncryptUnprotectedHeaderNotAllowed => {
                CoseError::UnprotectedHeaderNotAllowed
            },
        }
    }

    fn caller(reason: CoseFailureReason) -> (r: Self)
        ensures
            r == spec_failure(CoseFailureOrigin::Caller, reason),
    {
        CoseFailure {
            origin: CoseFailureOrigin::Caller,
            branch: CoseFailureBranch::Primitive,
            reason,
        }
    }

    fn provider(reason: CoseFailureReason) -> (r: Self)
        ensures
            r == spec_failure(CoseFailureOrigin::Provider, reason),
    {
        CoseFailure {
            origin: CoseFailureOrigin::Provider,
            branch: CoseFailureBranch::Provider,
            reason,
        }
    }

    fn backend(reason: CoseFailureReason) -> (r: Self)
        ensures
            r == spec_failure(CoseFailureOrigin::Backend, reason),
    {
        CoseFailure {
            origin: CoseFailureOrigin::Backend,
            branch: CoseFailureBranch::Backend,
            reason,
        }
    }

    /// The failure of a `COSE_Sign1` whose `kid` names a key other than the
    /// one that verified it; callers observe it as an unresolved key.
    pub fn sign1_kid_key_mismatch() -> (r: Self)
        ensures
            r == spec_failure(CoseFailureOrigin::Caller, CoseFailureReason::Sign1KidKeyMismatch),
    {
        Self::caller(CoseFailureReason::Sign1KidKeyMismatch)
    }

    /// The canonical failure of an error raised by the `COSE_Encrypt` profile.
    pub fn from_encrypt_error(error: CoseError) -> (r: Self)
        ensures
            r == spec_failure_from_encrypt_error(error),
            r.spec_reason() == spec_encrypt_error_reason(error),
            r.spec_origin() == spec_error_origin(error),
            r.spec_branch() == branch_for_origin(spec_error_origin(error)),
            !(error is MissingKid || error is UnprotectedHeaderNotAllowed) ==> r == spec_failure_from_error(error),
    {
        match error {
            CoseError::MissingKid => Self::caller(CoseFailureReason::EncryptMissingKid),
            CoseError::UnprotectedHeaderNotAllowed => {
                Self::caller(CoseFailureReason::EncryptUnprotectedHeaderNotAllowed)
            },
            other => Self::from_error(other),
        }
    }

    /// The canonical failure of a public error.
    pub fn from_error(error: CoseError) -> (r: Self)
        ensures
            r == spec_failure_from_error(error),
            r.spec_reason() == spec_error_reason(error),
            r.spec_origin() == spec_error_origin(error),
            r.spec_branch() == branch_for_origin(spec_error_origin(error)),
    {
        match error {
            CoseError::Cbor => Self::caller(CoseFailureReason::CommonCbor),
            CoseError::UnsupportedAlgorithm => Self::provider(CoseFailureReason::CommonUnsupportedAlgorithm),
            CoseError::MissingPayload => Self::caller(CoseFailureReason::Sign1MissingPayload),
            CoseError::InvalidSignature => Self::caller(CoseFailureReason::Sign1InvalidSignature),
            CoseError::InvalidSignatureEncoding => Self::caller(CoseFailureReason::Sign1InvalidSignatureEncoding),
            CoseError::Crypto => Self::backend(CoseFailureReason::CommonCryptoFailed),
            CoseError::ProviderUnavailable => Self::provider(CoseFailureReason::ProviderUnavailable),
            CoseError::InvalidMultikey => Self::caller(CoseFailureReason::MultikeyInvalidMultikey),
            CoseError::MissingKeyMaterial => Self::caller(CoseFailureReason::KeyMissingKeyMaterial),
            CoseError::InvalidKeyMaterial => Self::caller(CoseFailureReason::KeyInvalidKeyMaterial),
            CoseError::MissingKid => Self::caller(CoseFailureReason::Sign1MissingKid),
            CoseError::KeyNotResolved => Self::caller(CoseFailureReason::Sign1KeyNotResolved),
            CoseError::InvalidFormat => Self::caller(CoseFailureReason::CommonInvalidFormat),
            CoseError::ResourceLimitExceeded => Self::caller(CoseFailureReason::CommonResourceLimitExceeded),
            CoseError::NonCanonicalCbor => Self::caller(CoseFailureReason::CommonNonCanonicalCbor),
            CoseError::UnexpectedCborTag => Self::caller(CoseFailureReason::CommonUnexpectedCborTag),
            CoseError::DuplicateMapLabel => Self::caller(CoseFailureReason::CommonDuplicateMapLabel),
            CoseError::UnsupportedCriticalHeader => Self::caller(CoseFailureReason::Sign1UnsupportedCriticalHeader),
            CoseError::UnprotectedHeaderNotAllowed => Self::caller(CoseFailureReason::Sign1UnprotectedHeaderNotAllowed),
            CoseError::MissingPrivateKey => Self::caller(CoseFailureReason::Sign1MissingPrivateKey),
            CoseError::MissingCiphertext => Self::caller(CoseFailureReason::EncryptMissingCiphertext),
            CoseError::InvalidIv => Self::caller(CoseFailureReason::EncryptInvalidIv),
            CoseError::InvalidRecipient => Self::caller(CoseFailureReason::EncryptInvalidRecipient),
            CoseError::MissingEncapsulatedKey => Self::caller(CoseFailureReason::EncryptMissingEncapsulatedKey),
            CoseError::InvalidEncapsulatedKey => Self::caller(CoseFailureReason::EncryptInvalidEncapsulatedKey),
            CoseError::AuthenticationFailed => Self::caller(CoseFailureReason::EncryptAuthenticationFailed),
            CoseError::KeyUnwrapFailed => Self::caller(CoseFailureReason::EncryptKeyUnwrapFailed),
            CoseError::KidMismatch => Self::caller(CoseFailureReason::EncryptKidMismatch),
        }
    }
}

impl From<CoseError> for CoseFailure {
    fn from(error: CoseError) -> (r: Self) {
        CoseFailure::from_error(error)
    }
}

impl vstd::std_specs::convert::FromSpecImpl<CoseError> for CoseFailure {
    open spec fn obeys_from_spec() -> bool {
        true
    }

    open spec fn from_spec(error: CoseError) -> Self {
        spec_failure_from_error(error)
    }
}

impl From<CoseFailure> for CoseError {
    fn from(failure: CoseFailure) -> (r: Self) {
        failure.into_native_error()
    }
}

impl vstd::std_specs::convert::FromSpecImpl<CoseFailure> for CoseError {
    open spec fn obeys_from_spec() -> bool {
        true
    }

    open spec fn from_spec(failure: CoseFailure) -> Self {
        spec_reason_error(failure.spec_reason())
    }
}

/// Every public error survives the trip through its canonical failure: the
/// failure converts back to exactly the same error.
pub proof fn lemma_native_error_roundtrip(error: CoseError)
    ensures
        spec_reason_error(spec_failure_from_error(error).spec_reason()) == error,
{
}

/// The canonical failure of an error is stable: re-deriving it from the
/// native error it converts to yields the same failure (same origin, branch,
/// and reason).
pub proof fn lemma_canonical_failure_roundtrip(error: CoseError)
    ensures
        spec_failure_from_error(spec_reason_error(spec_failure_from_error(error).spec_reason()))
            == spec_failure_from_error(error),
{
}

/// The `COSE_Encrypt` classification refines reasons without changing the
/// public error that callers observe.
pub proof fn lemma_encrypt_failure_preserves_error(error: CoseError)
    ensures
        spec_reason_error(spec_failure_from_encrypt_error(error).spec_reason()) == error,
{
}

/// Distinct public errors have distinct canonical failures.
pub proof fn lemma_canonical_failure_injective(a: CoseError, b: CoseError)
    ensures
        spec_failure_from_error(a) == spec_failure_from_error(b) ==> a == b,
{
    lemma_native_error_roundtrip(a);
    lemma_native_error_roundtrip(b);
}

/// Only unsupported algorithms and unavailable providers are provider
/// failures, and only backend crypto failures are backend failures; every
/// other error is a caller failure on the primitive branch.
pub proof fn lemma_failure_origin_classification(error: CoseError)
    ensures
        spec_failure_from_error(error).spec_origin() == CoseFailureOrigin::Provider <==> (error
            == CoseError::UnsupportedAlgorithm || error == CoseError::ProviderUnavailable),
        spec_failure_from_error(error).spec_origin() == CoseFailureOrigin::Backend <==> error
            == CoseError::Crypto,
        spec_failure_from_error(error).spec_branch() == branch_for_origin(
            spec_failure_from_error(error).spec_origin(),
        ),
{
}

/// The canonical failure of each public error has exactly the reason,
/// origin and branch stated by [`spec_error_reason`] and
/// [`spec_error_origin`]; the `COSE_Encrypt` classification differs only in
/// the reasons of a missing or unprotected `kid`, and agrees with it on every
/// other error.
pub proof fn lemma_failure_classification(error: CoseError)
    ensures
        spec_failure_from_error(error).spec_reason() == spec_error_reason(error),
        spec_failure_from_error(error).spec_origin() == spec_error_origin(error),
        spec_failure_from_error(error).spec_branch() == branch_for_origin(spec_error_origin(error)),
        spec_failure_from_encrypt_error(error).spec_reason() == spec_encrypt_error_reason(error),
        spec_failure_from_encrypt_error(error).spec_origin() == spec_error_origin(error),
        spec_failure_from_encrypt_error(error).spec_branch() == branch_for_origin(
            spec_error_origin(error),
        ),
        !(error is MissingKid || error is UnprotectedHeaderNotAllowed)
            ==> spec_failure_from_encrypt_error(error) == spec_failure_from_error(error),
{
}

} // verus!
