//! Verification policy for COSE_Sign1 byte-boundary APIs.

use vstd::prelude::*;

use crate::algorithm::label::RegisteredLabelWithPrivate;
use crate::algorithm::primitive::Algorithm;
use crate::algorithm::signature::{spec_crypto_algorithm, spec_from_registered, CoseSignatureAlgorithm};
use crate::error::CoseError;
use crate::limits::profile::{MAX_COSE_SIGN1_BYTES, MAX_DETACHED_PAYLOAD_BYTES};

verus! {

/// Verification policy for COSE_Sign1 byte-boundary APIs.
#[must_use]
#[derive(Debug, Clone)]
pub struct CosePolicy {
    require_kid: bool,
    allowed_algs: Vec<Algorithm>,
    max_cose_sign1_bytes: usize,
    max_detached_payload_bytes: usize,
}

impl CosePolicy {
    /// Whether the protected header must carry a `kid`.
    pub closed spec fn spec_require_kid(&self) -> bool {
        self.require_kid
    }

    /// The algorithm allow-list; empty means every supported algorithm.
    pub closed spec fn spec_allowed_algorithms(&self) -> Seq<Algorithm> {
        self.allowed_algs@
    }

    /// The largest accepted encoded COSE_Sign1.
    pub closed spec fn spec_max_cose_sign1_bytes(&self) -> usize {
        self.max_cose_sign1_bytes
    }

    /// The largest accepted detached payload.
    pub closed spec fn spec_max_detached_payload_bytes(&self) -> usize {
        self.max_detached_payload_bytes
    }

    /// The default policy: no `kid` requirement, every supported algorithm,
    /// and the profile's size limits.
    pub fn new() -> (r: Self)
        ensures
            !r.spec_require_kid(),
            r.spec_allowed_algorithms().len() == 0,
            r.spec_max_cose_sign1_bytes() == MAX_COSE_SIGN1_BYTES,
            r.spec_max_detached_payload_bytes() == MAX_DETACHED_PAYLOAD_BYTES,
    {
        CosePolicy {
            require_kid: false,
            allowed_algs: Vec::new(),
            max_cose_sign1_bytes: MAX_COSE_SIGN1_BYTES,
            max_detached_payload_bytes: MAX_DETACHED_PAYLOAD_BYTES,
        }
    }

    /// Return whether protected-header `kid` is required.
    #[must_use]
    pub fn require_kid(&self) -> (r: bool)
        ensures
            r == self.spec_require_kid(),
    {
        self.require_kid
    }

    /// Return the configured algorithm allow-list.
    ///
    /// An empty list means any algorithm supported by this crate is accepted.
    #[must_use]
    pub fn allowed_algorithms(&self) -> (r: &[Algorithm])
        ensures
            r@ == self.spec_allowed_algorithms(),
    {
        self.allowed_algs.as_slice()
    }

    /// Return the maximum accepted encoded COSE_Sign1 size.
    #[must_use]
    pub fn max_cose_sign1_bytes(&self) -> (r: usize)
        ensures
            r == self.spec_max_cose_sign1_bytes(),
    {
        self.max_cose_sign1_bytes
    }

    /// Return the maximum accepted detached payload size.
    #[must_use]
    pub fn max_detached_payload_bytes(&self) -> (r: usize)
        ensures
            r == self.spec_max_detached_payload_bytes(),
    {
        self.max_detached_payload_bytes
    }

    /// Configure whether protected-header `kid` is required.
    pub fn with_require_kid(self, require_kid: bool) -> (r: Self)
        ensures
            r.spec_require_kid() == require_kid,
            r.spec_allowed_algorithms() == self.spec_allowed_algorithms(),
            r.spec_max_cose_sign1_bytes() == self.spec_max_cose_sign1_bytes(),
            r.spec_max_detached_payload_bytes() == self.spec_max_detached_payload_bytes(),
    {
        let mut policy = self;
        policy.require_kid = require_kid;
        policy
    }

    /// Replace the algorithm allow-list.
    ///
    /// Pass an empty list to accept any algorithm supported by this crate.
    pub fn with_allowed_algorithms(self, allowed_algorithms: Vec<Algorithm>) -> (r: Self)
        ensures
            r.spec_allowed_algorithms() == allowed_algorithms@,
            r.spec_require_kid() == self.spec_require_kid(),
            r.spec_max_cose_sign1_bytes() == self.spec_max_cose_sign1_bytes(),
            r.spec_max_detached_payload_bytes() == self.spec_max_detached_payload_bytes(),
    {
        let mut policy = self;
        policy.allowed_algs = allowed_algorithms;
        policy
    }

    /// Add one algorithm to the allow-list.
    pub fn allow_algorithm(self, algorithm: Algorithm) -> (r: Self)
        ensures
            r.spec_allowed_algorithms() == self.spec_allowed_algorithms().push(algorithm),
            r.spec_require_kid() == self.spec_require_kid(),
            r.spec_max_cose_sign1_bytes() == self.spec_max_cose_sign1_bytes(),
            r.spec_max_detached_payload_bytes() == self.spec_max_detached_payload_bytes(),
    {
        let mut policy = self;
        policy.allowed_algs.push(algorithm);
        policy
    }

    /// Configure the maximum accepted encoded COSE_Sign1 size.
    pub fn with_max_cose_sign1_bytes(self, max_cose_sign1_bytes: usize) -> (r: Self)
        ensures
            r.spec_max_cose_sign1_bytes() == max_cose_sign1_bytes,
            r.spec_require_kid() == self.spec_require_kid(),
            r.spec_allowed_algorithms() == self.spec_allowed_algorithms(),
            r.spec_max_detached_payload_bytes() == self.spec_max_detached_payload_bytes(),
    {
        let mut policy = self;
        policy.max_cose_sign1_bytes = max_cose_sign1_bytes;
        policy
    }

    /// Configure the maximum accepted detached payload size.
    pub fn with_max_detached_payload_bytes(self, max_detached_payload_bytes: usize) -> (r: Self)
        ensures
            r.spec_max_detached_payload_bytes() == max_detached_payload_bytes,
            r.spec_require_kid() == self.spec_require_kid(),
            r.spec_allowed_algorithms() == self.spec_allowed_algorithms(),
            r.spec_max_cose_sign1_bytes() == self.spec_max_cose_sign1_bytes(),
    {
        let mut policy = self;
        policy.max_detached_payload_bytes = max_detached_payload_bytes;
        policy
    }
}

impl Default for CosePolicy {
    fn default() -> (r: Self)
        ensures
            !r.spec_require_kid(),
            r.spec_allowed_algorithms().len() == 0,
            r.spec_max_cose_sign1_bytes() == MAX_COSE_SIGN1_BYTES,
            r.spec_max_detached_payload_bytes() == MAX_DETACHED_PAYLOAD_BYTES,
    {
        Self::new()
    }
}

/// The primitive of a parsed COSE algorithm label, if it is a supported
/// signature registration.
pub open spec fn spec_algorithm_from_cose_alg(alg: RegisteredLabelWithPrivate) -> Result<Algorithm, CoseError> {
    match spec_from_registered(alg) {
        Ok(registration) => Ok(spec_crypto_algorithm(registration)),
        Err(error) => Err(error),
    }
}

/// Resolve the primitive of a parsed COSE algorithm label.
pub fn algorithm_from_cose_alg(alg: &RegisteredLabelWithPrivate) -> (r: Result<Algorithm, CoseError>)
    ensures
        r == spec_algorithm_from_cose_alg(*alg),
{
    match CoseSignatureAlgorithm::from_registered(alg) {
        Ok(registration) => Ok(registration.crypto_algorithm()),
        Err(error) => Err(error),
    }
}

/// The COSE_Sign1 header policy: a required `kid` must be present, and a
/// non-empty allow-list must contain the primitive of the protected
/// algorithm.
pub open spec fn spec_validate_cose_sign1_policy(
    alg: Option<RegisteredLabelWithPrivate>,
    key_id: Seq<u8>,
    require_kid: bool,
    allowed: Seq<Algorithm>,
) -> Result<(), CoseError> {
    if require_kid && key_id.len() == 0 {
        Err(CoseError::MissingKid)
    } else if allowed.len() == 0 {
        Ok(())
    } else {
        match alg {
            None => Err(CoseError::UnsupportedAlgorithm),
            Some(alg) => match spec_algorithm_from_cose_alg(alg) {
                Err(error) => Err(error),
                Ok(algorithm) => if allowed.contains(algorithm) {
                    Ok(())
                } else {
                    Err(CoseError::UnsupportedAlgorithm)
                },
            },
        }
    }
}

/// Validate the protected `alg` and `kid` of a COSE_Sign1 against a policy,
/// without cryptographic verification.
pub fn validate_cose_sign1_policy(
    alg: Option<&RegisteredLabelWithPrivate>,
    key_id: &[u8],
    policy: &CosePolicy,
) -> (r: Result<(), CoseError>)
    ensures
        r == spec_validate_cose_sign1_policy(
            match alg {
                Some(alg) => Some(*alg),
                None => None,
            },
            key_id@,
            policy.spec_require_kid(),
            policy.spec_allowed_algorithms(),
        ),
{
    if policy.require_kid() && key_id.len() == 0 {
        return Err(CoseError::MissingKid);
    }
    let allowed = policy.allowed_algorithms();
    if allowed.len() == 0 {
        return Ok(());
    }
    let alg = match alg {
        Some(alg) => alg,
        None => return Err(CoseError::UnsupportedAlgorithm),
    };
    let algorithm = match algorithm_from_cose_alg(alg) {
        Ok(algorithm) => algorithm,
        Err(error) => return Err(error),
    };
    if contains_algorithm(allowed, algorithm) {
        Ok(())
    } else {
        Err(CoseError::UnsupportedAlgorithm)
    }
}

fn contains_algorithm(allowed: &[Algorithm], algorithm: Algorithm) -> (r: bool)
    ensures
        r == allowed@.contains(algorithm),
{
    let mut i: usize = 0;
    while i < allowed.len()
        invariant
            i <= allowed@.len(),
            forall|j: int| 0 <= j < i ==> allowed@[j] != algorithm,
        decreases allowed@.len() - i,
    {
        if allowed[i] == algorithm {
            assert(allowed@[i as int] == algorithm);
            return true;
        }
        i = i + 1;
    }
    false
}

/// A policy that requires a `kid` refuses every header without one, and
/// an empty allow-list refuses no algorithm.
pub proof fn lemma_policy_kid_and_empty_allow_list(
    alg: Option<RegisteredLabelWithPrivate>,
    key_id: Seq<u8>,
    require_kid: bool,
    allowed: Seq<Algorithm>,
)
    ensures
        require_kid && key_id.len() == 0 ==> spec_validate_cose_sign1_policy(alg, key_id, require_kid, allowed)
            == Err::<(), CoseError>(CoseError::MissingKid),
        !(require_kid && key_id.len() == 0) && allowed.len() == 0 ==> spec_validate_cose_sign1_policy(
            alg,
            key_id,
            require_kid,
            allowed,
        ) == Ok::<(), CoseError>(()),
{
}

/// Allowing one more algorithm never refuses a header that was accepted.
pub proof fn lemma_allow_algorithm_monotone(
    alg: Option<RegisteredLabelWithPrivate>,
    key_id: Seq<u8>,
    require_kid: bool,
    allowed: Seq<Algorithm>,
    extra: Algorithm,
)
    requires
        allowed.len() > 0,
        spec_validate_cose_sign1_policy(alg, key_id, require_kid, allowed) is Ok,
    ensures
        spec_validate_cose_sign1_policy(alg, key_id, require_kid, allowed.push(extra)) is Ok,
{
    if !(require_kid && key_id.len() == 0) {
        let algorithm = spec_algorithm_from_cose_alg(alg->Some_0)->Ok_0;
        let j = choose|j: int| 0 <= j < allowed.len() && allowed[j] == algorithm;
        assert(allowed.push(extra)[j] == algorithm);
    }
}

/// With a non-empty allow-list and the `kid` the policy asks for, a header
/// whose algorithm names a supported primitive is accepted exactly when
/// that primitive occurs somewhere in the allow-list, at any position, and
/// is otherwise refused as an unsupported algorithm.
pub proof fn lemma_policy_accepts_listed_primitives(
    alg: RegisteredLabelWithPrivate,
    key_id: Seq<u8>,
    require_kid: bool,
    allowed: Seq<Algorithm>,
)
    requires
        allowed.len() > 0,
        !require_kid || key_id.len() > 0,
        spec_algorithm_from_cose_alg(alg) is Ok,
    ensures
        spec_validate_cose_sign1_policy(Some(alg), key_id, require_kid, allowed) is Ok <==> exists|i: int|
            0 <= i < allowed.len() && allowed[i] == spec_algorithm_from_cose_alg(alg)->Ok_0,
        spec_validate_cose_sign1_policy(Some(alg), key_id, require_kid, allowed) is Err
            ==> spec_validate_cose_sign1_policy(Some(alg), key_id, require_kid, allowed) == Err::<(), CoseError>(
            CoseError::UnsupportedAlgorithm,
        ),
{
    let primitive = spec_algorithm_from_cose_alg(alg)->Ok_0;
    if exists|i: int| 0 <= i < allowed.len() && allowed[i] == primitive {
        let i = choose|i: int| 0 <= i < allowed.len() && allowed[i] == primitive;
        assert(allowed.contains(primitive));
    }
}

} // verus!
