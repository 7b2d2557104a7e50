//! Construction of COSE keys from raw key bytes.
//!
//! Whether raw bytes are a valid key, and whether a private key matches its
//! public key, is decided by the cryptographic provider. A construction
//! here checks everything else, builds the key, and lists the provider
//! checks that must all pass, in order, before the key is released; the
//! first failing check's error is the construction's error.

use vstd::prelude::*;

use crate::algorithm::label::{Label, RegisteredLabel, RegisteredLabelWithPrivate};
use crate::algorithm::primitive::Algorithm;
use crate::algorithm::signature::{spec_crypto_algorithm, CoseSignatureAlgorithm};
use crate::cbor::CborValue;
use crate::error::CoseError;

use super::ec::{
    compressed_form, ec2_public_key_builder, lemma_point_forms_share_canonical_point,
    point_validation_input, spec_canonical_point, spec_compress, spec_is_ec2_public_params, spec_point_form,
    spec_point_validation_input, PointForm, COMPRESSED_POINT_PREFIX_BYTES, UNCOMPRESSED_POINT_PREFIX,
};
use super::owned::{CoseKey, CoseKeyView};
use super::profile::{
    akp_algorithm_label, akp_profile, algorithm_for_ec2_profile, ec2_profile,
    ec2_profile_for_signature_algorithm, spec_akp_algorithm_label, spec_akp_profile,
    spec_algorithm_for_ec2_profile, spec_ec2_profile, spec_ec2_profile_for_signature_algorithm,
    Ec2Profile, CURVE_ED25519, CURVE_P256, CURVE_P384, CURVE_P521, CURVE_SECP256K1, CURVE_X25519, ED25519_PUBLIC_KEY_BYTES, ED25519_SECRET_KEY_BYTES,
    KTY_AKP, KTY_EC2, KTY_OKP, PARAM_AKP_PRIV, PARAM_AKP_PUB, PARAM_CRV, PARAM_D, PARAM_X,
    X25519_PUBLIC_KEY_BYTES,
};

verus! {

/// A check of raw key material that the cryptographic provider performs.
pub enum MaterialCheck {
    /// `public_key` must be a valid public key of `algorithm`.
    PublicKey { algorithm: Algorithm, public_key: Vec<u8> },
    /// `private_key` must be a valid private key of `algorithm` whose public
    /// key is `public_key`.
    KeyPair { algorithm: Algorithm, private_key: Vec<u8>, public_key: Vec<u8> },
}

/// A built key and the provider checks it must pass.
pub struct KeyConstruction {
    /// The key.
    pub key: CoseKey,
    /// The checks, in order.
    pub checks: Vec<MaterialCheck>,
}

/// `check` asks the provider to accept `public_key` for `algorithm`.
pub open spec fn spec_is_public_check(check: MaterialCheck, algorithm: Algorithm, public_key: Seq<u8>) -> bool {
    check matches MaterialCheck::PublicKey { algorithm: a, public_key: p } && a == algorithm && p@
        == public_key
}

/// `check` asks the provider to accept the key pair for `algorithm`.
pub open spec fn spec_is_pair_check(
    check: MaterialCheck,
    algorithm: Algorithm,
    private_key: Seq<u8>,
    public_key: Seq<u8>,
) -> bool {
    check matches MaterialCheck::KeyPair { algorithm: a, private_key: d, public_key: p } && a
        == algorithm && d@ == private_key && p@ == public_key
}

/// `param` is the integer parameter `label` with value `value`.
pub open spec fn spec_int_param(param: (Label, CborValue), label: i64, value: i64) -> bool {
    param == (Label::Int(label), CborValue::Integer(value as i128))
}

/// `param` is the byte-string parameter `label` with value `bytes`.
pub open spec fn spec_bytes_param(param: (Label, CborValue), label: i64, bytes: Seq<u8>) -> bool {
    param.0 == Label::Int(label) && (param.1 matches CborValue::Bytes(held) && held@ == bytes)
}

/// A key with no identifier, operations or base IV.
pub open spec fn spec_bare_key(key: CoseKeyView, kty: i64, alg: Option<RegisteredLabelWithPrivate>) -> bool {
    &&& key.kty == RegisteredLabel::Assigned(kty)
    &&& key.key_id.len() == 0
    &&& key.alg == alg
    &&& key.key_ops.len() == 0
    &&& key.base_iv.len() == 0
}

/// An OKP key on `curve` with public key `x`, the private key `d` where
/// given, bound to the IANA algorithm `alg` where given.
pub open spec fn spec_is_okp_key(
    key: CoseKeyView,
    curve: i64,
    x: Seq<u8>,
    d: Option<Seq<u8>>,
    alg: Option<i64>,
) -> bool {
    &&& spec_bare_key(
        key,
        KTY_OKP,
        match alg {
            Some(alg) => Some(RegisteredLabelWithPrivate::Assigned(alg)),
            None => None,
        },
    )
    &&& key.params.len() == (if d is Some {
        3int
    } else {
        2int
    })
    &&& spec_int_param(key.params[0], PARAM_CRV, curve)
    &&& spec_bytes_param(key.params[1], PARAM_X, x)
    &&& d matches Some(d) ==> spec_bytes_param(key.params[2], PARAM_D, d)
}

/// An EC2 key of `profile` holding the point `form`, and the private key
/// `d` where given.
pub open spec fn spec_is_ec2_key(
    key: CoseKeyView,
    profile: Ec2Profile,
    form: PointForm,
    d: Option<Seq<u8>>,
) -> bool {
    &&& spec_bare_key(key, KTY_EC2, Some(RegisteredLabelWithPrivate::Assigned(profile.alg)))
    &&& key.params.len() == (if d is Some {
        4int
    } else {
        3int
    })
    &&& spec_is_ec2_public_params(key.params.take(3), profile.curve, form)
    &&& d matches Some(d) ==> spec_bytes_param(key.params[3], PARAM_D, d)
}

/// An AKP key of `algorithm` with public key `public_key` and the private
/// seed `private_key` where given.
pub open spec fn spec_is_akp_key(
    key: CoseKeyView,
    algorithm: Algorithm,
    public_key: Seq<u8>,
    private_key: Option<Seq<u8>>,
) -> bool {
    &&& spec_akp_algorithm_label(algorithm) matches Ok(label)
    &&& spec_bare_key(key, KTY_AKP, Some(label))
    &&& key.params.len() == (if private_key is Some {
        2int
    } else {
        1int
    })
    &&& spec_bytes_param(key.params[0], PARAM_AKP_PUB, public_key)
    &&& private_key matches Some(d) ==> spec_bytes_param(key.params[1], PARAM_AKP_PRIV, d)
}

fn int_param(label: i64, value: i64) -> (r: (Label, CborValue))
    ensures
        spec_int_param(r, label, value),
{
    (Label::Int(label), CborValue::Integer(value as i128))
}

fn bytes_param(label: i64, bytes: &[u8]) -> (r: (Label, CborValue))
    ensures
        spec_bytes_param(r, label, bytes@),
{
    (Label::Int(label), CborValue::Bytes(vstd::slice::slice_to_vec(bytes)))
}

/// An OKP key.
fn okp_key(curve: i64, x: &[u8], d: Option<&[u8]>, alg: Option<i64>) -> (r: CoseKey)
    ensures
        spec_is_okp_key(
            r@,
            curve,
            x@,
            match d {
                Some(d) => Some(d@),
                None => None,
            },
            alg,
        ),
{
    let mut params: Vec<(Label, CborValue)> = Vec::new();
    params.push(int_param(PARAM_CRV, curve));
    params.push(bytes_param(PARAM_X, x));
    match d {
        Some(d) => params.push(bytes_param(PARAM_D, d)),
        None => {},
    }
    let alg = match alg {
        Some(alg) => Some(RegisteredLabelWithPrivate::Assigned(alg)),
        None => None,
    };
    CoseKey::from_parts(RegisteredLabel::Assigned(KTY_OKP), Vec::new(), alg, Vec::new(), Vec::new(), params)
}

/// An EC2 key of `profile` for a supplied point, with the private key `d`
/// where given.
fn ec2_key(profile: Ec2Profile, public_key: &[u8], d: Option<&[u8]>) -> (r: Result<CoseKey, CoseError>)
    ensures
        match r {
            Ok(key) => spec_point_form(profile, public_key@) matches Ok(form) && spec_is_ec2_key(
                key@,
                profile,
                form,
                match d {
                    Some(d) => Some(d@),
                    None => None,
                },
            ),
            Err(error) => spec_point_form(profile, public_key@) == Err::<PointForm, CoseError>(error),
        },
{
    let mut params = match ec2_public_key_builder(profile, public_key) {
        Ok(params) => params,
        Err(error) => return Err(error),
    };
    let ghost public_params = params@;
    match d {
        Some(d) => params.push(bytes_param(PARAM_D, d)),
        None => {},
    }
    assert(params@.take(3) =~= public_params);
    Ok(
        CoseKey::from_parts(
            RegisteredLabel::Assigned(KTY_EC2),
            Vec::new(),
            Some(RegisteredLabelWithPrivate::Assigned(profile.alg)),
            Vec::new(),
            Vec::new(),
            params,
        ),
    )
}

/// An AKP key of `algorithm`.
pub fn akp_key(algorithm: Algorithm, public_key: &[u8], private_key: Option<&[u8]>) -> (r: Result<
    CoseKey,
    CoseError,
>)
    ensures
        match r {
            Ok(key) => spec_is_akp_key(
                key@,
                algorithm,
                public_key@,
                match private_key {
                    Some(d) => Some(d@),
                    None => None,
                },
            ),
            Err(error) => error == CoseError::UnsupportedAlgorithm && spec_akp_algorithm_label(
                algorithm,
            ) is Err,
        },
{
    let label = match akp_algorithm_label(algorithm) {
        Ok(label) => label,
        Err(error) => return Err(error),
    };
    let mut params: Vec<(Label, CborValue)> = Vec::new();
    params.push(bytes_param(PARAM_AKP_PUB, public_key));
    match private_key {
        Some(d) => params.push(bytes_param(PARAM_AKP_PRIV, d)),
        None => {},
    }
    Ok(
        CoseKey::from_parts(
            RegisteredLabel::Assigned(KTY_AKP),
            Vec::new(),
            Some(label),
            Vec::new(),
            Vec::new(),
            params,
        ),
    )
}

/// The EC2 profile selected by a primitive and an optional exact
/// registration, which must execute that primitive.
pub open spec fn spec_selected_ec2_profile(
    algorithm: Algorithm,
    signature_algorithm: Option<CoseSignatureAlgorithm>,
) -> Result<Ec2Profile, CoseError> {
    match signature_algorithm {
        Some(registration) => match spec_ec2_profile_for_signature_algorithm(registration) {
            Err(error) => Err(error),
            Ok(profile) => if spec_crypto_algorithm(registration) != algorithm {
                Err(CoseError::UnsupportedAlgorithm)
            } else {
                Ok(profile)
            },
        },
        None => spec_ec2_profile(algorithm),
    }
}

fn selected_ec2_profile(algorithm: Algorithm, signature_algorithm: Option<CoseSignatureAlgorithm>) -> (r:
    Result<Ec2Profile, CoseError>)
    ensures
        r == spec_selected_ec2_profile(algorithm, signature_algorithm),
{
    match signature_algorithm {
        Some(registration) => {
            let profile = match ec2_profile_for_signature_algorithm(registration) {
                Ok(profile) => profile,
                Err(error) => return Err(error),
            };
            if registration.crypto_algorithm() != algorithm {
                return Err(CoseError::UnsupportedAlgorithm);
            }
            Ok(profile)
        },
        None => ec2_profile(algorithm),
    }
}

/// The canonical point of a supplied EC public key, the bytes the provider
/// validates, and the primitive it validates them for; these are decided
/// before the provider is asked.
pub open spec fn spec_ec_public_point(profile: Ec2Profile, public_key: Seq<u8>) -> Result<
    (Seq<u8>, Seq<u8>, Algorithm),
    CoseError,
> {
    match spec_point_validation_input(profile, public_key) {
        Err(error) => Err(error),
        Ok(input) => match spec_algorithm_for_ec2_profile(profile) {
            Err(error) => Err(error),
            Ok(algorithm) => match spec_canonical_point(profile, public_key) {
                Err(error) => Err(error),
                Ok(canonical) => Ok((canonical, input, algorithm)),
            },
        },
    }
}

fn ec_public_point(profile: Ec2Profile, public_key: &[u8]) -> (r: Result<
    (Vec<u8>, Vec<u8>, Algorithm),
    CoseError,
>)
    ensures
        match r {
            Ok((canonical, input, algorithm)) => spec_ec_public_point(profile, public_key@) == Ok::<
                (Seq<u8>, Seq<u8>, Algorithm),
                CoseError,
            >((canonical@, input@, algorithm)),
            Err(error) => spec_ec_public_point(profile, public_key@) == Err::<
                (Seq<u8>, Seq<u8>, Algorithm),
                CoseError,
            >(error),
        },
{
    let input = match point_validation_input(profile, public_key) {
        Ok(input) => input,
        Err(error) => return Err(error),
    };
    let algorithm = match algorithm_for_ec2_profile(profile) {
        Ok(algorithm) => algorithm,
        Err(error) => return Err(error),
    };
    let canonical = match compressed_form(profile, public_key) {
        Ok(canonical) => canonical,
        Err(error) => return Err(error),
    };
    Ok((canonical, input, algorithm))
}

/// The outcome, before any provider check, of building a public key of
/// `algorithm` from `public_key`.
pub open spec fn spec_public_construction_error(
    algorithm: Algorithm,
    signature_algorithm: Option<CoseSignatureAlgorithm>,
    public_key: Seq<u8>,
) -> Option<CoseError> {
    match algorithm {
        Algorithm::Ed25519 => if public_key.len() != ED25519_PUBLIC_KEY_BYTES {
            Some(CoseError::InvalidKeyMaterial)
        } else {
            None
        },
        Algorithm::X25519 => if public_key.len() != X25519_PUBLIC_KEY_BYTES {
            Some(CoseError::InvalidKeyMaterial)
        } else {
            None
        },
        Algorithm::P256 | Algorithm::P384 | Algorithm::P521 | Algorithm::Secp256k1 => match spec_selected_ec2_profile(
            algorithm,
            signature_algorithm,
        ) {
            Err(error) => Some(error),
            Ok(profile) => match spec_ec_public_point(profile, public_key) {
                Err(error) => Some(error),
                Ok(_) => None,
            },
        },
        Algorithm::MlDsa44 | Algorithm::MlDsa65 | Algorithm::MlDsa87 | Algorithm::MlKem512
        | Algorithm::MlKem768 | Algorithm::MlKem1024 => match spec_akp_profile(algorithm) {
            Err(error) => Some(error),
            Ok(profile) => if public_key.len() != profile.public_key_len {
                Some(CoseError::InvalidKeyMaterial)
            } else {
                None
            },
        },
        _ => Some(CoseError::UnsupportedAlgorithm),
    }
}

/// The key and provider checks of a public-key construction that passed
/// its own checks.
pub open spec fn spec_public_construction_holds(
    construction: KeyConstruction,
    algorithm: Algorithm,
    signature_algorithm: Option<CoseSignatureAlgorithm>,
    public_key: Seq<u8>,
) -> bool {
    let key = construction.key@;
    let checks = construction.checks@;
    match algorithm {
        Algorithm::Ed25519 => checks.len() == 1 && spec_is_public_check(checks[0], algorithm, public_key)
            && spec_is_okp_key(key, CURVE_ED25519, public_key, None, Some(-19i64)),
        Algorithm::X25519 => checks.len() == 1 && spec_is_public_check(checks[0], algorithm, public_key)
            && spec_is_okp_key(key, CURVE_X25519, public_key, None, None),
        Algorithm::P256 | Algorithm::P384 | Algorithm::P521 | Algorithm::Secp256k1 => {
            &&& spec_selected_ec2_profile(algorithm, signature_algorithm) matches Ok(profile)
            &&& spec_ec_public_point(profile, public_key) matches Ok((canonical, input, checked))
            &&& checks.len() == 1
            &&& spec_is_public_check(checks[0], checked, input)
            &&& spec_point_form(profile, canonical) matches Ok(form)
            &&& spec_is_ec2_key(key, profile, form, None)
        },
        _ => checks.len() == 1 && spec_is_public_check(checks[0], algorithm, public_key)
            && spec_is_akp_key(key, algorithm, public_key, None),
    }
}

/// One EC point, one key: its raw `x || y` coordinates and its SEC1
/// uncompressed encoding admit exactly the same constructions, key and
/// provider check alike, and its SEC1 compressed encoding canonicalizes to
/// the same point, so it builds a key of the same form.
pub proof fn lemma_point_forms_build_one_key(
    algorithm: Algorithm,
    signature_algorithm: Option<CoseSignatureAlgorithm>,
    x: Seq<u8>,
    y: Seq<u8>,
    construction: KeyConstruction,
)
    requires
        algorithm is P256 || algorithm is P384 || algorithm is P521 || algorithm is Secp256k1,
        spec_selected_ec2_profile(algorithm, signature_algorithm) is Ok,
        x.len() == spec_selected_ec2_profile(algorithm, signature_algorithm)->Ok_0.coordinate_len,
        y.len() == spec_selected_ec2_profile(algorithm, signature_algorithm)->Ok_0.coordinate_len,
    ensures
        spec_public_construction_error(algorithm, signature_algorithm, x + y)
            == spec_public_construction_error(algorithm, signature_algorithm, seq![UNCOMPRESSED_POINT_PREFIX] + x + y),
        spec_public_construction_holds(construction, algorithm, signature_algorithm, x + y)
            <==> spec_public_construction_holds(
            construction,
            algorithm,
            signature_algorithm,
            seq![UNCOMPRESSED_POINT_PREFIX] + x + y,
        ),
        spec_canonical_point(spec_selected_ec2_profile(algorithm, signature_algorithm)->Ok_0, x + y)
            == spec_canonical_point(
            spec_selected_ec2_profile(algorithm, signature_algorithm)->Ok_0,
            spec_compress(x, y.last()),
        ),
{
    let profile = spec_selected_ec2_profile(algorithm, signature_algorithm)->Ok_0;
    lemma_point_forms_share_canonical_point(profile, x, y);
}

fn single_check(check: MaterialCheck) -> (r: Vec<MaterialCheck>)
    ensures
        r@ == seq![check],
{
    let mut checks: Vec<MaterialCheck> = Vec::new();
    checks.push(check);
    checks
}

/// Build a public COSE key of `algorithm`, bound to the exact registration
/// `signature_algorithm` where given.
///
/// EC points are accepted in SEC1 compressed, raw `x || y` and SEC1
/// uncompressed form and stored compressed.
pub fn construct_cose_key_from_public_impl(
    algorithm: Algorithm,
    signature_algorithm: Option<CoseSignatureAlgorithm>,
    public_key: &[u8],
) -> (r: Result<KeyConstruction, CoseError>)
    ensures
        match r {
            Ok(construction) => spec_public_construction_error(
                algorithm,
                signature_algorithm,
                public_key@,
            ) is None && spec_public_construction_holds(
                construction,
                algorithm,
                signature_algorithm,
                public_key@,
            ),
            Err(error) => spec_public_construction_error(algorithm, signature_algorithm, public_key@)
                == Some(error),
        },
{
    match algorithm {
        Algorithm::Ed25519 => {
            if public_key.len() != ED25519_PUBLIC_KEY_BYTES {
                return Err(CoseError::InvalidKeyMaterial);
            }
            let check = MaterialCheck::PublicKey {
                algorithm,
                public_key: vstd::slice::slice_to_vec(public_key),
            };
            Ok(
                KeyConstruction {
                    key: okp_key(CURVE_ED25519, public_key, None, Some(-19i64)),
                    checks: single_check(check),
                },
            )
        },
        Algorithm::X25519 => {
            if public_key.len() != X25519_PUBLIC_KEY_BYTES {
                return Err(CoseError::InvalidKeyMaterial);
            }
            let check = MaterialCheck::PublicKey {
                algorithm,
                public_key: vstd::slice::slice_to_vec(public_key),
            };
            Ok(
                KeyConstruction {
                    key: okp_key(CURVE_X25519, public_key, None, None),
                    checks: single_check(check),
                },
            )
        },
        Algorithm::P256 | Algorithm::P384 | Algorithm::P521 | Algorithm::Secp256k1 => {
            let profile = match selected_ec2_profile(algorithm, signature_algorithm) {
                Ok(profile) => profile,
                Err(error) => return Err(error),
            };
            let (canonical, input, checked) = match ec_public_point(profile, public_key) {
                Ok(point) => point,
                Err(error) => return Err(error),
            };
            let key = match ec2_key(profile, canonical.as_slice(), None) {
                Ok(key) => key,
                Err(error) => return Err(error),
            };
            let check = MaterialCheck::PublicKey { algorithm: checked, public_key: input };
            Ok(KeyConstruction { key, checks: single_check(check) })
        },
        Algorithm::MlDsa44 | Algorithm::MlDsa65 | Algorithm::MlDsa87 | Algorithm::MlKem512
        | Algorithm::MlKem768 | Algorithm::MlKem1024 => {
            let profile = match akp_profile(algorithm) {
                Ok(profile) => profile,
                Err(error) => return Err(error),
            };
            if public_key.len() != profile.public_key_len {
                return Err(CoseError::InvalidKeyMaterial);
            }
            let key = match akp_key(algorithm, public_key, None) {
                Ok(key) => key,
                Err(error) => return Err(error),
            };
            let check = MaterialCheck::PublicKey {
                algorithm,
                public_key: vstd::slice::slice_to_vec(public_key),
            };
            Ok(KeyConstruction { key, checks: single_check(check) })
        },
        _ => Err(CoseError::UnsupportedAlgorithm),
    }
}

/// The outcome, before any provider check, of building a private key of
/// `algorithm` from `private_key` and its public key.
pub open spec fn spec_private_construction_error(
    algorithm: Algorithm,
    signature_algorithm: Option<CoseSignatureAlgorithm>,
    private_key: Seq<u8>,
    public_key: Option<Seq<u8>>,
) -> Option<CoseError> {
    if private_key.len() == 0 {
        Some(CoseError::MissingPrivateKey)
    } else {
        match algorithm {
            Algorithm::Ed25519 => if private_key.len() != ED25519_SECRET_KEY_BYTES {
                Some(CoseError::InvalidKeyMaterial)
            } else {
                match public_key {
                    None => Some(CoseError::MissingKeyMaterial),
                    Some(public_key) => if public_key.len() != ED25519_PUBLIC_KEY_BYTES {
                        Some(CoseError::InvalidKeyMaterial)
                    } else {
                        None
                    },
                }
            },
            Algorithm::P256 | Algorithm::P384 | Algorithm::P521 | Algorithm::Secp256k1 => match spec_selected_ec2_profile(
                algorithm,
                signature_algorithm,
            ) {
                Err(error) => Some(error),
                Ok(profile) => if private_key.len() != profile.coordinate_len {
                    Some(CoseError::InvalidKeyMaterial)
                } else {
                    match public_key {
                        None => Some(CoseError::MissingKeyMaterial),
                        Some(public_key) => match spec_ec_public_point(profile, public_key) {
                            Err(error) => Some(error),
                            Ok(_) => None,
                        },
                    }
                },
            },
            Algorithm::MlDsa44 | Algorithm::MlDsa65 | Algorithm::MlDsa87 | Algorithm::MlKem512
            | Algorithm::MlKem768 | Algorithm::MlKem1024 => match spec_akp_profile(algorithm) {
                Err(error) => Some(error),
                Ok(profile) => match public_key {
                    None => Some(CoseError::MissingKeyMaterial),
                    Some(public_key) => if private_key.len() != profile.private_key_len
                        || public_key.len() != profile.public_key_len {
                        Some(CoseError::InvalidKeyMaterial)
                    } else {
                        None
                    },
                },
            },
            _ => Some(CoseError::UnsupportedAlgorithm),
        }
    }
}

/// The key and provider checks of a private-key construction that passed
/// its own checks.
pub open spec fn spec_private_construction_holds(
    construction: KeyConstruction,
    algorithm: Algorithm,
    signature_algorithm: Option<CoseSignatureAlgorithm>,
    private_key: Seq<u8>,
    public_key: Seq<u8>,
) -> bool {
    let key = construction.key@;
    let checks = construction.checks@;
    match algorithm {
        Algorithm::Ed25519 => checks.len() == 1 && spec_is_pair_check(
            checks[0],
            algorithm,
            private_key,
            public_key,
        ) && spec_is_okp_key(key, CURVE_ED25519, public_key, Some(private_key), Some(-19i64)),
        Algorithm::P256 | Algorithm::P384 | Algorithm::P521 | Algorithm::Secp256k1 => {
            &&& spec_selected_ec2_profile(algorithm, signature_algorithm) matches Ok(profile)
            &&& spec_ec_public_point(profile, public_key) matches Ok((canonical, input, checked))
            &&& checks.len() == 2
            &&& spec_is_public_check(checks[0], checked, input)
            &&& spec_is_pair_check(checks[1], algorithm, private_key, canonical)
            &&& spec_point_form(profile, canonical) matches Ok(form)
            &&& spec_is_ec2_key(key, profile, form, Some(private_key))
        },
        _ => checks.len() == 1 && spec_is_pair_check(checks[0], algorithm, private_key, public_key)
            && spec_is_akp_key(key, algorithm, public_key, Some(private_key)),
    }
}

fn pair_check(algorithm: Algorithm, private_key: &[u8], public_key: &[u8]) -> (r: MaterialCheck)
    ensures
        spec_is_pair_check(r, algorithm, private_key@, public_key@),
{
    MaterialCheck::KeyPair {
        algorithm,
        private_key: vstd::slice::slice_to_vec(private_key),
        public_key: vstd::slice::slice_to_vec(public_key),
    }
}

/// Build a private COSE key of `algorithm` with its public key, bound to the
/// exact registration `signature_algorithm` where given.
pub fn construct_cose_key_from_private_impl(
    algorithm: Algorithm,
    signature_algorithm: Option<CoseSignatureAlgorithm>,
    private_key: &[u8],
    public_key: Option<&[u8]>,
) -> (r: Result<KeyConstruction, CoseError>)
    ensures
        match r {
            Ok(construction) => {
                &&& spec_private_construction_error(
                    algorithm,
                    signature_algorithm,
                    private_key@,
                    match public_key {
                        Some(p) => Some(p@),
                        None => None,
                    },
                ) is None
                &&& public_key matches Some(p)
                &&& spec_private_construction_holds(
                    construction,
                    algorithm,
                    signature_algorithm,
                    private_key@,
                    p@,
                )
            },
            Err(error) => spec_private_construction_error(
                algorithm,
                signature_algorithm,
                private_key@,
                match public_key {
                    Some(p) => Some(p@),
                    None => None,
                },
            ) == Some(error),
        },
{
    if private_key.len() == 0 {
        return Err(CoseError::MissingPrivateKey);
    }
    match algorithm {
        Algorithm::Ed25519 => {
            if private_key.len() != ED25519_SECRET_KEY_BYTES {
                return Err(CoseError::InvalidKeyMaterial);
            }
            let public_key = match public_key {
                Some(public_key) => public_key,
                None => return Err(CoseError::MissingKeyMaterial),
            };
            if public_key.len() != ED25519_PUBLIC_KEY_BYTES {
                return Err(CoseError::InvalidKeyMaterial);
            }
            // RFC 8949 bytewise key order places -2 (`x`) before -4 (`d`),
            // so the key is directly serializable by the canonical encoder.
            Ok(
                KeyConstruction {
                    key: okp_key(CURVE_ED25519, public_key, Some(private_key), Some(-19i64)),
                    checks: single_check(pair_check(algorithm, private_key, public_key)),
                },
            )
        },
        Algorithm::P256 | Algorithm::P384 | Algorithm::P521 | Algorithm::Secp256k1 => {
            let profile = match selected_ec2_profile(algorithm, signature_algorithm) {
                Ok(profile) => profile,
                Err(error) => return Err(error),
            };
            if private_key.len() != profile.coordinate_len {
                return Err(CoseError::InvalidKeyMaterial);
            }
            let public_key = match public_key {
                Some(public_key) => public_key,
                None => return Err(CoseError::MissingKeyMaterial),
            };
            let (canonical, input, checked) = match ec_public_point(profile, public_key) {
                Ok(point) => point,
                Err(error) => return Err(error),
            };
            let key = match ec2_key(profile, canonical.as_slice(), Some(private_key)) {
                Ok(key) => key,
                Err(error) => return Err(error),
            };
            let pair = pair_check(algorithm, private_key, canonical.as_slice());
            let mut checks: Vec<MaterialCheck> = Vec::new();
            checks.push(MaterialCheck::PublicKey { algorithm: checked, public_key: input });
            checks.push(pair);
            Ok(KeyConstruction { key, checks })
        },
        Algorithm::MlDsa44 | Algorithm::MlDsa65 | Algorithm::MlDsa87 | Algorithm::MlKem512
        | Algorithm::MlKem768 | Algorithm::MlKem1024 => {
            let profile = match akp_profile(algorithm) {
                Ok(profile) => profile,
                Err(error) => return Err(error),
            };
            let public_key = match public_key {
                Some(public_key) => public_key,
                None => return Err(CoseError::MissingKeyMaterial),
            };
            if private_key.len() != profile.private_key_len || public_key.len() != profile.public_key_len {
                return Err(CoseError::InvalidKeyMaterial);
            }
            let key = match akp_key(algorithm, public_key, Some(private_key)) {
                Ok(key) => key,
                Err(error) => return Err(error),
            };
            Ok(
                KeyConstruction {
                    key,
                    checks: single_check(pair_check(algorithm, private_key, public_key)),
                },
            )
        },
        _ => Err(CoseError::UnsupportedAlgorithm),
    }
}

} // verus!

verus! {

/// A point as the provider's decompression returned it: SEC1 bytes for the
/// NIST curves, affine coordinates for secp256k1.
pub enum DecompressedPoint {
    /// A SEC1-encoded point.
    Sec1(Vec<u8>),
    /// The affine coordinates `x` and `y`.
    Coordinates(Vec<u8>, Vec<u8>),
}

/// The full SEC1 uncompressed point `04 || x || y` of the canonical point
/// of `profile`, from what the provider's decompression returned (`None`
/// where it rejected the point): the SEC1 bytes of a NIST curve as
/// returned, and for secp256k1 the coordinates, each of the coordinate
/// length, behind the uncompressed prefix.
pub open spec fn spec_expand_point(profile: Ec2Profile, decompressed: Option<DecompressedPoint>) -> Result<
    Seq<u8>,
    CoseError,
> {
    if profile.curve == CURVE_P256 || profile.curve == CURVE_P384 || profile.curve == CURVE_P521 {
        match decompressed {
            Some(DecompressedPoint::Sec1(bytes)) => Ok(bytes@),
            _ => Err(CoseError::InvalidKeyMaterial),
        }
    } else if profile.curve == CURVE_SECP256K1 {
        match decompressed {
            Some(DecompressedPoint::Coordinates(x, y)) => if profile.coordinate_len * 2 > usize::MAX {
                Err(CoseError::InvalidFormat)
            } else if profile.coordinate_len * 2 + 1 > usize::MAX {
                Err(CoseError::ResourceLimitExceeded)
            } else if x@.len() != profile.coordinate_len || y@.len() != profile.coordinate_len {
                Err(CoseError::InvalidKeyMaterial)
            } else {
                Ok(seq![UNCOMPRESSED_POINT_PREFIX] + x@ + y@)
            },
            _ => Err(CoseError::InvalidKeyMaterial),
        }
    } else {
        Err(CoseError::UnsupportedAlgorithm)
    }
}

/// The full coordinates of a canonical point from the provider's
/// decompression of it.
pub fn expand_canonical_ec_point(profile: Ec2Profile, decompressed: Option<DecompressedPoint>) -> (r: Result<
    Vec<u8>,
    CoseError,
>)
    ensures
        match r {
            Ok(point) => spec_expand_point(profile, decompressed) == Ok::<Seq<u8>, CoseError>(point@),
            Err(error) => spec_expand_point(profile, decompressed) == Err::<Seq<u8>, CoseError>(error),
        },
{
    if profile.curve == CURVE_P256 || profile.curve == CURVE_P384 || profile.curve == CURVE_P521 {
        match decompressed {
            Some(DecompressedPoint::Sec1(bytes)) => Ok(bytes),
            _ => Err(CoseError::InvalidKeyMaterial),
        }
    } else if profile.curve == CURVE_SECP256K1 {
        let (x, y) = match decompressed {
            Some(DecompressedPoint::Coordinates(x, y)) => (x, y),
            _ => return Err(CoseError::InvalidKeyMaterial),
        };
        let raw_len = match profile.coordinate_len.checked_mul(2) {
            Some(length) => length,
            None => return Err(CoseError::InvalidFormat),
        };
        if raw_len.checked_add(COMPRESSED_POINT_PREFIX_BYTES).is_none() {
            return Err(CoseError::ResourceLimitExceeded);
        }
        if x.len() != profile.coordinate_len || y.len() != profile.coordinate_len {
            return Err(CoseError::InvalidKeyMaterial);
        }
        let ghost coordinates = (x@, y@);
        let mut expanded: Vec<u8> = Vec::new();
        expanded.push(UNCOMPRESSED_POINT_PREFIX);
        let mut x = x;
        let mut y = y;
        expanded.append(&mut x);
        expanded.append(&mut y);
        assert(expanded@ =~= seq![UNCOMPRESSED_POINT_PREFIX] + coordinates.0 + coordinates.1);
        Ok(expanded)
    } else {
        Err(CoseError::UnsupportedAlgorithm)
    }
}


/// A public EC key under an explicit point encoding, before the provider
/// has checked it.
pub enum EncodedPublicKey {
    /// The key, built with the compact `y`; its checks must pass before it
    /// is released.
    Built(KeyConstruction),
    /// The supplied point must pass `check`; the provider then decompresses
    /// `canonical`, [`expand_canonical_ec_point`] gives the full point and
    /// [`ec_key_from_point`] builds the key of `profile` from it.
    Expand { profile: Ec2Profile, canonical: Vec<u8>, check: MaterialCheck },
}

/// Why an EC public key cannot be built under any point encoding, decided
/// before the provider is asked; `None` where nothing stops it.
pub open spec fn spec_encoded_public_error(
    algorithm: Algorithm,
    signature_algorithm: Option<CoseSignatureAlgorithm>,
    public_key: Seq<u8>,
) -> Option<CoseError> {
    match spec_selected_ec2_profile(algorithm, signature_algorithm) {
        Err(error) => Some(error),
        Ok(profile) => match spec_ec_public_point(profile, public_key) {
            Err(error) => Some(error),
            Ok(_) => None,
        },
    }
}

/// Build a public EC2 COSE key of `algorithm`, bound to the exact
/// registration `signature_algorithm` where given, whose `y` parameter has
/// the shape `encoding` asks for.
///
/// The supplied point is validated and reduced to its canonical compressed
/// form first; the full form is the provider's decompression of that
/// canonical point, so an invalid `y` is never carried over.
pub fn construct_cose_key_from_public_with_encoding_impl(
    algorithm: Algorithm,
    signature_algorithm: Option<CoseSignatureAlgorithm>,
    public_key: &[u8],
    encoding: crate::key::encoding::CoseEc2PointEncoding,
) -> (r: Result<EncodedPublicKey, CoseError>)
    ensures
        match r {
            Ok(EncodedPublicKey::Built(construction)) => {
                &&& encoding == crate::key::encoding::CoseEc2PointEncoding::Compressed
                &&& spec_encoded_public_error(algorithm, signature_algorithm, public_key@) is None
                &&& spec_public_construction_holds(construction, algorithm, signature_algorithm, public_key@)
            },
            Ok(EncodedPublicKey::Expand { profile, canonical, check }) => {
                &&& encoding == crate::key::encoding::CoseEc2PointEncoding::FullCoordinates
                &&& spec_selected_ec2_profile(algorithm, signature_algorithm) == Ok::<Ec2Profile, CoseError>(profile)
                &&& spec_ec_public_point(profile, public_key@) matches Ok((c, input, checked))
                &&& canonical@ == c
                &&& spec_is_public_check(check, checked, input)
            },
            Err(error) => spec_encoded_public_error(algorithm, signature_algorithm, public_key@) == Some(error),
        },
{
    let profile = match selected_ec2_profile(algorithm, signature_algorithm) {
        Ok(profile) => profile,
        Err(error) => return Err(error),
    };
    let (canonical, input, checked) = match ec_public_point(profile, public_key) {
        Ok(point) => point,
        Err(error) => return Err(error),
    };
    match encoding {
        crate::key::encoding::CoseEc2PointEncoding::Compressed => {
            let key = match ec2_key(profile, canonical.as_slice(), None) {
                Ok(key) => key,
                Err(error) => return Err(error),
            };
            let check = MaterialCheck::PublicKey { algorithm: checked, public_key: input };
            Ok(EncodedPublicKey::Built(KeyConstruction { key, checks: single_check(check) }))
        },
        crate::key::encoding::CoseEc2PointEncoding::FullCoordinates => {
            let check = MaterialCheck::PublicKey { algorithm: checked, public_key: input };
            Ok(EncodedPublicKey::Expand { profile, canonical, check })
        },
    }
}

/// The public EC2 key of `profile` holding a supplied point in its own
/// form.
pub fn ec_key_from_point(profile: Ec2Profile, point: &[u8]) -> (r: Result<CoseKey, CoseError>)
    ensures
        match r {
            Ok(key) => spec_point_form(profile, point@) matches Ok(form) && spec_is_ec2_key(
                key@,
                profile,
                form,
                None,
            ),
            Err(error) => spec_point_form(profile, point@) == Err::<PointForm, CoseError>(error),
        },
{
    ec2_key(profile, point, None)
}

} // verus!
