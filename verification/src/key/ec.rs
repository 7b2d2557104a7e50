//! Elliptic-curve public points of EC2 COSE keys: the accepted SEC1 forms,
//! the `x`/`y` parameters built from them, and the canonical compressed
//! point.
//!
//! Whether a point lies on its curve is decided by the cryptographic
//! provider; the functions here say which bytes it must check and what the
//! key holds once it has.

use vstd::prelude::*;

use crate::algorithm::label::Label;
use crate::cbor::CborValue;
use crate::error::CoseError;

use super::profile::{
    algorithm_for_ec2_profile, spec_algorithm_for_ec2_profile, Ec2Profile, PARAM_CRV, PARAM_X, PARAM_Y,
};

verus! {

/// Length of the SEC1 point-form prefix.
pub const COMPRESSED_POINT_PREFIX_BYTES: usize = 1;
/// SEC1 prefix of a compressed point with even `y`.
pub const COMPRESSED_POINT_EVEN_PREFIX: u8 = 0x02;
/// SEC1 prefix of a compressed point with odd `y`.
pub const COMPRESSED_POINT_ODD_PREFIX: u8 = 0x03;
/// SEC1 prefix of an uncompressed point.
pub const UNCOMPRESSED_POINT_PREFIX: u8 = 0x04;

/// The lengths of the compressed, raw `x || y` and uncompressed forms of a
/// point of `profile`, or [`CoseError::InvalidFormat`] where one overflows.
pub open spec fn spec_point_lengths(profile: Ec2Profile) -> Result<(int, int, int), CoseError> {
    let compressed = profile.coordinate_len + 1;
    let raw = profile.coordinate_len * 2;
    if compressed > usize::MAX || raw > usize::MAX || raw + 1 > usize::MAX {
        Err(CoseError::InvalidFormat)
    } else {
        Ok((compressed, raw, raw + 1))
    }
}

fn point_lengths(profile: Ec2Profile) -> (r: Result<(usize, usize, usize), CoseError>)
    ensures
        match r {
            Ok((compressed, raw, uncompressed)) => spec_point_lengths(profile) == Ok::<
                (int, int, int),
                CoseError,
            >((compressed as int, raw as int, uncompressed as int)),
            Err(error) => spec_point_lengths(profile) == Err::<(int, int, int), CoseError>(error),
        },
{
    let compressed = match profile.coordinate_len.checked_add(COMPRESSED_POINT_PREFIX_BYTES) {
        Some(length) => length,
        None => return Err(CoseError::InvalidFormat),
    };
    let raw = match profile.coordinate_len.checked_mul(2) {
        Some(length) => length,
        None => return Err(CoseError::InvalidFormat),
    };
    let uncompressed = match raw.checked_add(COMPRESSED_POINT_PREFIX_BYTES) {
        Some(length) => length,
        None => return Err(CoseError::InvalidFormat),
    };
    Ok((compressed, raw, uncompressed))
}

/// A public point as supplied: its `x` coordinate and either the parity of
/// `y` or the full `y` coordinate.
pub enum PointForm {
    /// `x` and the parity of `y` (odd when `true`).
    Compressed(Seq<u8>, bool),
    /// `x` and `y`.
    Full(Seq<u8>, Seq<u8>),
}

/// The form of a supplied public point: SEC1 compressed (`02`/`03 || x`),
/// raw `x || y`, or SEC1 uncompressed (`04 || x || y`), tried in that order.
pub open spec fn spec_point_form(profile: Ec2Profile, public_key: Seq<u8>) -> Result<PointForm, CoseError> {
    match spec_point_lengths(profile) {
        Err(error) => Err(error),
        Ok((compressed, raw, uncompressed)) => {
            let len = profile.coordinate_len as int;
            if public_key.len() == compressed && (public_key[0] == COMPRESSED_POINT_EVEN_PREFIX
                || public_key[0] == COMPRESSED_POINT_ODD_PREFIX) {
                Ok(
                    PointForm::Compressed(
                        public_key.subrange(1, compressed),
                        public_key[0] == COMPRESSED_POINT_ODD_PREFIX,
                    ),
                )
            } else if public_key.len() == raw {
                Ok(PointForm::Full(public_key.subrange(0, len), public_key.subrange(len, raw)))
            } else if public_key.len() == uncompressed && public_key[0] == UNCOMPRESSED_POINT_PREFIX {
                Ok(
                    PointForm::Full(
                        public_key.subrange(1, 1 + len),
                        public_key.subrange(1 + len, uncompressed),
                    ),
                )
            } else {
                Err(CoseError::InvalidKeyMaterial)
            }
        },
    }
}

/// `params` are the public EC2 parameters `crv`, `x` and `y` of the point
/// `form` on `curve`; a compressed point carries the parity of `y` as a
/// boolean.
pub open spec fn spec_is_ec2_public_params(
    params: Seq<(Label, CborValue)>,
    curve: i64,
    form: PointForm,
) -> bool {
    &&& params.len() == 3
    &&& params[0].0 == Label::Int(PARAM_CRV) && params[0].1 == CborValue::Integer(curve as i128)
    &&& params[1].0 == Label::Int(PARAM_X)
    &&& params[2].0 == Label::Int(PARAM_Y)
    &&& match form {
        PointForm::Compressed(x, odd) => {
            &&& params[1].1 matches CborValue::Bytes(held) && held@ == x
            &&& params[2].1 == CborValue::Bool(odd)
        },
        PointForm::Full(x, y) => {
            &&& params[1].1 matches CborValue::Bytes(held) && held@ == x
            &&& params[2].1 matches CborValue::Bytes(held) && held@ == y
        },
    }
}

fn copy_range(bytes: &[u8], start: usize, end: usize) -> (r: Vec<u8>)
    requires
        start <= end <= bytes@.len(),
    ensures
        r@ == bytes@.subrange(start as int, end as int),
{
    vstd::slice::slice_to_vec(vstd::slice::slice_subrange(bytes, start, end))
}

fn ec2_params(curve: i64, x: Vec<u8>, y: CborValue) -> (r: Vec<(Label, CborValue)>)
    ensures
        r@.len() == 3,
        r@[0] == (Label::Int(PARAM_CRV), CborValue::Integer(curve as i128)),
        r@[1].0 == Label::Int(PARAM_X) && (r@[1].1 matches CborValue::Bytes(held) && held@ == x@),
        r@[2] == (Label::Int(PARAM_Y), y),
{
    let mut params: Vec<(Label, CborValue)> = Vec::new();
    params.push((Label::Int(PARAM_CRV), CborValue::Integer(curve as i128)));
    params.push((Label::Int(PARAM_X), CborValue::Bytes(x)));
    params.push((Label::Int(PARAM_Y), y));
    params
}

/// The public EC2 parameters `crv`, `x` and `y` of a supplied point, in
/// its own form.
pub fn ec2_public_key_builder(profile: Ec2Profile, public_key: &[u8]) -> (r: Result<
    Vec<(Label, CborValue)>,
    CoseError,
>)
    ensures
        match r {
            Ok(params) => spec_point_form(profile, public_key@) matches Ok(form)
                && spec_is_ec2_public_params(params@, profile.curve, form),
            Err(error) => spec_point_form(profile, public_key@) == Err::<PointForm, CoseError>(error),
        },
{
    let (compressed_len, raw_len, uncompressed_len) = match point_lengths(profile) {
        Ok(lengths) => lengths,
        Err(error) => return Err(error),
    };
    let coordinate_len = profile.coordinate_len;
    if public_key.len() == compressed_len {
        let prefix = public_key[0];
        if prefix == COMPRESSED_POINT_EVEN_PREFIX || prefix == COMPRESSED_POINT_ODD_PREFIX {
            let x = copy_range(public_key, COMPRESSED_POINT_PREFIX_BYTES, compressed_len);
            return Ok(
                ec2_params(profile.curve, x, CborValue::Bool(prefix == COMPRESSED_POINT_ODD_PREFIX)),
            );
        }
    }
    if public_key.len() == raw_len {
        let x = copy_range(public_key, 0, coordinate_len);
        let y = copy_range(public_key, coordinate_len, raw_len);
        let ghost y_view = y@;
        let params = ec2_params(profile.curve, x, CborValue::Bytes(y));
        assert(params@[2].1 matches CborValue::Bytes(held) && held@ == y_view);
        return Ok(params);
    }
    if public_key.len() == uncompressed_len && public_key[0] == UNCOMPRESSED_POINT_PREFIX {
        let y_start = COMPRESSED_POINT_PREFIX_BYTES + coordinate_len;
        let x = copy_range(public_key, COMPRESSED_POINT_PREFIX_BYTES, y_start);
        let y = copy_range(public_key, y_start, uncompressed_len);
        let ghost y_view = y@;
        let params = ec2_params(profile.curve, x, CborValue::Bytes(y));
        assert(params@[2].1 matches CborValue::Bytes(held) && held@ == y_view);
        return Ok(params);
    }
    Err(CoseError::InvalidKeyMaterial)
}

/// The bytes the provider must accept as a point of the profile's curve
/// before a supplied point is used: a SEC1 compressed or uncompressed point
/// as given, and a raw `x || y` point with the uncompressed prefix added.
pub open spec fn spec_point_validation_input(profile: Ec2Profile, public_key: Seq<u8>) -> Result<
    Seq<u8>,
    CoseError,
> {
    match spec_point_form(profile, public_key) {
        Err(error) => Err(error),
        Ok(_) => if public_key.len() == profile.coordinate_len * 2 {
            Ok(seq![UNCOMPRESSED_POINT_PREFIX] + public_key)
        } else {
            Ok(public_key)
        },
    }
}

/// The SEC1 compressed point `02`/`03 || x` of a point whose `y`
/// coordinate ends in `y_last`.
pub open spec fn spec_compress(x: Seq<u8>, y_last: u8) -> Seq<u8> {
    seq![if y_last % 2 == 1 { COMPRESSED_POINT_ODD_PREFIX } else { COMPRESSED_POINT_EVEN_PREFIX }] + x
}

/// The canonical compressed form of a supplied point.
pub open spec fn spec_canonical_point(profile: Ec2Profile, public_key: Seq<u8>) -> Result<
    Seq<u8>,
    CoseError,
> {
    match spec_point_form(profile, public_key) {
        Err(error) => Err(error),
        Ok(PointForm::Compressed(_, _)) => Ok(public_key),
        Ok(PointForm::Full(x, y)) => if y.len() == 0 {
            Err(CoseError::InvalidKeyMaterial)
        } else {
            Ok(spec_compress(x, y.last()))
        },
    }
}

/// The bytes the provider must accept as a curve point before the supplied
/// point is used.
pub fn point_validation_input(profile: Ec2Profile, public_key: &[u8]) -> (r: Result<
    Vec<u8>,
    CoseError,
>)
    ensures
        match r {
            Ok(bytes) => spec_point_validation_input(profile, public_key@) == Ok::<Seq<u8>, CoseError>(
                bytes@,
            ),
            Err(error) => spec_point_validation_input(profile, public_key@) == Err::<
                Seq<u8>,
                CoseError,
            >(error),
        },
{
    match ec2_public_key_builder(profile, public_key) {
        Ok(_) => {},
        Err(error) => return Err(error),
    }
    if public_key.len() == profile.coordinate_len * 2 {
        let mut sec1: Vec<u8> = Vec::new();
        sec1.push(UNCOMPRESSED_POINT_PREFIX);
        let mut i: usize = 0;
        while i < public_key.len()
            invariant
                i <= public_key@.len(),
                sec1@ == seq![UNCOMPRESSED_POINT_PREFIX] + public_key@.take(i as int),
            decreases public_key@.len() - i,
        {
            sec1.push(public_key[i]);
            proof {
                assert(public_key@.take(i as int + 1) =~= public_key@.take(i as int).push(public_key@[i as int]));
            }
            i = i + 1;
        }
        proof {
            assert(public_key@.take(i as int) =~= public_key@);
        }
        Ok(sec1)
    } else {
        Ok(vstd::slice::slice_to_vec(public_key))
    }
}

/// The compressed point `02`/`03 || x`.
pub fn compress_point(x: &[u8], y_last: u8) -> (r: Vec<u8>)
    ensures
        r@ == spec_compress(x@, y_last),
{
    let mut compressed: Vec<u8> = Vec::new();
    compressed.push(if y_last % 2 == 1 { COMPRESSED_POINT_ODD_PREFIX } else { COMPRESSED_POINT_EVEN_PREFIX });
    let mut i: usize = 0;
    while i < x.len()
        invariant
            i <= x@.len(),
            compressed@ == seq![if y_last % 2 == 1 { COMPRESSED_POINT_ODD_PREFIX } else { COMPRESSED_POINT_EVEN_PREFIX }] + x@.take(i as int),
        decreases x@.len() - i,
    {
        compressed.push(x[i]);
        proof {
            assert(x@.take(i as int + 1) =~= x@.take(i as int).push(x@[i as int]));
        }
        i = i + 1;
    }
    proof {
        assert(x@.take(i as int) =~= x@);
    }
    compressed
}

/// The compressed form of a supplied point of the right shape, whether or
/// not it lies on the curve; callers ask the provider about the point's
/// validation input before they use it.
pub(crate) fn compressed_form(profile: Ec2Profile, public_key: &[u8]) -> (r: Result<Vec<u8>, CoseError>)
    ensures
        match r {
            Ok(bytes) => spec_canonical_point(profile, public_key@) == Ok::<Seq<u8>, CoseError>(bytes@),
            Err(error) => spec_canonical_point(profile, public_key@) == Err::<Seq<u8>, CoseError>(
                error,
            ),
        },
{
    let (compressed_len, raw_len, uncompressed_len) = match point_lengths(profile) {
        Ok(lengths) => lengths,
        Err(error) => return Err(error),
    };
    let coordinate_len = profile.coordinate_len;
    if public_key.len() == compressed_len && (public_key[0] == COMPRESSED_POINT_EVEN_PREFIX
        || public_key[0] == COMPRESSED_POINT_ODD_PREFIX) {
        return Ok(vstd::slice::slice_to_vec(public_key));
    }
    let (x_start, y_start, y_end) = if public_key.len() == raw_len {
        (0, coordinate_len, raw_len)
    } else if public_key.len() == uncompressed_len && public_key[0] == UNCOMPRESSED_POINT_PREFIX {
        (COMPRESSED_POINT_PREFIX_BYTES, COMPRESSED_POINT_PREFIX_BYTES + coordinate_len, uncompressed_len)
    } else {
        return Err(CoseError::InvalidKeyMaterial);
    };
    if y_end == y_start {
        return Err(CoseError::InvalidKeyMaterial);
    }
    let y_last = public_key[y_end - 1];
    let x = vstd::slice::slice_subrange(public_key, x_start, y_start);
    assert(public_key@.subrange(y_start as int, y_end as int).last() == y_last);
    Ok(compress_point(x, y_last))
}

/// The canonical compressed form of a supplied public point, given the
/// provider's verdict on its validation input ([`point_validation_input`]):
/// a point of the wrong shape is refused first, then a profile without a
/// primitive, then whatever the provider refused; only a point the
/// provider accepted is compressed, so an invalid `y` is never repaired.
pub open spec fn spec_canonical_ec_public_key(
    profile: Ec2Profile,
    public_key: Seq<u8>,
    verdict: Result<(), CoseError>,
) -> Result<Seq<u8>, CoseError> {
    match spec_point_form(profile, public_key) {
        Err(error) => Err(error),
        Ok(_) => match spec_algorithm_for_ec2_profile(profile) {
            Err(error) => Err(error),
            Ok(_) => match verdict {
                Err(error) => Err(error),
                Ok(_) => spec_canonical_point(profile, public_key),
            },
        },
    }
}

/// The canonical compressed form of a supplied public point, once the
/// provider has given its verdict on the point's validation input.
pub fn canonical_ec_public_key(
    profile: Ec2Profile,
    public_key: &[u8],
    verdict: Result<(), CoseError>,
) -> (r: Result<Vec<u8>, CoseError>)
    ensures
        match r {
            Ok(bytes) => spec_canonical_ec_public_key(profile, public_key@, verdict) == Ok::<
                Seq<u8>,
                CoseError,
            >(bytes@),
            Err(error) => spec_canonical_ec_public_key(profile, public_key@, verdict) == Err::<
                Seq<u8>,
                CoseError,
            >(error),
        },
{
    if let Err(error) = point_validation_input(profile, public_key) {
        return Err(error);
    }
    if let Err(error) = algorithm_for_ec2_profile(profile) {
        return Err(error);
    }
    if let Err(error) = verdict {
        return Err(error);
    }
    compressed_form(profile, public_key)
}

/// The canonical key of an accepted point is a compressed point of the
/// profile, `02`/`03 || x`, and canonicalizing it again, once the provider
/// accepts it, gives it back unchanged; a point of any other shape is
/// refused as invalid key material whatever the provider's verdict.
pub proof fn lemma_canonical_ec_public_key_is_compressed(
    profile: Ec2Profile,
    public_key: Seq<u8>,
    verdict: Result<(), CoseError>,
)
    ensures
        spec_canonical_ec_public_key(profile, public_key, verdict) matches Ok(canonical) ==> {
            &&& canonical.len() == profile.coordinate_len + 1
            &&& (canonical[0] == COMPRESSED_POINT_EVEN_PREFIX || canonical[0] == COMPRESSED_POINT_ODD_PREFIX)
            &&& spec_canonical_ec_public_key(profile, canonical, Ok(())) == Ok::<Seq<u8>, CoseError>(canonical)
        },
        spec_point_lengths(profile) is Ok && spec_point_form(profile, public_key) is Err
            ==> spec_canonical_ec_public_key(profile, public_key, verdict) == Err::<Seq<u8>, CoseError>(
            CoseError::InvalidKeyMaterial,
        ),
{
    if let Ok(canonical) = spec_canonical_ec_public_key(profile, public_key, verdict) {
        let len = profile.coordinate_len as int;
        match spec_point_form(profile, public_key) {
            Ok(PointForm::Full(x, y)) => {
                assert(x.len() == len);
                assert(canonical =~= spec_compress(x, y.last()));
                assert(canonical.subrange(1, len + 1) =~= x);
            },
            _ => {},
        }
    }
}

/// One point has one canonical form: its raw `x || y` coordinates, its
/// SEC1 uncompressed encoding and its SEC1 compressed encoding all
/// canonicalize to the compressed point, and the provider validates the
/// same uncompressed point for the two full forms.
pub proof fn lemma_point_forms_share_canonical_point(profile: Ec2Profile, x: Seq<u8>, y: Seq<u8>)
    requires
        spec_point_lengths(profile) is Ok,
        profile.coordinate_len > 1,
        x.len() == profile.coordinate_len,
        y.len() == profile.coordinate_len,
    ensures
        spec_canonical_point(profile, x + y) == Ok::<Seq<u8>, CoseError>(spec_compress(x, y.last())),
        spec_canonical_point(profile, seq![UNCOMPRESSED_POINT_PREFIX] + x + y) == Ok::<
            Seq<u8>,
            CoseError,
        >(spec_compress(x, y.last())),
        spec_canonical_point(profile, spec_compress(x, y.last())) == Ok::<Seq<u8>, CoseError>(
            spec_compress(x, y.last()),
        ),
        spec_point_validation_input(profile, x + y) == spec_point_validation_input(
            profile,
            seq![UNCOMPRESSED_POINT_PREFIX] + x + y,
        ),
{
    let len = profile.coordinate_len as int;
    let raw = x + y;
    let sec1 = seq![UNCOMPRESSED_POINT_PREFIX] + x + y;
    let compressed = spec_compress(x, y.last());
    assert(raw.subrange(0, len) =~= x);
    assert(raw.subrange(len, 2 * len) =~= y);
    assert(sec1.subrange(1, 1 + len) =~= x);
    assert(sec1.subrange(1 + len, 2 * len + 1) =~= y);
    assert(compressed.subrange(1, len + 1) =~= x);
    assert(sec1 =~= seq![UNCOMPRESSED_POINT_PREFIX] + raw);
}

} // verus!
