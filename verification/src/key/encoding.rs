//! Wire shape of the `y` parameter of public EC2 COSE keys.

use vstd::prelude::*;

verus! {

/// Encoding used for the EC2 `y` parameter in a public COSE_Key.
#[derive(Debug, Clone, Copy, PartialEq, Eq, Structural)]
pub enum CoseEc2PointEncoding {
    /// RFC 9053 compact form: `y` is the point-parity boolean.
    Compressed,
    /// Full affine form: both `x` and `y` are byte strings.
    FullCoordinates,
}

impl Default for CoseEc2PointEncoding {
    /// The compact form.
    fn default() -> (r: Self)
        ensures
            r == CoseEc2PointEncoding::Compressed,
    {
        CoseEc2PointEncoding::Compressed
    }
}

} // verus!
