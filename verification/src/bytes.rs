//! Byte-string comparison for secret-dependent identifiers.

use vstd::prelude::*;

verus! {

/// Compare two byte strings without a data-dependent early exit: every byte
/// of equal-length inputs is inspected before the answer is known.
pub fn constant_time_equal(a: &[u8], b: &[u8]) -> (r: bool)
    ensures
        r == (a@ == b@),
{
    if a.len() != b.len() {
        return false;
    }
    let mut difference: u8 = 0;
    let mut i: usize = 0;
    assert(a@.take(0) =~= b@.take(0));
    while i < a.len()
        invariant
            i <= a@.len(),
            a@.len() == b@.len(),
            (difference == 0) == (a@.take(i as int) == b@.take(i as int)),
        decreases a@.len() - i,
    {
        let x = a[i];
        let y = b[i];
        let d = x ^ y;
        assert((d == 0) == (x == y)) by (bit_vector)
            requires
                d == x ^ y,
        ;
        let next = difference | d;
        assert((next == 0) == (difference == 0 && d == 0)) by (bit_vector)
            requires
                next == difference | d,
        ;
        proof {
            assert(a@.take(i as int + 1) =~= a@.take(i as int).push(x));
            assert(b@.take(i as int + 1) =~= b@.take(i as int).push(y));
            if a@.take(i as int + 1) == b@.take(i as int + 1) {
                assert(a@.take(i as int + 1)[i as int] == b@.take(i as int + 1)[i as int]);
                assert(a@.take(i as int) =~= a@.take(i as int + 1).take(i as int));
                assert(b@.take(i as int) =~= b@.take(i as int + 1).take(i as int));
            }
        }
        difference = next;
        i = i + 1;
    }
    proof {
        assert(a@.take(i as int) =~= a@);
        assert(b@.take(i as int) =~= b@);
    }
    difference == 0
}

} // verus!
