//! Clipping of one signed endpoint to a bound on a sequence of known length.

use vstd::prelude::*;

verus! {

/// The bound that the endpoint `pos` names on a sequence of `len` elements.
///
/// A non-negative endpoint counts from the front and stops at `len`; a
/// negative endpoint `-k` counts `k` elements back from the end and stops at
/// the front.
pub open spec fn clip_bound(pos: int, len: nat) -> nat {
    if pos >= len {
        len
    } else if pos >= 0 {
        pos as nat
    } else if len + pos >= 0 {
        (len + pos) as nat
    } else {
        0
    }
}

/// Clips the endpoint `pos` to a bound on a sequence of `len` elements.
///
/// Every endpoint and every length is accepted, the least `isize` included.
pub fn clip(pos: isize, len: usize) -> (bound: usize)
    ensures
        bound == clip_bound(pos as int, len as nat),
        bound <= len,
        pos == 0 ==> bound == 0,
        pos >= len ==> bound == len,
        pos <= -len ==> bound == 0,
{
    if pos < 0 {
        // One less than the magnitude of `pos`, which always fits.
        let short: usize = (-(pos + 1)) as usize;
        if short >= len {
            0
        } else {
            len - 1 - short
        }
    } else if pos as usize > len {
        len
    } else {
        pos as usize
    }
}

} // verus!
