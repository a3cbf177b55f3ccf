//! The length of an audio file's default track, from the time base and the
//! frame count that probing its container gives. Probing itself is the
//! worker's own.

use vstd::prelude::*;

verus! {

/// A track's length in whole milliseconds: frames × numerator / denominator
/// seconds, rounded down (the largest value when it does not fit).
pub open spec fn track_length_spec(numer: u32, denom: u32, frames: u64) -> u64 {
    let ms = (frames * numer * 1000) / (denom as int);
    if ms <= u64::MAX {
        ms as u64
    } else {
        u64::MAX
    }
}

/// The length of a probed track, given its time base (numerator,
/// denominator) and its frame count when the probe found all three: none
/// when they are unknown, or when the time base has a zero part.
pub fn track_length_ms(track: Option<(u32, u32, u64)>) -> (r: Option<u64>)
    ensures
        r == match track {
            Some(t) => if t.0 > 0 && t.1 > 0 {
                Some(track_length_spec(t.0, t.1, t.2))
            } else {
                None
            },
            None => None,
        },
{
    match track {
        None => None,
        Some((numer, denom, frames)) => {
            if numer == 0 || denom == 0 {
                return None;
            }
            assert((frames as u128) * (numer as u128) * 1000 <= u128::MAX) by (nonlinear_arith)
                requires
                    frames <= u64::MAX,
                    numer <= u32::MAX,
            ;
            let dividend: u128 = (frames as u128) * (numer as u128) * 1000;
            let ms: u128 = dividend / (denom as u128);
            if ms <= u64::MAX as u128 {
                Some(ms as u64)
            } else {
                Some(u64::MAX)
            }
        },
    }
}

} // verus!
