//! Fixed-point quantities.
//!
//! A quantity is an `i32` that counts hundredths: of a distance unit for
//! lengths and coordinates, of a distance unit per second for speeds, of a
//! radian for angles, and of one for plain ratios.

use vstd::prelude::*;

verus! {

/// How many counts make one whole.
pub const SCALE: i32 = 100;

/// The largest magnitude that [`whole`] accepts.
pub const MAX_WHOLE: i32 = 21_474_836;

/// The quantity that stands for `n` wholes.
pub fn whole(n: i32) -> (q: i32)
    requires
        -MAX_WHOLE <= n <= MAX_WHOLE,
    ensures
        q == n * SCALE,
{
    n * SCALE
}

} // verus!
