//! A small simulation library: an exported addition function and a
//! two-dimensional ball stepper with damping, gravity, boundary clamping
//! and a one-dimensional bounce.
//!
//! All quantities are fixed-point numbers held in integers, so every
//! operation of the stepper is exact and verified.

use vstd::prelude::*;

pub mod ball;

verus! {

/// Sum of two counters: the unsigned-integer variant of the exported
/// addition function.
pub fn add(a: u64, b: u64) -> (r: u64)
    requires
        a + b <= u64::MAX,
    ensures
        r == a + b,
{
    a + b
}

} // verus!
