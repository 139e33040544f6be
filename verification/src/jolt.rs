//! Telling a jolt from ordinary motion.
//!
//! A motion sample is the acceleration along three axes, each in
//! thousandths of standard gravity. A sample is a jolt when its magnitude
//! lies outside the band between the two thresholds below. Magnitudes are
//! compared by their squares, so that no square root is needed.

use vstd::prelude::*;

verus! {

/// Above this magnitude, in thousandths of standard gravity, a sample is a
/// sharp jolt.
pub const JOLT_HIGH_THRESHOLD: u64 = 1500;

/// Below this magnitude, in thousandths of standard gravity, a sample is a
/// fall.
pub const JOLT_LOW_THRESHOLD: u64 = 500;

/// The square of [`JOLT_HIGH_THRESHOLD`].
pub const JOLT_HIGH_SQ: u64 = JOLT_HIGH_THRESHOLD * JOLT_HIGH_THRESHOLD;

/// The square of [`JOLT_LOW_THRESHOLD`].
pub const JOLT_LOW_SQ: u64 = JOLT_LOW_THRESHOLD * JOLT_LOW_THRESHOLD;

/// The squared magnitude of the sample `(x, y, z)`.
pub open spec fn magnitude_sq(x: int, y: int, z: int) -> int {
    x * x + y * y + z * z
}

/// Whether the sample is a jolt: it is present, and its squared magnitude is
/// above the square of the high threshold or below that of the low one.
pub open spec fn jolted(accel: Option<(i32, i32, i32)>) -> bool {
    match accel {
        Some((x, y, z)) => {
            let m2 = magnitude_sq(x as int, y as int, z as int);
            m2 > JOLT_HIGH_SQ || m2 < JOLT_LOW_SQ
        },
        None => false,
    }
}

/// The square of one component of a sample.
fn square(v: i32) -> (sq: u64)
    ensures
        sq == v * v,
        sq <= 0x4000_0000_0000_0000,
{
    let w: i64 = v as i64;
    assert(0 <= w * w <= 0x4000_0000_0000_0000) by (nonlinear_arith)
        requires
            -0x8000_0000 <= w <= 0x7fff_ffff,
    ;
    (w * w) as u64
}

/// Decides whether a motion sample is a jolt. A missing sample never is.
pub fn did_jolt(accel: Option<(i32, i32, i32)>) -> (jolt: bool)
    ensures
        jolt == jolted(accel),
{
    match accel {
        Some((x, y, z)) => {
            let m2: u64 = square(x) + square(y) + square(z);
            m2 > JOLT_HIGH_SQ || m2 < JOLT_LOW_SQ
        },
        None => false,
    }
}

} // verus!
