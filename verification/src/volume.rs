//! The gain of the system's audio output.
//!
//! A gain is carried as the bit pattern of an IEEE 754 single-precision
//! number (`f32::to_bits`). Read as unsigned integers, the patterns from
//! `+0.0` up to `+infinity` stand in the order of the numbers they encode;
//! above `+infinity` lie the patterns with the sign bit set and those that
//! encode no number.

use vstd::prelude::*;

verus! {

/// The bit pattern of the gain `0.0`: no output.
pub const MUTED: u32 = 0;

/// The bit pattern of the gain `1.0`: full output.
pub const UNITY: u32 = 0x3F80_0000;

/// The bit pattern of `+infinity`.
pub const INFINITY: u32 = 0x7F80_0000;

/// The gain nearest to `gain` between `0.0` and `1.0`: a negative gain, and
/// one that is no number, gives `0.0`; a gain above `1.0` gives `1.0`; any
/// other gain stays as it is.
pub open spec fn clamped_gain(gain: u32) -> u32 {
    if gain > INFINITY {
        MUTED
    } else if gain > UNITY {
        UNITY
    } else {
        gain
    }
}

/// Holds a gain to the range from `0.0` to `1.0`, as the system expects it.
pub fn clamp_gain(gain: u32) -> (clamped: u32)
    ensures
        clamped == clamped_gain(gain),
        clamped <= UNITY,
{
    if gain > INFINITY {
        MUTED
    } else if gain > UNITY {
        UNITY
    } else {
        gain
    }
}

} // verus!
