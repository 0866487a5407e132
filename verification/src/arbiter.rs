//! Command arbitration: from a pair of classifier probabilities to a drive
//! command.
//!
//! A probability is a single-precision IEEE 754 number and is held here by its
//! bit pattern: one sign bit, eight bits of exponent, twenty-three bits of
//! fraction. What number a pattern denotes is stated below in integers, and
//! the test that the arbiter makes on patterns is proved to be the comparison
//! of the numbers.

use vstd::prelude::*;
use vstd::arithmetic::mul::{lemma_mul_inequality, lemma_mul_left_inequality};
use vstd::arithmetic::mul::lemma_mul_strict_inequality;
use vstd::arithmetic::power2::{lemma_pow2_pos, lemma_pow2_strictly_increases, lemma_pow2_unfold, pow2};
use crate::drive::DriveCommand;

verus! {

/// Bit pattern of the threshold, the single-precision number nearest to 0.6.
pub const THRESHOLD_BITS: u32 = 0x3F19_999A;

/// Bit pattern of positive infinity.
pub const INFINITY_BITS: u32 = 0x7F80_0000;

/// The classifier's probabilities for right and for left motor imagery, each
/// as the bit pattern of a single-precision number. No range is enforced.
#[derive(Clone, Copy, Debug, PartialEq, Eq, Structural)]
pub struct PredictionPair {
    pub right: u32,
    pub left: u32,
}

/// Whether the sign bit of a pattern is set.
pub open spec fn is_negative(bits: u32) -> bool {
    bits >= 0x8000_0000
}

/// The exponent field of a pattern.
pub open spec fn exponent_field(bits: u32) -> int {
    (bits as int / 0x80_0000) % 0x100
}

/// The fraction field of a pattern.
pub open spec fn fraction_field(bits: u32) -> int {
    bits as int % 0x80_0000
}

/// Whether a pattern is a NaN: all exponent bits set and a fraction other
/// than zero.
pub open spec fn is_nan(bits: u32) -> bool {
    exponent_field(bits) == 0xFF && fraction_field(bits) != 0
}

/// The absolute value of the number that a pattern denotes, as a multiple of
/// two to the power of -149. A pattern with exponent field zero denotes its
/// fraction; any other denotes the fraction with the implicit leading bit,
/// doubled once for each step of the exponent above one. Infinity gets the
/// value that this rule gives it, which is greater than that of every finite
/// number.
pub open spec fn magnitude(bits: u32) -> int {
    if exponent_field(bits) == 0 {
        fraction_field(bits)
    } else {
        (0x80_0000 + fraction_field(bits)) * pow2((exponent_field(bits) - 1) as nat)
    }
}

/// The number that a pattern other than a NaN denotes, as a multiple of two
/// to the power of -149.
pub open spec fn number(bits: u32) -> int {
    if is_negative(bits) {
        -magnitude(bits)
    } else {
        magnitude(bits)
    }
}

/// Whether the number with bit pattern `bits` is greater than the threshold.
/// A NaN is greater than nothing.
pub open spec fn above_threshold(bits: u32) -> bool {
    !is_nan(bits) && number(bits) > number(THRESHOLD_BITS)
}

/// The command that a prediction selects: left has priority over right, and
/// a prediction with neither number above the threshold stops the robot.
pub open spec fn arbitration(prediction: PredictionPair) -> DriveCommand {
    if above_threshold(prediction.left) {
        DriveCommand::TurnLeft
    } else if above_threshold(prediction.right) {
        DriveCommand::TurnRight
    } else {
        DriveCommand::Stop
    }
}

/// No single-precision number is nearer to six tenths than the threshold:
/// the threshold is 10066330 / 2^24, and no multiple of 1 / 2^24, which is
/// the spacing of the numbers between one half and one, comes closer.
pub proof fn lemma_threshold_is_nearest_to_six_tenths(significand: int)
    ensures
        exponent_field(THRESHOLD_BITS) == 126,
        0x80_0000 + fraction_field(THRESHOLD_BITS) == 10066330,
        -4 <= 10 * (0x80_0000 + fraction_field(THRESHOLD_BITS)) - 6 * 0x100_0000 <= 4,
        10 * significand - 6 * 0x100_0000 >= 4 || 10 * significand - 6 * 0x100_0000 <= -6,
{
}

/// A number is greater than the threshold exactly when its pattern lies above
/// that of the threshold and not above that of positive infinity.
pub proof fn lemma_patterns_above_threshold(bits: u32)
    ensures
        above_threshold(bits) <==> THRESHOLD_BITS < bits <= INFINITY_BITS,
{
    let exponent = exponent_field(bits);
    let fraction = fraction_field(bits);
    let unit = pow2(125) as int;
    let threshold = 0x99_999A * unit;
    lemma_pow2_pos(125);
    assert(exponent_field(THRESHOLD_BITS) == 126);
    assert(fraction_field(THRESHOLD_BITS) == 0x19_999A);
    assert(number(THRESHOLD_BITS) == threshold);
    assert(threshold >= 0x99_999A) by {
        lemma_mul_left_inequality(0x99_999A, 1, unit);
    }
    if bits >= 0x8000_0000 {
        if exponent != 0 {
            lemma_pow2_pos((exponent - 1) as nat);
            lemma_mul_inequality(0, pow2((exponent - 1) as nat) as int, 0x80_0000 + fraction);
        }
        assert(magnitude(bits) >= 0);
    } else if exponent == 0 {
        assert(bits < THRESHOLD_BITS);
    } else if exponent < 126 {
        let scale = pow2((exponent - 1) as nat) as int;
        let below = pow2(124) as int;
        if exponent - 1 < 124 {
            lemma_pow2_strictly_increases((exponent - 1) as nat, 124);
        }
        lemma_pow2_unfold(125);
        assert(unit == 2 * below);
        lemma_pow2_pos((exponent - 1) as nat);
        lemma_mul_strict_inequality(0x80_0000 + fraction, 0x100_0000, scale);
        lemma_mul_left_inequality(0x100_0000, scale, below);
        assert(magnitude(bits) < 0x100_0000 * below);
        assert(0x100_0000 * below == 0x80_0000 * unit);
        lemma_mul_inequality(0x80_0000, 0x99_999A, unit);
        assert(bits < THRESHOLD_BITS);
    } else if exponent == 126 {
        assert(magnitude(bits) == (0x80_0000 + fraction) * unit);
        if 0x80_0000 + fraction > 0x99_999A {
            lemma_mul_strict_inequality(0x99_999A, 0x80_0000 + fraction, unit);
        } else {
            lemma_mul_inequality(0x80_0000 + fraction, 0x99_999A, unit);
        }
        assert(bits == 126 * 0x80_0000 + fraction);
    } else {
        let scale = pow2((exponent - 1) as nat) as int;
        let above = pow2(126) as int;
        if 126 < exponent - 1 {
            lemma_pow2_strictly_increases(126, (exponent - 1) as nat);
        }
        lemma_pow2_unfold(126);
        assert(above == 2 * unit);
        lemma_mul_inequality(0x80_0000, 0x80_0000 + fraction, scale);
        lemma_mul_left_inequality(0x80_0000, above, scale);
        assert(magnitude(bits) >= 0x80_0000 * above);
        assert(0x80_0000 * above == 0x100_0000 * unit);
        lemma_mul_strict_inequality(0x99_999A, 0x100_0000, unit);
        assert(bits >= 127 * 0x80_0000);
    }
}

/// Tests whether the number with bit pattern `bits` is greater than the
/// threshold.
pub fn exceeds_threshold(bits: u32) -> (above: bool)
    ensures
        above == above_threshold(bits),
{
    proof {
        lemma_patterns_above_threshold(bits);
    }
    THRESHOLD_BITS < bits && bits <= INFINITY_BITS
}

/// Maps a prediction to a drive command.
pub fn arbitrate(prediction: PredictionPair) -> (command: DriveCommand)
    ensures
        command == arbitration(prediction),
        above_threshold(prediction.left) ==> command == DriveCommand::TurnLeft,
        !above_threshold(prediction.left) && above_threshold(prediction.right) ==> command
            == DriveCommand::TurnRight,
        !above_threshold(prediction.left) && !above_threshold(prediction.right) ==> command
            == DriveCommand::Stop,
        command != DriveCommand::Forward,
        command != DriveCommand::Backward,
{
    if exceeds_threshold(prediction.left) {
        DriveCommand::TurnLeft
    } else if exceeds_threshold(prediction.right) {
        DriveCommand::TurnRight
    } else {
        DriveCommand::Stop
    }
}

} // verus!
