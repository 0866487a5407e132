use openbci::arbiter::{arbitrate, exceeds_threshold, PredictionPair, INFINITY_BITS, THRESHOLD_BITS};
use openbci::drive::DriveCommand;

fn pair(right: f32, left: f32) -> PredictionPair {
    PredictionPair { right: right.to_bits(), left: left.to_bits() }
}

#[test]
fn threshold_constant_is_six_tenths() {
    assert_eq!(THRESHOLD_BITS, 0.6f32.to_bits());
    assert_eq!(INFINITY_BITS, f32::INFINITY.to_bits());
}

#[test]
fn left_above_threshold_turns_left() {
    assert_eq!(arbitrate(pair(0.0, 0.9)), DriveCommand::TurnLeft);
    assert_eq!(arbitrate(pair(0.0, 0.61)), DriveCommand::TurnLeft);
    assert_eq!(arbitrate(pair(0.0, 1.0)), DriveCommand::TurnLeft);
    assert_eq!(arbitrate(pair(0.0, 17.5)), DriveCommand::TurnLeft);
    assert_eq!(arbitrate(pair(0.0, f32::INFINITY)), DriveCommand::TurnLeft);
}

#[test]
fn left_has_priority_over_right() {
    assert_eq!(arbitrate(pair(0.9, 0.9)), DriveCommand::TurnLeft);
    assert_eq!(arbitrate(pair(1.0, 0.7)), DriveCommand::TurnLeft);
    assert_eq!(arbitrate(pair(f32::NAN, 0.7)), DriveCommand::TurnLeft);
    assert_eq!(arbitrate(pair(f32::INFINITY, 0.7)), DriveCommand::TurnLeft);
    assert_eq!(arbitrate(pair(-3.0, 0.7)), DriveCommand::TurnLeft);
}

#[test]
fn right_above_threshold_turns_right() {
    assert_eq!(arbitrate(pair(0.8, 0.1)), DriveCommand::TurnRight);
    assert_eq!(arbitrate(pair(0.61, 0.6)), DriveCommand::TurnRight);
    assert_eq!(arbitrate(pair(2.0, -1.0)), DriveCommand::TurnRight);
    assert_eq!(arbitrate(pair(0.9, f32::NAN)), DriveCommand::TurnRight);
    assert_eq!(arbitrate(pair(0.9, f32::NEG_INFINITY)), DriveCommand::TurnRight);
}

#[test]
fn neither_above_threshold_stops() {
    assert_eq!(arbitrate(pair(0.3, 0.2)), DriveCommand::Stop);
    assert_eq!(arbitrate(pair(0.0, 0.0)), DriveCommand::Stop);
    assert_eq!(arbitrate(pair(0.6, 0.6)), DriveCommand::Stop);
    assert_eq!(arbitrate(pair(-0.9, -0.9)), DriveCommand::Stop);
    assert_eq!(arbitrate(pair(-0.0, -0.0)), DriveCommand::Stop);
    assert_eq!(arbitrate(pair(f32::NEG_INFINITY, f32::NEG_INFINITY)), DriveCommand::Stop);
}

#[test]
fn nan_is_never_above_threshold() {
    assert_eq!(arbitrate(pair(f32::NAN, f32::NAN)), DriveCommand::Stop);
    assert_eq!(arbitrate(pair(0.1, f32::NAN)), DriveCommand::Stop);
    assert_eq!(arbitrate(pair(f32::NAN, 0.1)), DriveCommand::Stop);
    assert_eq!(arbitrate(pair(-f32::NAN, -f32::NAN)), DriveCommand::Stop);
    // every NaN pattern, signalling or quiet, of either sign
    assert!(!exceeds_threshold(0x7F80_0001));
    assert!(!exceeds_threshold(0x7FC0_0000));
    assert!(!exceeds_threshold(0x7FFF_FFFF));
    assert!(!exceeds_threshold(0xFF80_0001));
    assert!(!exceeds_threshold(0xFFFF_FFFF));
}

#[test]
fn threshold_boundary_is_exclusive() {
    let at = 0.6f32.to_bits();
    assert!(!exceeds_threshold(at));
    assert!(exceeds_threshold(at + 1));
    assert!(!exceeds_threshold(at - 1));
    assert_eq!(arbitrate(PredictionPair { right: at, left: at }), DriveCommand::Stop);
    assert_eq!(arbitrate(PredictionPair { right: at, left: at + 1 }), DriveCommand::TurnLeft);
    assert_eq!(arbitrate(PredictionPair { right: at + 1, left: at }), DriveCommand::TurnRight);
}

#[test]
fn bit_pattern_test_agrees_with_comparison_of_numbers() {
    let mut bits: u32 = 0;
    let mut checked: u64 = 0;
    loop {
        let number = f32::from_bits(bits);
        assert_eq!(exceeds_threshold(bits), number > 0.6, "pattern {:#010x}", bits);
        checked += 1;
        match bits.checked_add(4099) {
            Some(next) => bits = next,
            None => break,
        }
    }
    assert!(checked > 1_000_000);
    for bits in (0.6f32.to_bits() - 2000)..(0.6f32.to_bits() + 2000) {
        assert_eq!(exceeds_threshold(bits), f32::from_bits(bits) > 0.6);
    }
    for bits in (0x7F80_0000u32 - 2000)..(0x7F80_0000u32 + 2000) {
        assert_eq!(exceeds_threshold(bits), f32::from_bits(bits) > 0.6);
    }
    for bits in (0x8000_0000u32 - 2000)..(0x8000_0000u32 + 2000) {
        assert_eq!(exceeds_threshold(bits), f32::from_bits(bits) > 0.6);
    }
    for bits in 0xFFFF_F000u32..=0xFFFF_FFFF {
        assert_eq!(exceeds_threshold(bits), f32::from_bits(bits) > 0.6);
    }
}

#[test]
fn arbitration_never_drives_straight() {
    let samples = [-1.0f32, 0.0, 0.3, 0.6, 0.61, 0.9, 1.0, 5.0, f32::NAN, f32::INFINITY];
    for right in samples {
        for left in samples {
            let command = arbitrate(pair(right, left));
            assert_ne!(command, DriveCommand::Forward);
            assert_ne!(command, DriveCommand::Backward);
        }
    }
}
