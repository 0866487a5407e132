use openbci::collector::{csv_file_name, decimal_text, metadata_file_name, two_digit_text};

#[test]
fn decimal_numerals() {
    assert_eq!(decimal_text(0), "0");
    assert_eq!(decimal_text(7), "7");
    assert_eq!(decimal_text(10), "10");
    assert_eq!(decimal_text(99), "99");
    assert_eq!(decimal_text(100), "100");
    assert_eq!(decimal_text(1234567890), "1234567890");
    assert_eq!(decimal_text(u32::MAX), "4294967295");
    for number in (0..200_000u32).step_by(37) {
        assert_eq!(decimal_text(number), format!("{}", number));
    }
}

#[test]
fn two_digit_numerals() {
    assert_eq!(two_digit_text(0), "00");
    assert_eq!(two_digit_text(1), "01");
    assert_eq!(two_digit_text(9), "09");
    assert_eq!(two_digit_text(10), "10");
    assert_eq!(two_digit_text(42), "42");
    assert_eq!(two_digit_text(100), "100");
    assert_eq!(two_digit_text(u32::MAX), "4294967295");
    for number in (0..20_000u32).step_by(7) {
        assert_eq!(two_digit_text(number), format!("{:02}", number));
    }
}

#[test]
fn sample_file_name() {
    assert_eq!(
        csv_file_name("S01", "left_hand", "session_01", 1, 0, "20250128_143022"),
        "S01_left_hand_session_01_trial_01_class_0_20250128_143022.csv"
    );
    assert_eq!(
        csv_file_name("S12", "rest", "s2", 123, 3, "t"),
        "S12_rest_s2_trial_123_class_3_t.csv"
    );
    assert_eq!(csv_file_name("", "", "", 0, 255, ""), "___trial_00_class_255_.csv");
    assert_eq!(
        csv_file_name("a", "b", "c", 7, 2, "d"),
        format!("{}_{}_{}_trial_{:02}_class_{}_{}.csv", "a", "b", "c", 7, 2, "d")
    );
}

#[test]
fn metadata_file_name_of_a_trial() {
    assert_eq!(
        metadata_file_name("S01", "left_hand", 1, 0),
        "S01_left_hand_trial_01_class_0_metadata.json"
    );
    assert_eq!(metadata_file_name("S01", "both", 10, 2), "S01_both_trial_10_class_2_metadata.json");
    assert_eq!(
        metadata_file_name("x", "y", 4000, 17),
        format!("{}_{}_trial_{:02}_class_{}_metadata.json", "x", "y", 4000, 17)
    );
}
