use ta::fixed::{
    distance, div_round, div_round_unsigned, mul_fixed, percent_change, saturate, saturate_unsigned,
    scaled_ratio, FIFTY, HUNDRED, SCALE,
};

#[test]
fn fixed_constants_are_millionths() {
    assert_eq!(SCALE, 1_000_000);
    assert_eq!(HUNDRED, 100 * SCALE);
    assert_eq!(FIFTY, 50 * SCALE);
}

#[test]
fn fixed_div_round_goes_to_the_nearest_and_up_on_a_tie() {
    assert_eq!(div_round(7, 2), 4);
    assert_eq!(div_round(-7, 2), -3);
    assert_eq!(div_round(5, 3), 2);
    assert_eq!(div_round(4, 3), 1);
    assert_eq!(div_round(-4, 3), -1);
    assert_eq!(div_round(-5, 3), -2);
    assert_eq!(div_round(-1, 2), 0);
    assert_eq!(div_round(1, 2), 1);
    assert_eq!(div_round(0, 9), 0);
    assert_eq!(div_round(12, 4), 3);
    assert_eq!(div_round(-12, 4), -3);
}

#[test]
fn fixed_div_round_at_the_ends_of_the_range() {
    assert_eq!(div_round(i128::MAX, 1), i128::MAX);
    assert_eq!(div_round(i128::MIN, 1), i128::MIN);
    assert_eq!(div_round(i128::MAX, i128::MAX), 1);
    assert_eq!(div_round(i128::MIN, i128::MAX), -1);
    assert_eq!(div_round(i128::MIN, 2), i128::MIN / 2);
    assert_eq!(div_round(i128::MAX, 2), i128::MAX / 2 + 1);
    assert_eq!(div_round_unsigned(u128::MAX, 1), u128::MAX);
    assert_eq!(div_round_unsigned(u128::MAX, 2), u128::MAX / 2 + 1);
    assert_eq!(div_round_unsigned(u128::MAX, u128::MAX), 1);
    assert_eq!(div_round_unsigned(9, 2), 5);
    assert_eq!(div_round_unsigned(8, 3), 3);
}

#[test]
fn fixed_saturate_clamps() {
    assert_eq!(saturate(5), 5);
    assert_eq!(saturate(i64::MAX as i128 + 1), i64::MAX);
    assert_eq!(saturate(i64::MIN as i128 - 1), i64::MIN);
    assert_eq!(saturate(i128::MAX), i64::MAX);
    assert_eq!(saturate(i128::MIN), i64::MIN);
    assert_eq!(saturate_unsigned(5), 5);
    assert_eq!(saturate_unsigned(i64::MAX as u128), i64::MAX);
    assert_eq!(saturate_unsigned(i64::MAX as u128 + 1), i64::MAX);
}

#[test]
fn fixed_distance_is_the_absolute_difference() {
    assert_eq!(distance(3, 10), 7);
    assert_eq!(distance(10, 3), 7);
    assert_eq!(distance(i64::MAX, i64::MIN), u64::MAX as u128);
    assert_eq!(distance(i64::MIN, i64::MAX), u64::MAX as u128);
    assert_eq!(distance(-4, -4), 0);
}

#[test]
fn fixed_mul_fixed_multiplies_units() {
    assert_eq!(mul_fixed(2_500_000, 4_000_000), 10_000_000);
    assert_eq!(mul_fixed(-2_500_000, 4_000_000), -10_000_000);
    assert_eq!(mul_fixed(1, 1), 0);
    assert_eq!(mul_fixed(1, 500_000), 1);
    assert_eq!(mul_fixed(-1, 500_000), 0);
    assert_eq!(mul_fixed(i64::MAX, i64::MAX), i64::MAX);
    assert_eq!(mul_fixed(i64::MAX, i64::MIN), i64::MIN);
    assert_eq!(mul_fixed(i64::MIN, i64::MIN), i64::MAX);
}

#[test]
fn fixed_scaled_ratio_takes_either_sign_of_denominator() {
    assert_eq!(scaled_ratio(1, 4, 100), 25);
    assert_eq!(scaled_ratio(1, -4, 100), -25);
    assert_eq!(scaled_ratio(-1, -4, 100), 25);
    assert_eq!(scaled_ratio(1, 8, 100), 13);
    assert_eq!(scaled_ratio(1, -8, 100), -12);
    assert_eq!(scaled_ratio(i64::MAX as i128, 1, 1_000), i64::MAX);
    assert_eq!(scaled_ratio(i64::MAX as i128, -1, 1_000), i64::MIN);
}

#[test]
fn fixed_percent_change_against_a_base() {
    assert_eq!(percent_change(110 * SCALE, 100 * SCALE), 10 * SCALE);
    assert_eq!(percent_change(90 * SCALE, 100 * SCALE), -10 * SCALE);
    assert_eq!(percent_change(5, 0), 0);
    assert_eq!(percent_change(0, 0), 0);
    assert_eq!(percent_change(-3 * SCALE, -2 * SCALE), 50 * SCALE);
    assert_eq!(percent_change(i64::MAX, 1), i64::MAX);
    assert_eq!(percent_change(i64::MIN, 1), i64::MIN);
}
