use ta::fixed::SCALE;
use ta::standard_deviation::isqrt;
use ta::StandardDeviation;

#[test]
fn standard_deviation_isqrt_is_the_floor_of_the_root() {
    assert_eq!(isqrt(0), 0);
    assert_eq!(isqrt(1), 1);
    assert_eq!(isqrt(3), 1);
    assert_eq!(isqrt(4), 2);
    assert_eq!(isqrt(99), 9);
    assert_eq!(isqrt(100), 10);
    assert_eq!(isqrt(2_000_000_000_000), 1_414_213);
    assert_eq!(isqrt(u128::MAX), u64::MAX as u128);
    assert_eq!(isqrt((u64::MAX as u128) * (u64::MAX as u128) - 1), u64::MAX as u128 - 1);
}

#[test]
fn standard_deviation_of_a_window() {
    let mut sd = StandardDeviation::<4>::new();
    assert_eq!(sd.mean(), 0);
    assert_eq!(sd.next(10 * SCALE), 0);
    assert_eq!(sd.mean(), 10 * SCALE);
    assert_eq!(sd.next(20 * SCALE), 5 * SCALE);
    assert_eq!(sd.mean(), 15 * SCALE);
    assert_eq!(sd.next(30 * SCALE), 8_164_965);
    assert_eq!(sd.next(20 * SCALE), 7_071_067);
    assert_eq!(sd.next(20 * SCALE), 4_330_127);
    assert_eq!(sd.mean(), 22_500_000);
    sd.reset();
    assert_eq!(sd.mean(), 0);
    assert_eq!(sd.next(3), 0);
    assert_eq!(sd.label(), "SD(4)");
    assert_eq!(sd.period(), 4);
    StandardDeviation::default();
}

#[test]
fn standard_deviation_at_the_extremes() {
    let mut sd = StandardDeviation::<2>::new();
    assert_eq!(sd.next(i64::MAX), 0);
    assert_eq!(sd.next(i64::MIN), i64::MAX);
    let mut sd = StandardDeviation::<4>::new();
    sd.next(i64::MAX);
    sd.next(i64::MIN);
    assert_eq!(sd.next(i64::MAX), 8695878550221854807);
    // the squares now sum to more than a u128 holds
    assert_eq!(sd.next(i64::MIN), i64::MAX);
}
