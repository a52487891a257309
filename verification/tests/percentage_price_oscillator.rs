use ta::fixed::SCALE;
use ta::PercentagePriceOscillator;

type Ppo<const FAST: usize, const SLOW: usize, const SIGNAL: usize> =
    PercentagePriceOscillator<FAST, SLOW, SIGNAL>;

fn fx(x: f64) -> i64 {
    (x * SCALE as f64).round() as i64
}

fn to_float(raw: i64) -> f64 {
    raw as f64 / SCALE as f64
}

fn round(nums: (i64, i64, i64)) -> (f64, f64, f64) {
    let n0 = (to_float(nums.0) * 100.0).round() / 100.0;
    let n1 = (to_float(nums.1) * 100.0).round() / 100.0;
    let n2 = (to_float(nums.2) * 100.0).round() / 100.0;
    (n0, n1, n2)
}

#[test]
fn percentage_price_oscillator_test_next() {
    let mut ppo = Ppo::<3, 6, 4>::new();

    assert_eq!(round(ppo.next(fx(2.0)).into_tuple()), (0.0, 0.0, 0.0));
    assert_eq!(round(ppo.next(fx(3.0)).into_tuple()), (9.38, 3.75, 5.63));
    assert_eq!(round(ppo.next(fx(4.2)).into_tuple()), (18.26, 9.56, 8.71));
    assert_eq!(round(ppo.next(fx(7.0)).into_tuple()), (28.62, 17.18, 11.44));
    assert_eq!(round(ppo.next(fx(6.7)).into_tuple()), (24.01, 19.91, 4.09));
    assert_eq!(round(ppo.next(fx(6.5)).into_tuple()), (17.84, 19.08, -1.24));
}

#[test]
fn percentage_price_oscillator_test_reset() {
    let mut ppo = Ppo::<3, 6, 4>::new();

    assert_eq!(round(ppo.next(fx(2.0)).into_tuple()), (0.0, 0.0, 0.0));
    assert_eq!(round(ppo.next(fx(3.0)).into_tuple()), (9.38, 3.75, 5.63));

    ppo.reset();

    assert_eq!(round(ppo.next(fx(2.0)).into_tuple()), (0.0, 0.0, 0.0));
    assert_eq!(round(ppo.next(fx(3.0)).into_tuple()), (9.38, 3.75, 5.63));
}

#[test]
fn percentage_price_oscillator_test_default() {
    Ppo::default();
}

#[test]
fn percentage_price_oscillator_test_display() {
    let indicator = Ppo::<13, 30, 10>::new();
    assert_eq!(indicator.label(), "PPO(13, 30, 10)");
}

#[test]
fn percentage_price_oscillator_is_zero_where_the_slow_average_is_zero() {
    let mut ppo = Ppo::<1, 2, 1>::new();
    assert_eq!(ppo.next(0).into_tuple(), (0, 0, 0));
    let out = ppo.next(fx(3.0));
    // fast 3, slow 2: fifty percent above
    assert_eq!(out.into_tuple(), (50 * SCALE, 50 * SCALE, 0));
    let out = ppo.next(fx(-7.0));
    // fast -7, slow 2 + round(2 * -9 / 3) = -4: seventy-five percent
    assert_eq!(out.into_tuple(), (75 * SCALE, 75 * SCALE, 0));
}
