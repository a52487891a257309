use ta::fixed::SCALE;
use ta::{Bar, ExponentialMovingAverage};

fn fx(x: f64) -> i64 {
    (x * SCALE as f64).round() as i64
}

fn to_float(raw: i64) -> f64 {
    raw as f64 / SCALE as f64
}

#[test]
fn exponential_moving_average_test_next() {
    let mut ema = ExponentialMovingAverage::<3>::new();

    assert_eq!(to_float(ema.next(fx(2.0))), 2.0);
    assert_eq!(to_float(ema.next(fx(5.0))), 3.5);
    assert_eq!(to_float(ema.next(fx(1.0))), 2.25);
    assert_eq!(to_float(ema.next(fx(6.25))), 4.25);

    let mut ema = ExponentialMovingAverage::<3>::new();
    let bar1 = Bar::new().close(fx(2.0));
    let bar2 = Bar::new().close(fx(5.0));
    assert_eq!(to_float(ema.next(bar1.close)), 2.0);
    assert_eq!(to_float(ema.next(bar2.close)), 3.5);
}

#[test]
fn exponential_moving_average_test_reset() {
    let mut ema = ExponentialMovingAverage::<5>::new();

    assert_eq!(to_float(ema.next(fx(4.0))), 4.0);
    ema.next(fx(10.0));
    ema.next(fx(15.0));
    ema.next(fx(20.0));
    assert_ne!(to_float(ema.next(fx(4.0))), 4.0);

    ema.reset();
    assert_eq!(to_float(ema.next(fx(4.0))), 4.0);
}

#[test]
fn exponential_moving_average_test_default() {
    ExponentialMovingAverage::default();
}

#[test]
fn exponential_moving_average_test_display() {
    let ema = ExponentialMovingAverage::<7>::new();
    assert_eq!(ema.label(), "EMA(7)");
}

#[test]
fn exponential_moving_average_first_output_is_first_input() {
    for x in [i64::MIN, -1, 0, 1, 123_456_789, i64::MAX] {
        let mut ema = ExponentialMovingAverage::<9>::new();
        assert_eq!(ema.next(x), x);
    }
}

#[test]
fn exponential_moving_average_settles_on_a_constant_input() {
    let mut ema = ExponentialMovingAverage::<9>::new();
    ema.next(fx(100.0));
    let target = fx(40.0);
    let mut previous = (fx(100.0) - target).abs();
    let mut reached = false;
    for _ in 0..400 {
        let out = ema.next(target);
        let gap = (out - target).abs();
        assert!(gap <= previous);
        assert!(out >= target);
        if reached {
            assert_eq!(out, target);
        }
        reached = out == target;
        previous = gap;
    }
    assert!(4 * previous <= 10);
}

#[test]
fn exponential_moving_average_rounds_a_tie_up() {
    let mut ema = ExponentialMovingAverage::<3>::new();
    assert_eq!(ema.next(0), 0);
    assert_eq!(ema.next(1), 1);
    let mut ema = ExponentialMovingAverage::<3>::new();
    assert_eq!(ema.next(0), 0);
    assert_eq!(ema.next(-1), 0);
    assert_eq!(ema.period(), 3);
}

#[test]
fn exponential_moving_average_of_period_one_follows_the_input() {
    let mut ema = ExponentialMovingAverage::<1>::new();
    assert_eq!(ema.next(i64::MAX), i64::MAX);
    assert_eq!(ema.next(i64::MIN), i64::MIN);
    assert_eq!(ema.next(7), 7);
}
