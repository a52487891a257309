use ta::fixed::SCALE;
use ta::SimpleMovingAverage;

fn fx(x: f64) -> i64 {
    (x * SCALE as f64).round() as i64
}

fn to_float(raw: i64) -> f64 {
    raw as f64 / SCALE as f64
}

#[test]
fn simple_moving_average_test_next() {
    let mut sma = SimpleMovingAverage::<4>::new();
    assert_eq!(to_float(sma.next(fx(4.0))), 4.0);
    assert_eq!(to_float(sma.next(fx(5.0))), 4.5);
    assert_eq!(to_float(sma.next(fx(6.0))), 5.0);
    assert_eq!(to_float(sma.next(fx(6.0))), 5.25);
    assert_eq!(to_float(sma.next(fx(6.0))), 5.75);
    assert_eq!(to_float(sma.next(fx(6.0))), 6.0);
    assert_eq!(to_float(sma.next(fx(2.0))), 5.0);
}

#[test]
fn simple_moving_average_test_reset() {
    let mut sma = SimpleMovingAverage::<4>::new();
    assert_eq!(to_float(sma.next(fx(4.0))), 4.0);
    assert_eq!(to_float(sma.next(fx(5.0))), 4.5);
    assert_eq!(to_float(sma.next(fx(6.0))), 5.0);

    sma.reset();
    assert_eq!(to_float(sma.next(fx(99.0))), 99.0);
}

#[test]
fn simple_moving_average_test_default() {
    let sma = SimpleMovingAverage::default();
    assert_eq!(sma.period(), 9);
}

#[test]
fn simple_moving_average_test_display() {
    let sma = SimpleMovingAverage::<5>::new();
    assert_eq!(sma.label(), "SMA(5)");
}

#[test]
fn simple_moving_average_test_next_with_bars() {
    fn bar(close: f64) -> ta::Bar {
        ta::Bar::new().close(fx(close))
    }

    let mut sma = SimpleMovingAverage::<3>::new();
    assert_eq!(to_float(sma.next(bar(4.0).close)), 4.0);
    assert_eq!(to_float(sma.next(bar(4.0).close)), 4.0);
    assert_eq!(to_float(sma.next(bar(7.0).close)), 5.0);
    assert_eq!(to_float(sma.next(bar(1.0).close)), 4.0);
}

#[test]
fn simple_moving_average_is_the_mean_of_the_last_values() {
    let stream: Vec<i64> = vec![7, -3, 12, 12, 5, 0, -20, 33, 1, 1, 2, 90, -41];
    let mut sma = SimpleMovingAverage::<4>::new();
    for k in 0..stream.len() {
        let out = sma.next(stream[k] * SCALE);
        if k + 1 >= 4 {
            let total: i64 = stream[k + 1 - 4..=k].iter().sum();
            assert_eq!(out, total * SCALE / 4);
        }
    }
}

#[test]
fn simple_moving_average_rounds_a_tie_up_and_holds_the_extremes() {
    let mut sma = SimpleMovingAverage::<2>::new();
    assert_eq!(sma.next(1), 1);
    assert_eq!(sma.next(2), 2);
    assert_eq!(sma.next(-5), -1);
    assert_eq!(sma.next(-2), -3);
    let mut sma = SimpleMovingAverage::<3>::new();
    assert_eq!(sma.next(i64::MAX), i64::MAX);
    assert_eq!(sma.next(i64::MAX), i64::MAX);
    assert_eq!(sma.next(i64::MAX), i64::MAX);
    assert_eq!(sma.next(i64::MIN), 3074457345618258602);
    assert_eq!(sma.next(i64::MIN), -3074457345618258603);
    assert_eq!(sma.next(i64::MIN), i64::MIN);
}

#[test]
fn simple_moving_average_replays_alike_after_reset() {
    let stream: Vec<i64> = vec![4, 8, 15, 16, 23, 42, -7, 0, 3];
    let mut fresh = SimpleMovingAverage::<3>::new();
    let mut used = SimpleMovingAverage::<3>::new();
    for x in [99, -1, 50, 2, 2] {
        used.next(x);
    }
    used.reset();
    for x in stream {
        assert_eq!(fresh.next(x), used.next(x));
    }
}
