use ta::fixed::SCALE;
use ta::{Bar, FastStochastic};

fn fx(x: f64) -> i64 {
    (x * SCALE as f64).round() as i64
}

fn to_float(raw: i64) -> f64 {
    raw as f64 / SCALE as f64
}

#[test]
fn fast_stochastic_test_next_with_f64() {
    let mut stoch = FastStochastic::<3>::new();
    assert_eq!(to_float(stoch.next(fx(0.0))), 50.0);
    assert_eq!(to_float(stoch.next(fx(200.0))), 100.0);
    assert_eq!(to_float(stoch.next(fx(100.0))), 50.0);
    assert_eq!(to_float(stoch.next(fx(120.0))), 20.0);
    assert_eq!(to_float(stoch.next(fx(115.0))), 75.0);
}

#[test]
fn fast_stochastic_test_next_with_bars() {
    let test_data = vec![
        // high, low , close, expected
        (20.0, 20.0, 20.0, 50.0), // min = 20, max = 20
        (30.0, 10.0, 25.0, 75.0), // min = 10, max = 30
        (40.0, 20.0, 16.0, 20.0), // min = 10, max = 40
        (35.0, 15.0, 19.0, 30.0), // min = 10, max = 40
        (30.0, 20.0, 25.0, 40.0), // min = 15, max = 40
        (35.0, 25.0, 30.0, 75.0), // min = 15, max = 35
    ];

    let mut stoch = FastStochastic::<3>::new();

    for (high, low, close, expected) in test_data {
        let input_bar = Bar::new().high(fx(high)).low(fx(low)).close(fx(close));
        assert_eq!(to_float(stoch.next_bar(&input_bar)), expected);
    }
}

#[test]
fn fast_stochastic_test_reset() {
    let mut indicator = FastStochastic::<10>::new();
    assert_eq!(to_float(indicator.next(fx(10.0))), 50.0);
    assert_eq!(to_float(indicator.next(fx(210.0))), 100.0);
    assert_eq!(to_float(indicator.next(fx(10.0))), 0.0);
    assert_eq!(to_float(indicator.next(fx(60.0))), 25.0);

    indicator.reset();
    assert_eq!(to_float(indicator.next(fx(10.0))), 50.0);
    assert_eq!(to_float(indicator.next(fx(20.0))), 100.0);
    assert_eq!(to_float(indicator.next(fx(12.5))), 25.0);
}

#[test]
fn fast_stochastic_test_default() {
    FastStochastic::default();
}

#[test]
fn fast_stochastic_test_display() {
    let indicator = FastStochastic::<21>::new();
    assert_eq!(indicator.label(), "FAST_STOCH(21)");
}

#[test]
fn fast_stochastic_saturates_where_the_close_lies_far_outside() {
    let mut stoch = FastStochastic::<2>::new();
    let inside_out = Bar::new().high(1).low(0).close(i64::MAX);
    assert_eq!(stoch.next_bar(&inside_out), i64::MAX);
    let mut stoch = FastStochastic::<2>::new();
    let upside_down = Bar::new().high(0).low(fx(10.0)).close(fx(5.0));
    assert_eq!(to_float(stoch.next_bar(&upside_down)), 50.0);
    assert_eq!(stoch.period(), 2);
}
