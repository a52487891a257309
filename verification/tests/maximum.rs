use ta::fixed::SCALE;
use ta::{Bar, Maximum};

fn fx(x: f64) -> i64 {
    (x * SCALE as f64).round() as i64
}

fn to_float(raw: i64) -> f64 {
    raw as f64 / SCALE as f64
}

#[test]
fn maximum_test_next() {
    let mut max = Maximum::<3>::new();

    assert_eq!(to_float(max.next(fx(4.0))), 4.0);
    assert_eq!(to_float(max.next(fx(1.2))), 4.0);
    assert_eq!(to_float(max.next(fx(5.0))), 5.0);
    assert_eq!(to_float(max.next(fx(3.0))), 5.0);
    assert_eq!(to_float(max.next(fx(4.0))), 5.0);
    assert_eq!(to_float(max.next(fx(0.0))), 4.0);
    assert_eq!(to_float(max.next(fx(-1.0))), 4.0);
    assert_eq!(to_float(max.next(fx(-2.0))), 0.0);
    assert_eq!(to_float(max.next(fx(-1.5))), -1.0);
}

#[test]
fn maximum_test_next_with_bars() {
    fn bar(high: f64) -> Bar {
        Bar::new().high(fx(high))
    }

    let mut max = Maximum::<2>::new();

    assert_eq!(to_float(max.next(bar(1.1).high)), 1.1);
    assert_eq!(to_float(max.next(bar(4.0).high)), 4.0);
    assert_eq!(to_float(max.next(bar(3.5).high)), 4.0);
    assert_eq!(to_float(max.next(bar(2.0).high)), 3.5);
}

#[test]
fn maximum_test_reset() {
    let mut max = Maximum::<100>::new();
    assert_eq!(to_float(max.next(fx(4.0))), 4.0);
    assert_eq!(to_float(max.next(fx(10.0))), 10.0);
    assert_eq!(to_float(max.next(fx(4.0))), 10.0);

    max.reset();
    assert_eq!(to_float(max.next(fx(4.0))), 4.0);
}

#[test]
fn maximum_test_default() {
    Maximum::default();
}

#[test]
fn maximum_test_display() {
    let indicator = Maximum::<7>::new();
    assert_eq!(indicator.label(), "MAX(7)");
}

#[test]
fn maximum_of_a_fresh_tracker_is_the_first_value_even_if_negative() {
    let mut max = Maximum::<4>::new();
    assert_eq!(to_float(max.next(fx(-5.0))), -5.0);
    let mut max = Maximum::<4>::new();
    assert_eq!(max.next(i64::MIN), i64::MIN);
    assert_eq!(max.next(i64::MIN), i64::MIN);
    assert_eq!(max.period(), 4);
}

#[test]
fn maximum_is_the_greatest_of_the_window_on_every_tick() {
    let stream: Vec<i64> = vec![5, 3, 9, 9, 2, 1, 0, 7, 7, 7, -4, -8, -6, 12, 11, 10, 9, 8];
    let mut max = Maximum::<4>::new();
    for k in 0..stream.len() {
        let out = max.next(stream[k]);
        let from = if k + 1 > 4 { k + 1 - 4 } else { 0 };
        let expected = *stream[from..=k].iter().max().unwrap();
        assert_eq!(out, expected);
    }
}
