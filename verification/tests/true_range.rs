use ta::{Bar, TrueRange};

fn bar(high: i64, low: i64, close: i64) -> Bar {
    Bar::new().high(high).low(low).close(close)
}

#[test]
fn true_range_of_the_first_observation_is_high_less_low() {
    let mut tr = TrueRange::new();
    assert_eq!(tr.next_bar(&bar(10, 7, 9)), 3);
    let mut tr = TrueRange::new();
    assert_eq!(tr.next_bar(&bar(7, 10, 9)), -3);
}

#[test]
fn true_range_reaches_to_the_previous_close() {
    let mut tr = TrueRange::new();
    tr.next_bar(&bar(10, 7, 9));
    assert_eq!(tr.next_bar(&bar(11, 9, 10)), 2);
    assert_eq!(tr.next_bar(&bar(20, 18, 19)), 10);
    assert_eq!(tr.next_bar(&bar(5, 4, 4)), 15);
    assert_eq!(tr.next_bar(&bar(6, 1, 2)), 5);
}

#[test]
fn true_range_of_scalars_is_the_distance_from_the_previous() {
    let mut tr = TrueRange::new();
    assert_eq!(tr.next(5), 0);
    assert_eq!(tr.next(9), 4);
    assert_eq!(tr.next(2), 7);
    tr.reset();
    assert_eq!(tr.next(100), 0);
}

#[test]
fn true_range_saturates() {
    let mut tr = TrueRange::new();
    assert_eq!(tr.next_bar(&bar(i64::MAX, i64::MIN, 0)), i64::MAX);
    assert_eq!(tr.next_bar(&bar(i64::MIN, i64::MAX, 0)), i64::MAX);
    let mut tr = TrueRange::new();
    assert_eq!(tr.next_bar(&bar(i64::MIN, i64::MAX, 0)), i64::MIN);
}

#[test]
fn bar_typical_price_is_the_rounded_mean_of_three() {
    assert_eq!(bar(3, 1, 2).typical_price(), 2);
    assert_eq!(bar(3, 1, 1).typical_price(), 2);
    assert_eq!(bar(2, 1, 1).typical_price(), 1);
    assert_eq!(bar(-2, -1, -1).typical_price(), -1);
    assert_eq!(bar(0, 0, -1).typical_price(), 0);
    assert_eq!(bar(i64::MAX, i64::MAX, i64::MAX).typical_price(), i64::MAX);
    assert_eq!(bar(i64::MIN, i64::MIN, i64::MIN).typical_price(), i64::MIN);
    let b = Bar::new().open(1).high(2).low(3).close(4).volume(5);
    assert_eq!((b.open, b.high, b.low, b.close, b.volume), (1, 2, 3, 4, 5));
}
