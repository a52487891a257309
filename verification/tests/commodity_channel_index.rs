use ta::fixed::SCALE;
use ta::{Bar, CommodityChannelIndex};

fn fx(x: f64) -> i64 {
    (x * SCALE as f64).round() as i64
}

fn to_float(raw: i64) -> f64 {
    raw as f64 / SCALE as f64
}

fn round(raw: i64) -> f64 {
    (to_float(raw) * 1000.0).round() / 1000.0
}

fn bar(high: f64, low: f64, close: f64) -> Bar {
    Bar::new().high(fx(high)).low(fx(low)).close(fx(close))
}

#[test]
fn commodity_channel_index_test_next_bar() {
    let mut cci = CommodityChannelIndex::<5>::new();

    let bar1 = bar(2.0, 1.0, 1.5);
    assert_eq!(round(cci.next(&bar1)), 0.0);

    let bar2 = bar(5.0, 3.0, 4.0);
    assert_eq!(round(cci.next(&bar2)), 66.667);

    let bar3 = bar(9.0, 7.0, 8.0);
    assert_eq!(round(cci.next(&bar3)), 100.0);

    let bar4 = bar(5.0, 3.0, 4.0);
    assert_eq!(round(cci.next(&bar4)), -13.793);

    let bar5 = bar(5.0, 3.0, 4.0);
    assert_eq!(round(cci.next(&bar5)), -13.514);

    let bar6 = bar(2.0, 1.0, 1.5);
    assert_eq!(round(cci.next(&bar6)), -126.126);
}

#[test]
fn commodity_channel_index_test_reset() {
    let mut cci = CommodityChannelIndex::<5>::new();

    let bar1 = bar(2.0, 1.0, 1.5);
    let bar2 = bar(5.0, 3.0, 4.0);

    assert_eq!(round(cci.next(&bar1)), 0.0);
    assert_eq!(round(cci.next(&bar2)), 66.667);

    cci.reset();

    assert_eq!(round(cci.next(&bar1)), 0.0);
    assert_eq!(round(cci.next(&bar2)), 66.667);
}

#[test]
fn commodity_channel_index_test_default() {
    CommodityChannelIndex::default();
}

#[test]
fn commodity_channel_index_test_display() {
    let indicator = CommodityChannelIndex::<10>::new();
    assert_eq!(indicator.label(), "CCI(10)");
}

#[test]
fn commodity_channel_index_is_zero_without_deviation() {
    let mut cci = CommodityChannelIndex::<3>::new();
    let flat = bar(7.0, 1.0, 4.0);
    assert_eq!(cci.next(&flat), 0);
    assert_eq!(cci.next(&flat), 0);
    assert_eq!(cci.period(), 3);
}
