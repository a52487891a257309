use ta::fixed::SCALE;
use ta::{BollingerBands};

fn fx(x: f64) -> i64 {
    (x * SCALE as f64).round() as i64
}

fn to_float(raw: i64) -> f64 {
    raw as f64 / SCALE as f64
}

fn round(raw: i64) -> f64 {
    (to_float(raw) * 1000.0).round() / 1000.0
}

#[test]
fn bollinger_bands_test_next() {
    let mut bb = BollingerBands::<3>::new(fx(2.0));

    let a = bb.next(fx(2.0));
    let b = bb.next(fx(5.0));
    let c = bb.next(fx(1.0));
    let d = bb.next(fx(6.25));

    assert_eq!(round(a.average), 2.0);
    assert_eq!(round(b.average), 3.5);
    assert_eq!(round(c.average), 2.667);
    assert_eq!(round(d.average), 4.083);

    assert_eq!(round(a.upper), 2.0);
    assert_eq!(round(b.upper), 6.5);
    assert_eq!(round(c.upper), 6.066);
    assert_eq!(round(d.upper), 8.562);

    assert_eq!(round(a.lower), 2.0);
    assert_eq!(round(b.lower), 0.5);
    assert_eq!(round(c.lower), -0.733);
    assert_eq!(round(d.lower), -0.395);
}

#[test]
fn bollinger_bands_test_reset() {
    let mut bb = BollingerBands::<5>::new(fx(2.0));

    let out = bb.next(fx(3.0));

    assert_eq!(to_float(out.average), 3.0);
    assert_eq!(to_float(out.upper), 3.0);
    assert_eq!(to_float(out.lower), 3.0);

    bb.next(fx(2.5));
    bb.next(fx(3.5));
    bb.next(fx(4.0));

    let out = bb.next(fx(2.0));

    assert_eq!(to_float(out.average), 3.0);
    assert_eq!(round(out.upper), 4.414);
    assert_eq!(round(out.lower), 1.586);

    bb.reset();
    let out = bb.next(fx(3.0));
    assert_eq!(to_float(out.average), 3.0);
    assert_eq!(to_float(out.upper), 3.0);
    assert_eq!(to_float(out.lower), 3.0);
}

#[test]
fn bollinger_bands_test_default() {
    BollingerBands::default();
}

#[test]
fn bollinger_bands_test_display() {
    let bb = BollingerBands::<10>::new(fx(3.0));
    assert_eq!(bb.label(), "BB(10, 3)");
}

#[test]
fn bollinger_bands_keep_their_factor() {
    let mut bb = BollingerBands::<4>::new(fx(2.5));
    assert_eq!(bb.multiplier(), 2_500_000);
    bb.next(fx(1.0));
    bb.reset();
    assert_eq!(bb.multiplier(), 2_500_000);
    assert_eq!(bb.period(), 4);
    assert_eq!(bb.label(), "BB(4, 2.5)");
}
