//! One market observation.

use crate::fixed::{div_round, lemma_round_div_bounds, round_div};
use vstd::prelude::*;

verus! {

/// The prices and the volume of one period, as fixed-point values.
#[derive(Debug, Clone, Copy, PartialEq, Eq, Structural)]
pub struct Bar {
    /// The first price of the period.
    pub open: i64,
    /// The highest price of the period.
    pub high: i64,
    /// The lowest price of the period.
    pub low: i64,
    /// The last price of the period.
    pub close: i64,
    /// The amount traded during the period.
    pub volume: i64,
}

/// The mean of the high, the low and the close, rounded to the nearest
/// raw unit.
pub open spec fn typical_price_spec(bar: Bar) -> int {
    round_div(bar.close + bar.high + bar.low, 3)
}

impl Bar {
    /// An observation whose fields are all zero.
    pub fn new() -> (bar: Bar)
        ensures
            bar == (Bar { open: 0, high: 0, low: 0, close: 0, volume: 0 }),
    {
        Bar { open: 0, high: 0, low: 0, close: 0, volume: 0 }
    }

    /// The same observation with the open set to `value`.
    pub fn open(self, value: i64) -> (bar: Bar)
        ensures
            bar == (Bar { open: value, ..self }),
    {
        Bar { open: value, ..self }
    }

    /// The same observation with the high set to `value`.
    pub fn high(self, value: i64) -> (bar: Bar)
        ensures
            bar == (Bar { high: value, ..self }),
    {
        Bar { high: value, ..self }
    }

    /// The same observation with the low set to `value`.
    pub fn low(self, value: i64) -> (bar: Bar)
        ensures
            bar == (Bar { low: value, ..self }),
    {
        Bar { low: value, ..self }
    }

    /// The same observation with the close set to `value`.
    pub fn close(self, value: i64) -> (bar: Bar)
        ensures
            bar == (Bar { close: value, ..self }),
    {
        Bar { close: value, ..self }
    }

    /// The same observation with the volume set to `value`.
    pub fn volume(self, value: i64) -> (bar: Bar)
        ensures
            bar == (Bar { volume: value, ..self }),
    {
        Bar { volume: value, ..self }
    }

    /// The mean of the high, the low and the close.
    pub fn typical_price(&self) -> (tp: i64)
        ensures
            tp == typical_price_spec(*self),
    {
        let total: i128 = self.close as i128 + self.high as i128 + self.low as i128;
        proof {
            lemma_round_div_bounds(total as int, 3, i64::MIN as int, i64::MAX as int);
        }
        div_round(total, 3) as i64
    }
}

} // verus!
