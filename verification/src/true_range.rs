//! True range: the reach of a period's prices, the previous close
//! included.

use crate::bar::Bar;
use crate::fixed::{abs, clamp, saturate};
use vstd::prelude::*;

verus! {

/// The greater of `a` and `b`.
pub open spec fn larger(a: int, b: int) -> int {
    if a >= b {
        a
    } else {
        b
    }
}

/// The true range of a period with the given high and low that follows
/// a period with close `previous_close`: the greatest of the high less
/// the low and the distances of both from the previous close. Without a
/// previous period it is the high less the low.
pub open spec fn true_range(previous_close: Option<i64>, high: int, low: int) -> int {
    match previous_close {
        None => clamp(high - low),
        Some(previous) => clamp(
            larger(larger(high - low, abs(high - previous)), abs(low - previous)),
        ),
    }
}

/// True range of a stream of observations.
///
/// The view is the previous close, if there was a previous observation.
#[derive(Debug, Clone)]
pub struct TrueRange {
    prev_close: Option<i64>,
}

impl View for TrueRange {
    type V = Option<i64>;

    closed spec fn view(&self) -> Option<i64> {
        self.prev_close
    }
}

impl TrueRange {
    /// A tracker that has seen nothing yet.
    pub fn new() -> (tr: Self)
        ensures
            tr@ == None::<i64>,
    {
        TrueRange { prev_close: None }
    }

    /// Takes an observation whose prices are all `input` and returns
    /// its true range: the distance from the previous value, and zero
    /// where there is none.
    pub fn next(&mut self, input: i64) -> (out: i64)
        ensures
            out == true_range(old(self)@, input as int, input as int),
            out == match old(self)@ {
                None => 0,
                Some(previous) => clamp(abs(input - previous)),
            },
            final(self)@ == Some(input),
    {
        let bar: Bar = Bar { open: input, high: input, low: input, close: input, volume: 0 };
        self.next_bar(&bar)
    }

    /// Takes `bar` and returns its true range.
    pub fn next_bar(&mut self, bar: &Bar) -> (out: i64)
        ensures
            out == true_range(old(self)@, bar.high as int, bar.low as int),
            final(self)@ == Some(bar.close),
    {
        let spread: i128 = bar.high as i128 - bar.low as i128;
        let reach: i128 = match self.prev_close {
            None => spread,
            Some(previous) => {
                let above: i128 = bar.high as i128 - previous as i128;
                let above: i128 = if above < 0 {
                    -above
                } else {
                    above
                };
                let below: i128 = bar.low as i128 - previous as i128;
                let below: i128 = if below < 0 {
                    -below
                } else {
                    below
                };
                let wider: i128 = if spread >= above {
                    spread
                } else {
                    above
                };
                if wider >= below {
                    wider
                } else {
                    below
                }
            },
        };
        self.prev_close = Some(bar.close);
        saturate(reach)
    }

    /// Forgets the previous close: the tracker is as `new` made it.
    pub fn reset(&mut self)
        ensures
            final(self)@ == None::<i64>,
    {
        self.prev_close = None;
    }
}

} // verus!
