//! Commodity channel index: how far the typical price lies from its
//! moving average, in units of 1.5 % of the mean absolute deviation.

use crate::bar::{typical_price_spec, Bar};
use crate::fixed::{clamp, ratio, scaled_ratio};
use crate::label::{decimal, label_text, period_label};
use crate::mean_absolute_deviation::MeanAbsoluteDeviation;
use crate::series::{mean, mean_absolute_deviation};
use crate::simple_moving_average::SimpleMovingAverage;
use crate::window::slide;
use vstd::prelude::*;

verus! {

/// A thousand times the raw value of one: with the divisor fifteen it
/// stands for the customary constant 0.015.
pub const THOUSAND: i64 = 1_000_000_000;

/// The index read off a typical price, its average and a deviation: the
/// distance from the average over 0.015 times the deviation, and zero
/// where the deviation is zero.
pub open spec fn channel_index(typical_price: int, average: int, deviation: int) -> int {
    if deviation == 0 {
        0
    } else {
        clamp(ratio(typical_price - average, 15 * deviation, THOUSAND as int))
    }
}

/// What a commodity channel index remembers.
pub struct ChannelState {
    /// The window of typical prices, oldest first.
    pub typical_prices: Seq<i64>,
    /// The window of closes, oldest first.
    pub closes: Seq<i64>,
}

/// Commodity channel index over a window of `N` observations.
///
/// The average is taken of the typical prices, the deviation of the
/// closes.
#[derive(Debug, Clone)]
pub struct CommodityChannelIndex<const N: usize> {
    sma: SimpleMovingAverage<N>,
    mad: MeanAbsoluteDeviation<N>,
}

impl<const N: usize> View for CommodityChannelIndex<N> {
    type V = ChannelState;

    closed spec fn view(&self) -> ChannelState {
        ChannelState { typical_prices: self.sma@, closes: self.mad@ }
    }
}

impl<const N: usize> CommodityChannelIndex<N> {
    /// Both parts are well formed.
    pub closed spec fn wf(&self) -> bool {
        &&& N >= 1
        &&& self.sma.wf()
        &&& self.mad.wf()
    }

    /// An index that has seen nothing yet.
    pub fn new() -> (cci: Self)
        requires
            N >= 1,
        ensures
            cci.wf(),
            cci@ == (ChannelState {
                typical_prices: Seq::<i64>::empty(),
                closes: Seq::<i64>::empty(),
            }),
    {
        CommodityChannelIndex { sma: SimpleMovingAverage::new(), mad: MeanAbsoluteDeviation::new() }
    }

    /// The window size.
    pub fn period(&self) -> (n: usize)
        ensures
            n == N,
    {
        self.sma.period()
    }

    /// Takes `bar` and returns the index.
    pub fn next(&mut self, bar: &Bar) -> (out: i64)
        requires
            old(self).wf(),
        ensures
            final(self).wf(),
            final(self)@.typical_prices == slide(
                old(self)@.typical_prices,
                typical_price_spec(*bar) as i64,
                N as nat,
            ),
            final(self)@.closes == slide(old(self)@.closes, bar.close, N as nat),
            out == channel_index(
                typical_price_spec(*bar),
                mean(final(self)@.typical_prices),
                mean_absolute_deviation(final(self)@.closes),
            ),
    {
        let tp: i64 = bar.typical_price();
        let sma: i64 = self.sma.next(tp);
        let mad: i64 = self.mad.next(bar.close);
        if mad == 0 {
            return 0;
        }
        scaled_ratio(tp as i128 - sma as i128, 15 * (mad as i128), THOUSAND as i128)
    }

    /// Forgets every observation: the index is as `new` made it.
    pub fn reset(&mut self)
        requires
            old(self).wf(),
        ensures
            final(self).wf(),
            final(self)@ == (ChannelState {
                typical_prices: Seq::<i64>::empty(),
                closes: Seq::<i64>::empty(),
            }),
    {
        self.sma.reset();
        self.mad.reset();
    }

    /// The label `CCI(N)`.
    pub fn label(&self) -> (s: String)
        ensures
            s@ == label_text("CCI"@, seq![decimal(N as nat)]),
    {
        period_label("CCI", N)
    }
}

impl Default for CommodityChannelIndex<20> {
    /// An index over twenty observations.
    fn default() -> (cci: Self)
        ensures
            cci.wf(),
            cci@ == (ChannelState {
                typical_prices: Seq::<i64>::empty(),
                closes: Seq::<i64>::empty(),
            }),
    {
        CommodityChannelIndex::new()
    }
}

} // verus!
