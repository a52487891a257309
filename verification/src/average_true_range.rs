//! Average true range: the exponential average of the true range.

use crate::bar::Bar;
use crate::exponential_moving_average::{smooth, ExponentialMovingAverage};
use crate::label::{decimal, label_text, period_label};
use crate::true_range::{true_range, TrueRange};
use vstd::prelude::*;

verus! {

/// What an average true range remembers.
pub struct RangeState {
    /// The close of the previous observation.
    pub previous_close: Option<i64>,
    /// The average of the true ranges so far.
    pub average: Option<i64>,
}

/// Average true range of period `N`.
#[derive(Debug, Clone)]
pub struct AverageTrueRange<const N: usize> {
    true_range: TrueRange,
    ema: ExponentialMovingAverage<N>,
}

impl<const N: usize> View for AverageTrueRange<N> {
    type V = RangeState;

    closed spec fn view(&self) -> RangeState {
        RangeState { previous_close: self.true_range@, average: self.ema@ }
    }
}

impl<const N: usize> AverageTrueRange<N> {
    /// The average is well formed.
    pub closed spec fn wf(&self) -> bool {
        &&& N >= 1
        &&& self.ema.wf()
    }

    /// An average that has seen nothing yet.
    pub fn new() -> (atr: Self)
        requires
            N >= 1,
        ensures
            atr.wf(),
            atr@ == (RangeState { previous_close: None, average: None }),
    {
        AverageTrueRange { true_range: TrueRange::new(), ema: ExponentialMovingAverage::new() }
    }

    /// The period.
    pub fn period(&self) -> (n: usize)
        ensures
            n == N,
    {
        N
    }

    /// Takes an observation whose prices are all `input` and returns
    /// the new average of the true range.
    pub fn next(&mut self, input: i64) -> (out: i64)
        requires
            old(self).wf(),
        ensures
            final(self).wf(),
            out == smooth(
                old(self)@.average,
                true_range(old(self)@.previous_close, input as int, input as int),
                N as int,
            ),
            final(self)@ == (RangeState { previous_close: Some(input), average: Some(out) }),
    {
        let range: i64 = self.true_range.next(input);
        self.ema.next(range)
    }

    /// Takes `bar` and returns the new average of the true range.
    pub fn next_bar(&mut self, bar: &Bar) -> (out: i64)
        requires
            old(self).wf(),
        ensures
            final(self).wf(),
            out == smooth(
                old(self)@.average,
                true_range(old(self)@.previous_close, bar.high as int, bar.low as int),
                N as int,
            ),
            final(self)@ == (RangeState { previous_close: Some(bar.close), average: Some(out) }),
    {
        let range: i64 = self.true_range.next_bar(bar);
        self.ema.next(range)
    }

    /// Forgets every observation: the average is as `new` made it.
    pub fn reset(&mut self)
        requires
            old(self).wf(),
        ensures
            final(self).wf(),
            final(self)@ == (RangeState { previous_close: None, average: None }),
    {
        self.true_range.reset();
        self.ema.reset();
    }

    /// The label `ATR(N)`.
    pub fn label(&self) -> (s: String)
        ensures
            s@ == label_text("ATR"@, seq![decimal(N as nat)]),
    {
        period_label("ATR", N)
    }
}

impl Default for AverageTrueRange<14> {
    /// An average of period fourteen.
    fn default() -> (atr: Self)
        ensures
            atr.wf(),
            atr@ == (RangeState { previous_close: None, average: None }),
    {
        AverageTrueRange::new()
    }
}

} // verus!
