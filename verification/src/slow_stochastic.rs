//! Slow stochastic oscillator: the exponential average of the fast one.

use crate::bar::Bar;
use crate::exponential_moving_average::{smooth, ExponentialMovingAverage};
use crate::fast_stochastic::{position, FastStochastic, StochasticState};
use crate::label::{decimal, decimal_string, label, label_text, texts};
use crate::series::{highest, lowest};
use crate::window::slide;
use vstd::prelude::*;

verus! {

/// What a slow stochastic remembers.
pub struct SlowState {
    /// The two windows of the fast oscillator.
    pub fast: StochasticState,
    /// The average of the fast oscillator's readings.
    pub average: Option<i64>,
}

/// Slow stochastic oscillator: a fast oscillator over `STOCH` values
/// smoothed by an exponential average of period `SMOOTH`.
#[derive(Debug, Clone)]
pub struct SlowStochastic<const STOCH: usize, const SMOOTH: usize> {
    fast_stochastic: FastStochastic<STOCH>,
    ema: ExponentialMovingAverage<SMOOTH>,
}

impl<const STOCH: usize, const SMOOTH: usize> View for SlowStochastic<STOCH, SMOOTH> {
    type V = SlowState;

    closed spec fn view(&self) -> SlowState {
        SlowState { fast: self.fast_stochastic@, average: self.ema@ }
    }
}

impl<const STOCH: usize, const SMOOTH: usize> SlowStochastic<STOCH, SMOOTH> {
    /// Both parts are well formed.
    pub closed spec fn wf(&self) -> bool {
        &&& STOCH >= 1
        &&& SMOOTH >= 1
        &&& self.fast_stochastic.wf()
        &&& self.ema.wf()
    }

    /// An oscillator that has seen nothing yet.
    pub fn new() -> (stoch: Self)
        requires
            STOCH >= 1,
            SMOOTH >= 1,
        ensures
            stoch.wf(),
            stoch@ == (SlowState {
                fast: StochasticState { lows: Seq::<i64>::empty(), highs: Seq::<i64>::empty() },
                average: None,
            }),
    {
        SlowStochastic { fast_stochastic: FastStochastic::new(), ema: ExponentialMovingAverage::new() }
    }

    /// Takes `input` into the fast oscillator and returns the new
    /// average of its readings.
    pub fn next(&mut self, input: i64) -> (out: i64)
        requires
            old(self).wf(),
        ensures
            final(self).wf(),
            final(self)@.fast.lows == slide(old(self)@.fast.lows, input, STOCH as nat),
            final(self)@.fast.highs == slide(old(self)@.fast.highs, input, STOCH as nat),
            final(self)@.average == Some(out),
            out == smooth(
                old(self)@.average,
                position(
                    input as int,
                    lowest(final(self)@.fast.lows),
                    highest(final(self)@.fast.highs),
                ),
                SMOOTH as int,
            ),
    {
        let fast: i64 = self.fast_stochastic.next(input);
        self.ema.next(fast)
    }

    /// Takes `bar` into the fast oscillator and returns the new average
    /// of its readings.
    pub fn next_bar(&mut self, bar: &Bar) -> (out: i64)
        requires
            old(self).wf(),
        ensures
            final(self).wf(),
            final(self)@.fast.lows == slide(old(self)@.fast.lows, bar.low, STOCH as nat),
            final(self)@.fast.highs == slide(old(self)@.fast.highs, bar.high, STOCH as nat),
            final(self)@.average == Some(out),
            out == smooth(
                old(self)@.average,
                position(
                    bar.close as int,
                    lowest(final(self)@.fast.lows),
                    highest(final(self)@.fast.highs),
                ),
                SMOOTH as int,
            ),
    {
        let fast: i64 = self.fast_stochastic.next_bar(bar);
        self.ema.next(fast)
    }

    /// Forgets every value: the oscillator is as `new` made it.
    pub fn reset(&mut self)
        requires
            old(self).wf(),
        ensures
            final(self).wf(),
            final(self)@ == (SlowState {
                fast: StochasticState { lows: Seq::<i64>::empty(), highs: Seq::<i64>::empty() },
                average: None,
            }),
    {
        self.fast_stochastic.reset();
        self.ema.reset();
    }

    /// The label `SLOW_STOCH(STOCH, SMOOTH)`.
    pub fn label(&self) -> (s: String)
        ensures
            s@ == label_text("SLOW_STOCH"@, seq![decimal(STOCH as nat), decimal(SMOOTH as nat)]),
    {
        let mut args: Vec<String> = Vec::new();
        args.push(decimal_string(self.fast_stochastic.period() as u64));
        args.push(decimal_string(self.ema.period() as u64));
        assert(texts(args@) =~= seq![decimal(STOCH as nat), decimal(SMOOTH as nat)]);
        label("SLOW_STOCH", &args)
    }
}

impl Default for SlowStochastic<14, 3> {
    /// A fast oscillator over fourteen values smoothed over three.
    fn default() -> (stoch: Self)
        ensures
            stoch.wf(),
            stoch@ == (SlowState {
                fast: StochasticState { lows: Seq::<i64>::empty(), highs: Seq::<i64>::empty() },
                average: None,
            }),
    {
        SlowStochastic::new()
    }
}

} // verus!
