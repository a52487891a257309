//! Fast stochastic oscillator: where a value stands between the lowest
//! and the highest of the last `N`, in percent.

use crate::bar::Bar;
use crate::fixed::{clamp, lemma_round_div_bounds, ratio, scaled_ratio, FIFTY, HUNDRED};
use crate::label::{decimal, label_text, period_label};
use crate::maximum::Maximum;
use crate::minimum::Minimum;
use crate::series::{highest, lowest};
use crate::window::slide;
use vstd::prelude::*;

verus! {

/// Where `value` stands between `low` and `high`, in percent of their
/// distance; the neutral fifty where the two coincide.
pub open spec fn position(value: int, low: int, high: int) -> int {
    if high == low {
        FIFTY as int
    } else {
        clamp(ratio(value - low, high - low, HUNDRED as int))
    }
}

/// A value that lies between the two bounds stands between zero and one
/// hundred percent.
pub proof fn lemma_position_is_percentage(value: int, low: int, high: int)
    requires
        low <= value <= high,
    ensures
        0 <= position(value, low, high) <= HUNDRED,
{
    if high != low {
        let span = high - low;
        let part = value - low;
        assert(0 * span <= part * HUNDRED <= HUNDRED * span) by (nonlinear_arith)
            requires
                0 <= part <= span,
                HUNDRED == 100_000_000,
        ;
        lemma_round_div_bounds(part * HUNDRED, span, 0, HUNDRED as int);
    }
}

/// What a fast stochastic remembers.
pub struct StochasticState {
    /// The window that the lowest value is taken from, oldest first.
    pub lows: Seq<i64>,
    /// The window that the highest value is taken from, oldest first.
    pub highs: Seq<i64>,
}

/// Fast stochastic oscillator over a window of `N`.
#[derive(Debug, Clone)]
pub struct FastStochastic<const N: usize> {
    minimum: Minimum<N>,
    maximum: Maximum<N>,
}

impl<const N: usize> View for FastStochastic<N> {
    type V = StochasticState;

    closed spec fn view(&self) -> StochasticState {
        StochasticState { lows: self.minimum@, highs: self.maximum@ }
    }
}

impl<const N: usize> FastStochastic<N> {
    /// Both trackers are well formed.
    pub closed spec fn wf(&self) -> bool {
        &&& N >= 1
        &&& self.minimum.wf()
        &&& self.maximum.wf()
    }

    /// An oscillator that has seen nothing yet.
    pub fn new() -> (stoch: Self)
        requires
            N >= 1,
        ensures
            stoch.wf(),
            stoch@ == (StochasticState { lows: Seq::<i64>::empty(), highs: Seq::<i64>::empty() }),
    {
        FastStochastic { minimum: Minimum::new(), maximum: Maximum::new() }
    }

    /// The window size.
    pub fn period(&self) -> (n: usize)
        ensures
            n == N,
    {
        N
    }

    /// Takes `input` into both windows and returns where it stands
    /// between the lowest and the highest value.
    pub fn next(&mut self, input: i64) -> (out: i64)
        requires
            old(self).wf(),
        ensures
            final(self).wf(),
            final(self)@.lows == slide(old(self)@.lows, input, N as nat),
            final(self)@.highs == slide(old(self)@.highs, input, N as nat),
            out == position(input as int, lowest(final(self)@.lows), highest(final(self)@.highs)),
            0 <= out <= HUNDRED,
    {
        let min: i64 = self.minimum.next(input);
        let max: i64 = self.maximum.next(input);
        proof {
            let lows = self.minimum@;
            let highs = self.maximum@;
            assert(lows.last() == input);
            assert(highs.last() == input);
            lemma_position_is_percentage(input as int, min as int, max as int);
        }
        if min == max {
            FIFTY
        } else {
            scaled_ratio(input as i128 - min as i128, max as i128 - min as i128, HUNDRED as i128)
        }
    }

    /// Takes the high and the low of `bar` into their windows and
    /// returns where its close stands between the lowest low and the
    /// highest high.
    pub fn next_bar(&mut self, bar: &Bar) -> (out: i64)
        requires
            old(self).wf(),
        ensures
            final(self).wf(),
            final(self)@.lows == slide(old(self)@.lows, bar.low, N as nat),
            final(self)@.highs == slide(old(self)@.highs, bar.high, N as nat),
            out == position(bar.close as int, lowest(final(self)@.lows), highest(final(self)@.highs)),
    {
        let highest: i64 = self.maximum.next(bar.high);
        let lowest: i64 = self.minimum.next(bar.low);
        let close: i64 = bar.close;
        if highest == lowest {
            FIFTY
        } else {
            scaled_ratio(
                close as i128 - lowest as i128,
                highest as i128 - lowest as i128,
                HUNDRED as i128,
            )
        }
    }

    /// Forgets every value: the oscillator is as `new` made it.
    pub fn reset(&mut self)
        requires
            old(self).wf(),
        ensures
            final(self).wf(),
            final(self)@ == (StochasticState { lows: Seq::<i64>::empty(), highs: Seq::<i64>::empty() }),
    {
        self.minimum.reset();
        self.maximum.reset();
    }

    /// The label `FAST_STOCH(N)`.
    pub fn label(&self) -> (s: String)
        ensures
            s@ == label_text("FAST_STOCH"@, seq![decimal(N as nat)]),
    {
        period_label("FAST_STOCH", N)
    }
}

impl Default for FastStochastic<14> {
    /// An oscillator over fourteen values.
    fn default() -> (stoch: Self)
        ensures
            stoch.wf(),
            stoch@ == (StochasticState { lows: Seq::<i64>::empty(), highs: Seq::<i64>::empty() }),
    {
        FastStochastic::new()
    }
}

} // verus!
