//! Relative strength index: the share of the average gain in the
//! average movement.

use crate::exponential_moving_average::{lemma_blend_between, smooth, ExponentialMovingAverage};
use crate::fixed::{clamp, div_round, lemma_round_div_bounds, round_div, saturate, FIFTY, HUNDRED};
use crate::label::{decimal, label_text, period_label};
use vstd::prelude::*;

verus! {

/// The gain and the loss that seed both averages on the first value of
/// a stream: a tenth of a unit each.
pub const SEED: i64 = 100_000;

/// The gain of `input` against the previous value: the rise where it
/// rose, zero where it did not, and the seed on the first value.
pub open spec fn gain(previous: Option<i64>, input: int) -> int {
    match previous {
        None => SEED as int,
        Some(p) => if input > p {
            clamp(input - p)
        } else {
            0
        },
    }
}

/// The loss of `input` against the previous value: the fall where it
/// did not rise, zero where it rose, and the seed on the first value.
pub open spec fn loss(previous: Option<i64>, input: int) -> int {
    match previous {
        None => SEED as int,
        Some(p) => if input > p {
            0
        } else {
            clamp(p - input)
        },
    }
}

/// The index read off the two averages: the average gain in percent of
/// the sum of both, and the neutral fifty where both are zero.
pub open spec fn strength(average_gain: int, average_loss: int) -> int {
    if average_gain + average_loss == 0 {
        FIFTY as int
    } else {
        round_div(HUNDRED * average_gain, average_gain + average_loss)
    }
}

/// The index is a percentage: it lies between zero and one hundred.
pub proof fn lemma_strength_is_percentage(average_gain: int, average_loss: int)
    requires
        average_gain >= 0,
        average_loss >= 0,
    ensures
        0 <= strength(average_gain, average_loss) <= HUNDRED,
{
    let total = average_gain + average_loss;
    if total != 0 {
        assert(0 * total <= HUNDRED * average_gain <= HUNDRED * total) by (nonlinear_arith)
            requires
                0 <= average_gain <= total,
                HUNDRED == 100_000_000,
        ;
        lemma_round_div_bounds(HUNDRED * average_gain, total, 0, HUNDRED as int);
    }
}

/// What a relative strength index remembers.
pub struct StrengthState {
    /// The previous value.
    pub previous: Option<i64>,
    /// The average of the gains.
    pub average_gain: Option<i64>,
    /// The average of the losses.
    pub average_loss: Option<i64>,
}

/// Relative strength index of period `N`.
#[derive(Debug, Clone)]
pub struct RelativeStrengthIndex<const N: usize> {
    up_ema_indicator: ExponentialMovingAverage<N>,
    down_ema_indicator: ExponentialMovingAverage<N>,
    prev_val: i64,
    is_new: bool,
}

impl<const N: usize> View for RelativeStrengthIndex<N> {
    type V = StrengthState;

    closed spec fn view(&self) -> StrengthState {
        StrengthState {
            previous: if self.is_new {
                None
            } else {
                Some(self.prev_val)
            },
            average_gain: self.up_ema_indicator@,
            average_loss: self.down_ema_indicator@,
        }
    }
}

impl<const N: usize> RelativeStrengthIndex<N> {
    /// Both averages are well formed and neither is negative.
    pub closed spec fn wf(&self) -> bool {
        &&& N >= 1
        &&& self.up_ema_indicator.wf()
        &&& self.down_ema_indicator.wf()
        &&& self.is_new ==> self.prev_val == 0
        &&& self.up_ema_indicator@ matches Some(up) ==> up >= 0
        &&& self.down_ema_indicator@ matches Some(down) ==> down >= 0
    }

    /// An index that has seen nothing yet.
    pub fn new() -> (rsi: Self)
        requires
            N >= 1,
        ensures
            rsi.wf(),
            rsi@ == (StrengthState { previous: None, average_gain: None, average_loss: None }),
    {
        RelativeStrengthIndex {
            up_ema_indicator: ExponentialMovingAverage::new(),
            down_ema_indicator: ExponentialMovingAverage::new(),
            prev_val: 0,
            is_new: true,
        }
    }

    /// The period.
    pub fn period(&self) -> (n: usize)
        ensures
            n == N,
    {
        N
    }

    /// Takes `input`, averages its gain and its loss against the
    /// previous value, and returns the index.
    pub fn next(&mut self, input: i64) -> (out: i64)
        requires
            old(self).wf(),
        ensures
            final(self).wf(),
            final(self)@.previous == Some(input),
            final(self)@.average_gain == Some(
                smooth(
                    old(self)@.average_gain,
                    gain(old(self)@.previous, input as int),
                    N as int,
                ) as i64,
            ),
            final(self)@.average_loss == Some(
                smooth(
                    old(self)@.average_loss,
                    loss(old(self)@.previous, input as int),
                    N as int,
                ) as i64,
            ),
            out == strength(
                final(self)@.average_gain.unwrap() as int,
                final(self)@.average_loss.unwrap() as int,
            ),
            0 <= out <= HUNDRED,
    {
        let mut up: i64 = 0;
        let mut down: i64 = 0;
        if self.is_new {
            self.is_new = false;
            up = SEED;
            down = SEED;
        } else {
            if input > self.prev_val {
                up = saturate(input as i128 - self.prev_val as i128);
            } else {
                down = saturate(self.prev_val as i128 - input as i128);
            }
        }
        self.prev_val = input;
        proof {
            if let Some(current) = self.up_ema_indicator@ {
                lemma_blend_between(current as int, up as int, N as int);
            }
            if let Some(current) = self.down_ema_indicator@ {
                lemma_blend_between(current as int, down as int, N as int);
            }
        }
        let up_ema: i64 = self.up_ema_indicator.next(up);
        let down_ema: i64 = self.down_ema_indicator.next(down);
        proof {
            lemma_strength_is_percentage(up_ema as int, down_ema as int);
        }
        let total: i128 = up_ema as i128 + down_ema as i128;
        if total == 0 {
            FIFTY
        } else {
            div_round((HUNDRED as i128) * (up_ema as i128), total) as i64
        }
    }

    /// Forgets every value: the index is as `new` made it.
    pub fn reset(&mut self)
        requires
            old(self).wf(),
        ensures
            final(self).wf(),
            final(self)@ == (StrengthState { previous: None, average_gain: None, average_loss: None }),
    {
        self.is_new = true;
        self.prev_val = 0;
        self.up_ema_indicator.reset();
        self.down_ema_indicator.reset();
    }

    /// The label `RSI(N)`.
    pub fn label(&self) -> (s: String)
        ensures
            s@ == label_text("RSI"@, seq![decimal(N as nat)]),
    {
        period_label("RSI", N)
    }
}

impl Default for RelativeStrengthIndex<14> {
    /// An index of period fourteen.
    fn default() -> (rsi: Self)
        ensures
            rsi.wf(),
            rsi@ == (StrengthState { previous: None, average_gain: None, average_loss: None }),
    {
        RelativeStrengthIndex::new()
    }
}

} // verus!
