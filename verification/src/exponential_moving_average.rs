//! Exponential moving average: each value is weighted `2 / (N + 1)`
//! against the average of all that came before.

use crate::fixed::{
    abs, div_round, lemma_round_div_bounds, lemma_round_div_exact, lemma_round_div_nearest, round_div,
};
use crate::label::{decimal, label_text, period_label};
use vstd::prelude::*;

verus! {

/// The average `current` moved `2 / (n + 1)` of the way towards `input`,
/// rounded to the nearest raw unit.
pub open spec fn blend(current: int, input: int, n: int) -> int {
    current + round_div(2 * (input - current), n + 1)
}

/// The average after `input` arrives: the input itself where nothing came
/// before, else the previous average blended with the input.
pub open spec fn smooth(previous: Option<i64>, input: int, n: int) -> int {
    match previous {
        None => input,
        Some(current) => blend(current as int, input, n),
    }
}

/// The average after `ticks` arrivals of the same `input`, starting from
/// `current`.
pub open spec fn settle(current: int, input: int, n: int, ticks: nat) -> int
    decreases ticks,
{
    if ticks == 0 {
        current
    } else {
        blend(settle(current, input, n, (ticks - 1) as nat), input, n)
    }
}

/// One step moves the average towards the input and never past it.
pub proof fn lemma_blend_between(current: int, input: int, n: int)
    requires
        n >= 1,
    ensures
        current <= input ==> current <= blend(current, input, n) <= input,
        current >= input ==> input <= blend(current, input, n) <= current,
{
    let d = input - current;
    if d >= 0 {
        assert(0 * (n + 1) <= 2 * d <= d * (n + 1)) by (nonlinear_arith)
            requires
                d >= 0,
                n >= 1,
        ;
        lemma_round_div_bounds(2 * d, n + 1, 0, d);
    } else {
        assert(d * (n + 1) <= 2 * d <= 0 * (n + 1)) by (nonlinear_arith)
            requires
                d < 0,
                n >= 1,
        ;
        lemma_round_div_bounds(2 * d, n + 1, d, 0);
    }
}

/// An average that equals its input stays exactly there.
pub proof fn lemma_blend_fixed_point(value: int, n: int)
    requires
        n >= 1,
    ensures
        blend(value, value, n) == value,
{
    lemma_round_div_exact(0, n + 1);
    assert(0 * (n + 1) == 0) by (nonlinear_arith);
}

/// One step leaves the average no farther from the input, and strictly
/// nearer while the distance is more than a quarter of `n + 1` raw units.
pub proof fn lemma_blend_approaches(current: int, input: int, n: int)
    requires
        n >= 1,
    ensures
        abs(input - blend(current, input, n)) <= abs(input - current),
        4 * abs(input - current) > n + 1 ==> abs(input - blend(current, input, n)) < abs(
            input - current,
        ),
{
    lemma_blend_between(current, input, n);
    let d = input - current;
    let step = round_div(2 * d, n + 1);
    lemma_round_div_nearest(2 * d, n + 1);
    if 4 * abs(d) > n + 1 && step == 0 {
        assert((n + 1) * 0 == 0) by (nonlinear_arith);
    }
}

/// Under a constant input the average never leaves the side of the input
/// it is on and never moves away from it; while it is more than a
/// quarter of `n + 1` raw units from the input every tick has brought it
/// nearer, so that after as many ticks as the two were raw units apart
/// it is within that distance of the input.
pub proof fn lemma_settles(current: int, input: int, n: int, ticks: nat)
    requires
        n >= 1,
    ensures
        abs(input - settle(current, input, n, ticks)) <= abs(input - current),
        current <= input ==> current <= settle(current, input, n, ticks) <= input,
        current >= input ==> input <= settle(current, input, n, ticks) <= current,
        4 * abs(input - settle(current, input, n, ticks)) > n + 1 ==> abs(
            input - settle(current, input, n, ticks),
        ) + ticks <= abs(input - current),
        ticks >= abs(input - current) ==> 4 * abs(input - settle(current, input, n, ticks)) <= n
            + 1,
    decreases ticks,
{
    if ticks > 0 {
        let before = settle(current, input, n, (ticks - 1) as nat);
        lemma_settles(current, input, n, (ticks - 1) as nat);
        lemma_blend_approaches(before, input, n);
        lemma_blend_between(before, input, n);
    }
}

/// Under a constant input, an average that has reached the input stays
/// exactly equal to it.
pub proof fn lemma_settled_stays(input: int, n: int, ticks: nat)
    requires
        n >= 1,
    ensures
        settle(input, input, n, ticks) == input,
    decreases ticks,
{
    if ticks > 0 {
        lemma_settled_stays(input, n, (ticks - 1) as nat);
        lemma_blend_fixed_point(input, n);
    }
}

/// Exponential moving average of period `N`.
///
/// It keeps no window: the state is the current average, or nothing
/// before the first value. The view is that state.
#[derive(Debug, Clone)]
pub struct ExponentialMovingAverage<const N: usize> {
    current: i64,
    is_new: bool,
}

impl<const N: usize> View for ExponentialMovingAverage<N> {
    type V = Option<i64>;

    closed spec fn view(&self) -> Option<i64> {
        if self.is_new {
            None
        } else {
            Some(self.current)
        }
    }
}

impl<const N: usize> ExponentialMovingAverage<N> {
    /// The period is at least one, and an average that has seen nothing
    /// holds zero.
    pub closed spec fn wf(&self) -> bool {
        &&& N >= 1
        &&& self.is_new ==> self.current == 0
    }

    /// An average that has seen nothing yet.
    pub fn new() -> (ema: Self)
        requires
            N >= 1,
        ensures
            ema.wf(),
            ema@ == None::<i64>,
    {
        ExponentialMovingAverage { current: 0, is_new: true }
    }

    /// The period.
    pub fn period(&self) -> (n: usize)
        ensures
            n == N,
    {
        N
    }

    /// Takes `input` and returns the new average: the input itself on
    /// the first call, else the old average moved `2 / (N + 1)` of the
    /// way towards the input.
    pub fn next(&mut self, input: i64) -> (out: i64)
        requires
            old(self).wf(),
        ensures
            final(self).wf(),
            final(self)@ == Some(out),
            out == smooth(old(self)@, input as int, N as int),
            old(self)@ is None ==> out == input,
    {
        if self.is_new {
            self.is_new = false;
            self.current = input;
        } else {
            proof {
                lemma_blend_between(self.current as int, input as int, N as int);
            }
            let gap: i128 = input as i128 - self.current as i128;
            let step: i128 = div_round(2 * gap, N as i128 + 1);
            self.current = (self.current as i128 + step) as i64;
        }
        self.current
    }

    /// Forgets every value: the average is as `new` made it.
    pub fn reset(&mut self)
        requires
            old(self).wf(),
        ensures
            final(self).wf(),
            final(self)@ == None::<i64>,
    {
        self.current = 0;
        self.is_new = true;
    }

    /// The label `EMA(N)`.
    pub fn label(&self) -> (s: String)
        ensures
            s@ == label_text("EMA"@, seq![decimal(N as nat)]),
    {
        period_label("EMA", N)
    }
}

impl Default for ExponentialMovingAverage<9> {
    /// An average of period nine.
    fn default() -> (ema: Self)
        ensures
            ema.wf(),
            ema@ == None::<i64>,
    {
        ExponentialMovingAverage::new()
    }
}

} // verus!
