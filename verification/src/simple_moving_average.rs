//! Simple moving average: the mean of the last `N` values.

use crate::fixed::{div_round, round_div};
use crate::label::{decimal, label_text, period_label};
use crate::series::{lemma_mean_in_range, lemma_sum_fits, lemma_sum_slide, mean, sum};
use crate::window::{latest, lemma_replay_is_latest, replay, slide, CircularWindow};
use vstd::prelude::*;

verus! {

/// Simple moving average over a window of `N` values.
///
/// The sum of the window is kept up to date on every push, so an update
/// costs the same whatever `N` is. The view is the window, oldest value
/// first.
#[derive(Debug, Clone)]
pub struct SimpleMovingAverage<const N: usize> {
    window: CircularWindow<N>,
    sum: i128,
}

impl<const N: usize> View for SimpleMovingAverage<N> {
    type V = Seq<i64>;

    closed spec fn view(&self) -> Seq<i64> {
        self.window@
    }
}

impl<const N: usize> SimpleMovingAverage<N> {
    /// The window is well formed and the running sum is the sum of it.
    pub closed spec fn wf(&self) -> bool {
        &&& self.window.wf()
        &&& self.window.placeholder() == 0
        &&& self.sum == sum(self.window@)
        &&& self@.len() <= N
    }

    /// An average that has seen nothing yet.
    pub fn new() -> (sma: Self)
        requires
            N >= 1,
        ensures
            sma.wf(),
            sma@ == Seq::<i64>::empty(),
    {
        SimpleMovingAverage { window: CircularWindow::new(0), sum: 0 }
    }

    /// The window size.
    pub fn period(&self) -> (n: usize)
        ensures
            n == N,
    {
        N
    }

    /// Takes `input` into the window and returns the mean of the window:
    /// of the values seen so far while they are fewer than `N`, of the
    /// last `N` afterwards.
    pub fn next(&mut self, input: i64) -> (out: i64)
        requires
            old(self).wf(),
        ensures
            final(self).wf(),
            final(self)@ == slide(old(self)@, input, N as nat),
            out == mean(final(self)@),
    {
        let ghost before = self.window@;
        proof {
            self.window.lemma_layout();
        }
        let evicted: i64 = self.window.push(input);
        let ghost after = self.window@;
        proof {
            lemma_sum_slide(before, input, N as nat);
            lemma_sum_fits(after);
            lemma_mean_in_range(after);
        }
        self.sum = self.sum + (input as i128 - evicted as i128);
        let live: usize = self.window.len();
        div_round(self.sum, live as i128) as i64
    }

    /// Forgets every value: the average is as `new` made it.
    pub fn reset(&mut self)
        requires
            old(self).wf(),
        ensures
            final(self).wf(),
            final(self)@ == Seq::<i64>::empty(),
    {
        self.window.reset();
        self.sum = 0;
    }

    /// The label `SMA(N)`.
    pub fn label(&self) -> (s: String)
        ensures
            s@ == label_text("SMA"@, seq![decimal(N as nat)]),
    {
        period_label("SMA", N)
    }
}

impl Default for SimpleMovingAverage<9> {
    /// An average over nine values.
    fn default() -> (sma: Self)
        ensures
            sma.wf(),
            sma@ == Seq::<i64>::empty(),
    {
        SimpleMovingAverage::new()
    }
}

/// Once at least `n` values have arrived, the average of period `n` is
/// the rounded arithmetic mean of exactly the last `n` of them.
pub proof fn lemma_average_is_mean_of_last(stream: Seq<i64>, n: nat)
    requires
        n >= 1,
        stream.len() >= n,
    ensures
        mean(replay(stream, n)) == round_div(
            sum(stream.subrange(stream.len() - n, stream.len() as int)),
            n as int,
        ),
{
    lemma_replay_is_latest(stream, n);
    assert(latest(stream, n) =~= stream.subrange(stream.len() - n, stream.len() as int));
}

} // verus!
