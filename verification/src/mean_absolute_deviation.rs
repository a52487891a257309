//! Mean absolute deviation: the mean distance of the last `N` values
//! from their mean.

use crate::fixed::{distance, div_round, div_round_unsigned, saturate_unsigned};
use crate::label::{decimal, label_text, period_label};
use crate::series::{
    deviation_sum, lemma_deviation_not_negative, lemma_deviation_sum_bounds,
    lemma_deviation_sum_push, lemma_distances_fit, lemma_mean_in_range, lemma_sum_fits,
    lemma_sum_slide, mean, mean_absolute_deviation, sum,
};
use crate::window::{slide, CircularWindow};
use vstd::prelude::*;

verus! {

/// Mean absolute deviation over a window of `N` values.
///
/// The sum of the window is kept up to date on every push; the
/// deviations from the mean are summed afresh each time, so an update
/// costs one pass over the live values. The view is the window, oldest
/// value first.
#[derive(Debug, Clone)]
pub struct MeanAbsoluteDeviation<const N: usize> {
    window: CircularWindow<N>,
    sum: i128,
}

impl<const N: usize> View for MeanAbsoluteDeviation<N> {
    type V = Seq<i64>;

    closed spec fn view(&self) -> Seq<i64> {
        self.window@
    }
}

impl<const N: usize> MeanAbsoluteDeviation<N> {
    /// The window is well formed and the running sum is the sum of it.
    pub closed spec fn wf(&self) -> bool {
        &&& self.window.wf()
        &&& self.window.placeholder() == 0
        &&& self.sum == sum(self.window@)
    }

    /// A tracker that has seen nothing yet.
    pub fn new() -> (mad: Self)
        requires
            N >= 1,
        ensures
            mad.wf(),
            mad@ == Seq::<i64>::empty(),
    {
        MeanAbsoluteDeviation { window: CircularWindow::new(0), sum: 0 }
    }

    /// The window size.
    pub fn period(&self) -> (n: usize)
        ensures
            n == N,
    {
        N
    }

    /// Takes `input` into the window and returns the mean distance of
    /// the window's values from their mean.
    pub fn next(&mut self, input: i64) -> (out: i64)
        requires
            old(self).wf(),
        ensures
            final(self).wf(),
            final(self)@ == slide(old(self)@, input, N as nat),
            out == mean_absolute_deviation(final(self)@),
            out >= 0,
    {
        let ghost before = self.window@;
        proof {
            self.window.lemma_layout();
        }
        let evicted: i64 = self.window.push(input);
        let ghost after = self.window@;
        proof {
            lemma_sum_slide(before, input, N as nat);
            lemma_sum_fits(after);
            lemma_mean_in_range(after);
        }
        self.sum = self.sum + (input as i128 - evicted as i128);
        let live: usize = self.window.len();
        let center: i64 = div_round(self.sum, live as i128) as i64;
        let mut total: u128 = 0;
        let mut i: usize = 0;
        while i < live
            invariant
                self.window.wf(),
                self.window@ == after,
                live == after.len(),
                i <= live,
                total == deviation_sum(after.take(i as int), center as int),
            decreases live - i,
        {
            let value: i64 = self.window.get(i);
            proof {
                lemma_deviation_sum_push(after.take(i as int), value, center as int);
                assert(after.take(i as int).push(value) =~= after.take(i + 1));
                lemma_deviation_sum_bounds(after.take(i + 1), center as int);
                lemma_distances_fit((i + 1) as nat);
            }
            total = total + distance(value, center);
            i = i + 1;
        }
        proof {
            assert(after.take(live as int) =~= after);
            lemma_deviation_not_negative(after);
        }
        saturate_unsigned(div_round_unsigned(total, live as u128))
    }

    /// Forgets every value: the tracker is as `new` made it.
    pub fn reset(&mut self)
        requires
            old(self).wf(),
        ensures
            final(self).wf(),
            final(self)@ == Seq::<i64>::empty(),
    {
        self.window.reset();
        self.sum = 0;
    }

    /// The label `MAD(N)`.
    pub fn label(&self) -> (s: String)
        ensures
            s@ == label_text("MAD"@, seq![decimal(N as nat)]),
    {
        period_label("MAD", N)
    }
}

impl Default for MeanAbsoluteDeviation<9> {
    /// A tracker over nine values.
    fn default() -> (mad: Self)
        ensures
            mad.wf(),
            mad@ == Seq::<i64>::empty(),
    {
        MeanAbsoluteDeviation::new()
    }
}

} // verus!
