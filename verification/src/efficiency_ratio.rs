//! Kaufman's efficiency ratio: how much of the distance travelled over
//! the last `N` values was net movement.

use crate::fixed::{abs, distance, div_round_unsigned, lemma_round_div_bounds, round_div, SCALE};
use crate::label::{decimal, label_text, period_label};
use crate::series::{
    lemma_distances_fit, lemma_path_at_least_displacement, lemma_path_length_bounds,
    lemma_path_length_push, path_length,
};
use crate::window::{slide, CircularWindow};
use vstd::prelude::*;

verus! {

/// Where the path measured after the next push starts: at the oldest
/// value of the window as it stands, or at zero while the window is
/// empty.
pub open spec fn origin(window: Seq<i64>) -> int {
    if window.len() == 0 {
        0
    } else {
        window[0] as int
    }
}

/// The net movement from `start` to the newest value of `window` as a
/// fraction of the length of the path from `start` through the window;
/// zero where the path has no length.
pub open spec fn efficiency(start: int, window: Seq<i64>) -> int
    recommends
        window.len() > 0,
{
    let travelled = path_length(start, window);
    if travelled == 0 {
        0
    } else {
        round_div(abs(window.last() - start) * SCALE, travelled)
    }
}

/// An efficiency ratio is a fraction: it lies between zero and one.
pub proof fn lemma_efficiency_is_fraction(start: int, window: Seq<i64>)
    requires
        window.len() > 0,
        i64::MIN <= start <= i64::MAX,
    ensures
        0 <= efficiency(start, window) <= SCALE,
{
    let travelled = path_length(start, window);
    let net = abs(window.last() - start);
    lemma_path_at_least_displacement(start, window);
    lemma_path_length_bounds(start, window);
    if travelled != 0 {
        assert(0 * travelled <= net * SCALE <= SCALE * travelled) by (nonlinear_arith)
            requires
                0 <= net <= travelled,
                SCALE == 1_000_000,
        ;
        lemma_round_div_bounds(net * SCALE, travelled, 0, SCALE as int);
    }
}

/// Efficiency ratio over a window of `N` values.
///
/// Each push walks the window from the oldest value to the newest and
/// adds up the distances between neighbours. The view is the window,
/// oldest value first.
#[derive(Debug, Clone)]
pub struct EfficiencyRatio<const N: usize> {
    window: CircularWindow<N>,
}

impl<const N: usize> View for EfficiencyRatio<N> {
    type V = Seq<i64>;

    closed spec fn view(&self) -> Seq<i64> {
        self.window@
    }
}

impl<const N: usize> EfficiencyRatio<N> {
    /// The window is well formed.
    pub closed spec fn wf(&self) -> bool {
        &&& self.window.wf()
        &&& self.window.placeholder() == 0
    }

    /// A tracker that has seen nothing yet.
    pub fn new() -> (er: Self)
        requires
            N >= 1,
        ensures
            er.wf(),
            er@ == Seq::<i64>::empty(),
    {
        EfficiencyRatio { window: CircularWindow::new(0) }
    }

    /// The window size.
    pub fn period(&self) -> (n: usize)
        ensures
            n == N,
    {
        N
    }

    /// Takes `input` into the window and returns the efficiency of the
    /// path that starts at the value that was oldest before the push
    /// and runs through the window.
    pub fn next(&mut self, input: i64) -> (out: i64)
        requires
            old(self).wf(),
        ensures
            final(self).wf(),
            final(self)@ == slide(old(self)@, input, N as nat),
            out == efficiency(origin(old(self)@), final(self)@),
            0 <= out <= SCALE,
    {
        let first: i64 = if self.window.len() == 0 {
            0
        } else {
            self.window.get(0)
        };
        let _evicted: i64 = self.window.push(input);
        let ghost after = self.window@;
        let live: usize = self.window.len();
        let mut travelled: u128 = 0;
        let mut previous: i64 = first;
        let mut i: usize = 0;
        while i < live
            invariant
                self.window.wf(),
                self.window@ == after,
                live == after.len(),
                i <= live,
                travelled == path_length(first as int, after.take(i as int)),
                previous == if i == 0 {
                    first
                } else {
                    after[i - 1]
                },
            decreases live - i,
        {
            let value: i64 = self.window.get(i);
            proof {
                lemma_path_length_push(first as int, after.take(i as int), value);
                assert(after.take(i as int).push(value) =~= after.take(i + 1));
                lemma_path_length_bounds(first as int, after.take(i + 1));
                lemma_distances_fit((i + 1) as nat);
            }
            travelled = travelled + distance(value, previous);
            previous = value;
            i = i + 1;
        }
        proof {
            assert(after.take(live as int) =~= after);
            lemma_efficiency_is_fraction(first as int, after);
        }
        if travelled == 0 {
            0
        } else {
            let net: u128 = distance(input, first);
            div_round_unsigned(net * (SCALE as u128), travelled) as i64
        }
    }

    /// Forgets every value: the tracker is as `new` made it.
    pub fn reset(&mut self)
        requires
            old(self).wf(),
        ensures
            final(self).wf(),
            final(self)@ == Seq::<i64>::empty(),
    {
        self.window.reset();
    }

    /// The label `ER(N)`.
    pub fn label(&self) -> (s: String)
        ensures
            s@ == label_text("ER"@, seq![decimal(N as nat)]),
    {
        period_label("ER", N)
    }
}

impl Default for EfficiencyRatio<14> {
    /// A tracker over fourteen values.
    fn default() -> (er: Self)
        ensures
            er.wf(),
            er@ == Seq::<i64>::empty(),
    {
        EfficiencyRatio::new()
    }
}

} // verus!
