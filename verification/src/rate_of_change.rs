//! Rate of change: how far a value lies above the value `N` arrivals
//! before it, in percent of that value.

use crate::fixed::{percent_change, percent_change_spec};
use crate::label::{decimal, label_text, period_label};
use crate::window::{slide, CircularWindow};
use vstd::prelude::*;

verus! {

/// The value that `input` is compared with: the oldest value of the
/// window as it stands before `input` enters, which is the value `N`
/// arrivals back once that many have come and the first value of the
/// stream before; `input` itself while the window is empty.
pub open spec fn reference(window: Seq<i64>, input: i64) -> int {
    if window.len() == 0 {
        input as int
    } else {
        window[0] as int
    }
}

/// Rate of change over `N` arrivals.
///
/// The view is the window of the last `N` values, oldest first.
#[derive(Debug, Clone)]
pub struct RateOfChange<const N: usize> {
    window: CircularWindow<N>,
}

impl<const N: usize> View for RateOfChange<N> {
    type V = Seq<i64>;

    closed spec fn view(&self) -> Seq<i64> {
        self.window@
    }
}

impl<const N: usize> RateOfChange<N> {
    /// The window is well formed.
    pub closed spec fn wf(&self) -> bool {
        &&& self.window.wf()
        &&& self.window.placeholder() == 0
    }

    /// A tracker that has seen nothing yet.
    pub fn new() -> (roc: Self)
        requires
            N >= 1,
        ensures
            roc.wf(),
            roc@ == Seq::<i64>::empty(),
    {
        RateOfChange { window: CircularWindow::new(0) }
    }

    /// The distance, in arrivals, over which the change is measured.
    pub fn period(&self) -> (n: usize)
        ensures
            n == N,
    {
        N
    }

    /// Takes `input` and returns its change against the reference
    /// value, in percent; zero where the reference is zero.
    pub fn next(&mut self, input: i64) -> (out: i64)
        requires
            old(self).wf(),
        ensures
            final(self).wf(),
            final(self)@ == slide(old(self)@, input, N as nat),
            out == percent_change_spec(input as int, reference(old(self)@, input)),
    {
        let previous: i64 = if self.window.len() == 0 {
            input
        } else {
            self.window.get(0)
        };
        let _evicted: i64 = self.window.push(input);
        percent_change(input, previous)
    }

    /// Forgets every value: the tracker is as `new` made it.
    pub fn reset(&mut self)
        requires
            old(self).wf(),
        ensures
            final(self).wf(),
            final(self)@ == Seq::<i64>::empty(),
    {
        self.window.reset();
    }

    /// The label `ROC(N)`.
    pub fn label(&self) -> (s: String)
        ensures
            s@ == label_text("ROC"@, seq![decimal(N as nat)]),
    {
        period_label("ROC", N)
    }
}

impl Default for RateOfChange<9> {
    /// A tracker over nine arrivals.
    fn default() -> (roc: Self)
        ensures
            roc.wf(),
            roc@ == Seq::<i64>::empty(),
    {
        RateOfChange::new()
    }
}

} // verus!
