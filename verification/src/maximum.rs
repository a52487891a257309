//! The highest of the last `N` values.

use crate::label::{decimal, label_text, period_label};
use crate::series::{highest, is_maximum_of, lemma_highest_is};
use crate::window::{slide, CircularWindow};
use vstd::prelude::*;

verus! {

/// The highest value in a window of `N`.
///
/// The slot believed to hold the maximum is remembered between pushes,
/// so an update costs one comparison unless the maximum itself is the
/// value that leaves; only then is the whole buffer scanned. Slots that
/// no push has reached hold `i64::MIN`, which no value is below. The
/// view is the window, oldest value first.
#[derive(Debug, Clone)]
pub struct Maximum<const N: usize> {
    window: CircularWindow<N>,
    best: usize,
}

impl<const N: usize> View for Maximum<N> {
    type V = Seq<i64>;

    closed spec fn view(&self) -> Seq<i64> {
        self.window@
    }
}

impl<const N: usize> Maximum<N> {
    /// The remembered slot holds a value that no slot of the buffer
    /// exceeds.
    pub closed spec fn wf(&self) -> bool {
        &&& self.window.wf()
        &&& self.window.placeholder() == i64::MIN
        &&& self.best < N
        &&& forall|j: int|
                0 <= j < N ==> #[trigger] self.window.buffer()[j] <=
                    self.window.buffer()[self.best as int]
    }

    /// A tracker that has seen nothing yet.
    pub fn new() -> (max: Self)
        requires
            N >= 1,
        ensures
            max.wf(),
            max@ == Seq::<i64>::empty(),
    {
        Maximum { window: CircularWindow::new(i64::MIN), best: 0 }
    }

    /// The first slot, in buffer order, that holds the greatest value of
    /// the buffer.
    fn find_max_index(&self) -> (index: usize)
        requires
            self.window.wf(),
        ensures
            index < N,
            forall|j: int|
                0 <= j < N ==> #[trigger] self.window.buffer()[j] <=
                    self.window.buffer()[index as int],
            forall|j: int|
                0 <= j < index ==> #[trigger] self.window.buffer()[j] < self.window.buffer()[index as int],
    {
        proof {
            self.window.lemma_layout();
        }
        let mut max: i64 = i64::MIN;
        let mut index: usize = 0;
        let mut i: usize = 0;
        while i < N
            invariant
                self.window.wf(),
                i <= N,
                N >= 1,
                index < N,
                i > 0 ==> index < i && max == self.window.buffer()[index as int],
                i == 0 ==> index == 0 && max == i64::MIN,
                forall|j: int| 0 <= j < i ==> #[trigger] self.window.buffer()[j] <= max,
                forall|j: int| 0 <= j < index ==> #[trigger] self.window.buffer()[j] < max,
            decreases N - i,
        {
            let val: i64 = self.window.slot(i);
            if val > max {
                max = val;
                index = i;
            }
            i = i + 1;
        }
        index
    }

    /// The window size.
    pub fn period(&self) -> (n: usize)
        ensures
            n == N,
    {
        N
    }

    /// Takes `input` into the window and returns the highest value of
    /// the window.
    pub fn next(&mut self, input: i64) -> (out: i64)
        requires
            old(self).wf(),
        ensures
            final(self).wf(),
            final(self)@ == slide(old(self)@, input, N as nat),
            is_maximum_of(out as int, final(self)@),
            out == highest(final(self)@),
    {
        let at: usize = self.window.cursor();
        let ghost before = self.window.buffer();
        let ghost old_best = self.best as int;
        proof {
            self.window.lemma_layout();
        }
        let _evicted: i64 = self.window.push(input);
        let ghost after = self.window.buffer();
        assert(after == before.update(at as int, input));
        if input > self.window.slot(self.best) {
            self.best = at;
            assert forall|j: int| 0 <= j < N implies #[trigger] after[j] <= after[at as int] by {
                assert(before[j] <= before[old_best]);
            }
        } else if self.best == at {
            self.best = self.find_max_index();
        } else {
            assert forall|j: int| 0 <= j < N implies #[trigger] after[j] <= after[old_best] by {
                assert(before[j] <= before[old_best]);
            }
        }
        let out: i64 = self.window.slot(self.best);
        proof {
            self.window.lemma_layout();
            let view = self.window@;
            let len = view.len() as int;
            let cur = self.window.next_slot();
            let best = self.best as int;
            assert(len >= 1);
            assert forall|i: int| 0 <= i < len implies view[i] <= out by {
                let j = if cur + i < len {
                    cur + i
                } else {
                    cur + i - len
                };
                assert(view[i] == after[j]);
                assert(after[j] <= after[best]);
            }
            if best < len {
                let i = if best >= cur {
                    best - cur
                } else {
                    best - cur + len
                };
                assert(0 <= i < len);
                assert(view[i] == out);
            } else {
                assert(after[best] == i64::MIN);
                assert(view[0] <= out);
                assert(view[0] == out);
            }
            lemma_highest_is(out as int, view);
        }
        out
    }

    /// Forgets every value: the tracker is as `new` made it.
    pub fn reset(&mut self)
        requires
            old(self).wf(),
        ensures
            final(self).wf(),
            final(self)@ == Seq::<i64>::empty(),
    {
        self.window.reset();
        self.best = 0;
    }

    /// The label `MAX(N)`.
    pub fn label(&self) -> (s: String)
        ensures
            s@ == label_text("MAX"@, seq![decimal(N as nat)]),
    {
        period_label("MAX", N)
    }
}

impl Default for Maximum<14> {
    /// A tracker over fourteen values.
    fn default() -> (max: Self)
        ensures
            max.wf(),
            max@ == Seq::<i64>::empty(),
    {
        Maximum::new()
    }
}

} // verus!
