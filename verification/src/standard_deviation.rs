//! Standard deviation of the last `N` values about their mean.

use crate::fixed::{clamp, distance, div_round, div_round_unsigned, round_div, saturate_unsigned};
use crate::label::{decimal, label_text, period_label};
use crate::series::{lemma_mean_in_range, lemma_sum_fits, lemma_sum_slide, mean, sum};
use crate::window::{slide, CircularWindow};
use vstd::prelude::*;

verus! {

/// `r` is the integer square root of `n`: the greatest integer whose
/// square does not exceed `n`.
pub open spec fn is_root(r: int, n: int) -> bool {
    0 <= r && r * r <= n < (r + 1) * (r + 1)
}

/// The integer square root of `n`.
pub open spec fn root(n: int) -> int
    recommends
        n >= 0,
{
    choose|r: int| is_root(r, n)
}

/// A number has one integer square root.
pub proof fn lemma_root_is(r: int, n: int)
    requires
        is_root(r, n),
    ensures
        root(n) == r,
{
    let s = root(n);
    assert(is_root(s, n));
    if s < r {
        assert((s + 1) * (s + 1) <= r * r) by (nonlinear_arith)
            requires
                0 <= s,
                s + 1 <= r,
        ;
    }
    if s > r {
        assert((r + 1) * (r + 1) <= s * s) by (nonlinear_arith)
            requires
                0 <= r,
                r + 1 <= s,
        ;
    }
}

/// The sum of the squared distances of the values of `s` from `center`.
pub open spec fn squares_sum(s: Seq<i64>, center: int) -> int
    decreases s.len(),
{
    if s.len() == 0 {
        0
    } else {
        squares_sum(s.drop_last(), center) + (s.last() - center) * (s.last() - center)
    }
}

/// `x`, or the greatest `u128` where `x` exceeds it.
pub open spec fn capped(x: int) -> int {
    if x > u128::MAX {
        u128::MAX as int
    } else {
        x
    }
}

/// The standard deviation of `s` about its rounded mean: the integer
/// square root of the mean squared distance. A sum of squares beyond
/// the `u128` range counts as the greatest `u128`.
pub open spec fn standard_deviation(s: Seq<i64>) -> int
    recommends
        s.len() > 0,
{
    clamp(root(round_div(capped(squares_sum(s, mean(s))), s.len() as int)))
}

/// Appending a value adds its squared distance from the centre.
pub proof fn lemma_squares_sum_push(s: Seq<i64>, x: i64, center: int)
    ensures
        squares_sum(s.push(x), center) == squares_sum(s, center) + (x - center) * (x - center),
{
    assert(s.push(x).drop_last() =~= s);
}

/// A sum of squares is never negative.
pub proof fn lemma_squares_sum_not_negative(s: Seq<i64>, center: int)
    ensures
        squares_sum(s, center) >= 0,
    decreases s.len(),
{
    if s.len() > 0 {
        lemma_squares_sum_not_negative(s.drop_last(), center);
        let d = s.last() - center;
        assert(d * d >= 0) by (nonlinear_arith);
    }
}

/// The integer square root of `n`.
pub fn isqrt(n: u128) -> (r: u128)
    ensures
        r == root(n as int),
        r <= u64::MAX,
{
    let mut lo: u128 = 0;
    let mut hi: u128 = 0x1_0000_0000_0000_0000;
    assert(hi * hi > n) by (nonlinear_arith)
        requires
            hi == 0x1_0000_0000_0000_0000,
            n <= u128::MAX,
    ;
    assert(lo * lo <= n) by (nonlinear_arith)
        requires
            lo == 0,
            n >= 0,
    ;
    while hi - lo > 1
        invariant
            lo < hi <= 0x1_0000_0000_0000_0000,
            lo * lo <= n < hi * hi,
        decreases hi - lo,
    {
        let mid: u128 = lo + (hi - lo) / 2;
        assert(mid * mid <= u128::MAX) by (nonlinear_arith)
            requires
                0 <= mid < 0x1_0000_0000_0000_0000,
        ;
        if mid * mid <= n {
            lo = mid;
        } else {
            hi = mid;
        }
    }
    proof {
        assert(hi == lo + 1);
        lemma_root_is(lo as int, n as int);
    }
    lo
}

/// Standard deviation over a window of `N` values.
///
/// The sum of the window is kept up to date on every push; the squared
/// distances from the mean are summed afresh each time. The view is the
/// window, oldest value first.
#[derive(Debug, Clone)]
pub struct StandardDeviation<const N: usize> {
    window: CircularWindow<N>,
    sum: i128,
}

impl<const N: usize> View for StandardDeviation<N> {
    type V = Seq<i64>;

    closed spec fn view(&self) -> Seq<i64> {
        self.window@
    }
}

impl<const N: usize> StandardDeviation<N> {
    /// The window is well formed and the running sum is the sum of it.
    pub closed spec fn wf(&self) -> bool {
        &&& self.window.wf()
        &&& self.window.placeholder() == 0
        &&& self.sum == sum(self.window@)
    }

    /// A tracker that has seen nothing yet.
    pub fn new() -> (sd: Self)
        requires
            N >= 1,
        ensures
            sd.wf(),
            sd@ == Seq::<i64>::empty(),
    {
        StandardDeviation { window: CircularWindow::new(0), sum: 0 }
    }

    /// The window size.
    pub fn period(&self) -> (n: usize)
        ensures
            n == N,
    {
        N
    }

    /// The mean of the window, and zero while the window is empty.
    pub fn mean(&self) -> (m: i64)
        requires
            self.wf(),
        ensures
            m == if self@.len() == 0 {
                0
            } else {
                mean(self@)
            },
    {
        let live: usize = self.window.len();
        if live == 0 {
            0
        } else {
            proof {
                lemma_mean_in_range(self.window@);
            }
            div_round(self.sum, live as i128) as i64
        }
    }

    /// Takes `input` into the window and returns the standard deviation
    /// of the window.
    pub fn next(&mut self, input: i64) -> (out: i64)
        requires
            old(self).wf(),
        ensures
            final(self).wf(),
            final(self)@ == slide(old(self)@, input, N as nat),
            out == standard_deviation(final(self)@),
            out >= 0,
    {
        let ghost before = self.window@;
        proof {
            self.window.lemma_layout();
        }
        let evicted: i64 = self.window.push(input);
        let ghost after = self.window@;
        proof {
            lemma_sum_slide(before, input, N as nat);
            lemma_sum_fits(after);
            lemma_mean_in_range(after);
        }
        self.sum = self.sum + (input as i128 - evicted as i128);
        let live: usize = self.window.len();
        let center: i64 = div_round(self.sum, live as i128) as i64;
        let mut total: u128 = 0;
        let mut i: usize = 0;
        while i < live
            invariant
                self.window.wf(),
                self.window@ == after,
                live == after.len(),
                i <= live,
                total == capped(squares_sum(after.take(i as int), center as int)),
            decreases live - i,
        {
            let value: i64 = self.window.get(i);
            let gap: u128 = distance(value, center);
            proof {
                lemma_squares_sum_push(after.take(i as int), value, center as int);
                lemma_squares_sum_not_negative(after.take(i as int), center as int);
                assert(after.take(i as int).push(value) =~= after.take(i + 1));
                let d = value - center;
                assert(gap * gap == d * d) by (nonlinear_arith)
                    requires
                        gap == d || gap == -d,
                ;
                assert(0 <= gap * gap <= u128::MAX) by (nonlinear_arith)
                    requires
                        0 <= gap <= 0xffff_ffff_ffff_ffff,
                ;
            }
            let square: u128 = gap * gap;
            total = match total.checked_add(square) {
                Some(more) => more,
                None => u128::MAX,
            };
            i = i + 1;
        }
        proof {
            assert(after.take(live as int) =~= after);
        }
        let variance: u128 = div_round_unsigned(total, live as u128);
        saturate_unsigned(isqrt(variance))
    }

    /// Forgets every value: the tracker is as `new` made it.
    pub fn reset(&mut self)
        requires
            old(self).wf(),
        ensures
            final(self).wf(),
            final(self)@ == Seq::<i64>::empty(),
    {
        self.window.reset();
        self.sum = 0;
    }

    /// The label `SD(N)`.
    pub fn label(&self) -> (s: String)
        ensures
            s@ == label_text("SD"@, seq![decimal(N as nat)]),
    {
        period_label("SD", N)
    }
}

impl Default for StandardDeviation<9> {
    /// A tracker over nine values.
    fn default() -> (sd: Self)
        ensures
            sd.wf(),
            sd@ == Seq::<i64>::empty(),
    {
        StandardDeviation::new()
    }
}

} // verus!
