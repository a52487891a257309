//! The mathematics of a window's contents: sums, extremes, deviations and
//! path lengths of a finite sequence of raw values.

use crate::fixed::{abs, clamp, lemma_round_div_bounds, round_div};
use crate::window::slide;
use vstd::prelude::*;

verus! {

/// The sum of the values of `s`.
pub open spec fn sum(s: Seq<i64>) -> int
    decreases s.len(),
{
    if s.len() == 0 {
        0
    } else {
        sum(s.drop_last()) + s.last()
    }
}

/// The arithmetic mean of `s`, rounded to the nearest raw unit.
pub open spec fn mean(s: Seq<i64>) -> int
    recommends
        s.len() > 0,
{
    round_div(sum(s), s.len() as int)
}

/// `m` occurs in `s` and no value of `s` is greater.
pub open spec fn is_maximum_of(m: int, s: Seq<i64>) -> bool {
    &&& exists|i: int| 0 <= i < s.len() && s[i] == m
    &&& forall|i: int| 0 <= i < s.len() ==> s[i] <= m
}

/// `m` occurs in `s` and no value of `s` is smaller.
pub open spec fn is_minimum_of(m: int, s: Seq<i64>) -> bool {
    &&& exists|i: int| 0 <= i < s.len() && s[i] == m
    &&& forall|i: int| 0 <= i < s.len() ==> s[i] >= m
}

/// The greatest value of `s`.
pub open spec fn highest(s: Seq<i64>) -> int
    recommends
        s.len() > 0,
{
    choose|m: int| is_maximum_of(m, s)
}

/// The least value of `s`.
pub open spec fn lowest(s: Seq<i64>) -> int
    recommends
        s.len() > 0,
{
    choose|m: int| is_minimum_of(m, s)
}

/// A sequence has one maximum: whatever meets `is_maximum_of` is the
/// greatest value.
pub proof fn lemma_highest_is(m: int, s: Seq<i64>)
    requires
        is_maximum_of(m, s),
    ensures
        highest(s) == m,
{
    let h = highest(s);
    assert(is_maximum_of(h, s));
    let i = choose|i: int| 0 <= i < s.len() && s[i] == m;
    let j = choose|j: int| 0 <= j < s.len() && s[j] == h;
    assert(s[i] <= h);
    assert(s[j] <= m);
}

/// A sequence has one minimum: whatever meets `is_minimum_of` is the
/// least value.
pub proof fn lemma_lowest_is(m: int, s: Seq<i64>)
    requires
        is_minimum_of(m, s),
    ensures
        lowest(s) == m,
{
    let l = lowest(s);
    assert(is_minimum_of(l, s));
    let i = choose|i: int| 0 <= i < s.len() && s[i] == m;
    let j = choose|j: int| 0 <= j < s.len() && s[j] == l;
    assert(s[i] >= l);
    assert(s[j] >= m);
}

/// The sum of the distances of the values of `s` from `center`.
pub open spec fn deviation_sum(s: Seq<i64>, center: int) -> int
    decreases s.len(),
{
    if s.len() == 0 {
        0
    } else {
        deviation_sum(s.drop_last(), center) + abs(s.last() - center)
    }
}

/// The mean distance of the values of `s` from their rounded mean,
/// rounded to the nearest raw unit.
pub open spec fn mean_absolute_deviation(s: Seq<i64>) -> int
    recommends
        s.len() > 0,
{
    clamp(round_div(deviation_sum(s, mean(s)), s.len() as int))
}

/// The length of the path that starts at `origin` and visits the values
/// of `s` in order: the sum of the distances between neighbours.
pub open spec fn path_length(origin: int, s: Seq<i64>) -> int
    decreases s.len(),
{
    if s.len() == 0 {
        0
    } else if s.len() == 1 {
        abs(s[0] - origin)
    } else {
        path_length(origin, s.drop_last()) + abs(s.last() - s[s.len() - 2])
    }
}

/// Appending a value adds it to the sum.
pub proof fn lemma_sum_push(s: Seq<i64>, x: i64)
    ensures
        sum(s.push(x)) == sum(s) + x,
{
    assert(s.push(x).drop_last() =~= s);
}

/// Dropping the first value takes it off the sum.
pub proof fn lemma_sum_drop_first(s: Seq<i64>)
    requires
        s.len() > 0,
    ensures
        sum(s.drop_first()) == sum(s) - s[0],
    decreases s.len(),
{
    if s.len() == 1 {
        assert(s.drop_first() =~= Seq::<i64>::empty());
        assert(s.drop_last() =~= Seq::<i64>::empty());
    } else {
        lemma_sum_drop_first(s.drop_last());
        assert(s.drop_first().drop_last() =~= s.drop_last().drop_first());
    }
}

/// A sum lies between the length times the least and the greatest `i64`.
pub proof fn lemma_sum_bounds(s: Seq<i64>)
    ensures
        s.len() * i64::MIN <= sum(s) <= s.len() * i64::MAX,
    decreases s.len(),
{
    if s.len() > 0 {
        lemma_sum_bounds(s.drop_last());
        assert((s.len() - 1) * i64::MIN + i64::MIN == s.len() * i64::MIN) by (nonlinear_arith);
        assert((s.len() - 1) * i64::MAX + i64::MAX == s.len() * i64::MAX) by (nonlinear_arith);
    }
}

/// The sum of as many values as a `u64` can count is a value an `i128`
/// can hold.
pub proof fn lemma_sum_fits(s: Seq<i64>)
    requires
        s.len() <= u64::MAX,
    ensures
        i128::MIN < sum(s) < i128::MAX,
{
    lemma_sum_bounds(s);
    assert(s.len() * i64::MIN >= -0x7fff_ffff_ffff_ffff_8000_0000_0000_0000) by (nonlinear_arith)
        requires
            0 <= s.len() <= 0xffff_ffff_ffff_ffff,
    ;
    assert(s.len() * i64::MAX <= 0x7fff_ffff_ffff_ffff_8000_0000_0000_0000) by (nonlinear_arith)
        requires
            0 <= s.len() <= 0xffff_ffff_ffff_ffff,
    ;
}

/// When a value arrives in a window of capacity `capacity`, the sum
/// gains the arrival and loses the value that leaves, if one leaves.
pub proof fn lemma_sum_slide(window: Seq<i64>, x: i64, capacity: nat)
    requires
        capacity >= 1,
    ensures
        sum(slide(window, x, capacity)) == sum(window) + x - if window.len() < capacity {
            0
        } else {
            window[0] as int
        },
{
    if window.len() < capacity {
        lemma_sum_push(window, x);
    } else {
        lemma_sum_drop_first(window);
        lemma_sum_push(window.drop_first(), x);
    }
}

/// As many distances between `i64` values as a `u64` can count sum to a
/// value a `u128` can hold.
pub proof fn lemma_distances_fit(count: nat)
    requires
        count <= u64::MAX,
    ensures
        count * u64::MAX <= u128::MAX,
{
    assert(count * u64::MAX <= 0xffff_ffff_ffff_ffff * 0xffff_ffff_ffff_ffff) by (nonlinear_arith)
        requires
            0 <= count <= 0xffff_ffff_ffff_ffff,
    ;
}

/// The rounded mean of a non-empty sequence is a value an `i64` can hold.
pub proof fn lemma_mean_in_range(s: Seq<i64>)
    requires
        s.len() > 0,
    ensures
        i64::MIN <= mean(s) <= i64::MAX,
{
    lemma_sum_bounds(s);
    assert(i64::MIN * s.len() == s.len() * i64::MIN) by (nonlinear_arith);
    assert(i64::MAX * s.len() == s.len() * i64::MAX) by (nonlinear_arith);
    crate::fixed::lemma_round_div_bounds(
        sum(s),
        s.len() as int,
        i64::MIN as int,
        i64::MAX as int,
    );
}

/// Appending a value adds its distance from the centre.
pub proof fn lemma_deviation_sum_push(s: Seq<i64>, x: i64, center: int)
    ensures
        deviation_sum(s.push(x), center) == deviation_sum(s, center) + abs(x - center),
{
    assert(s.push(x).drop_last() =~= s);
}

/// No distance from a centre in the `i64` range exceeds `u64::MAX`, so
/// the sum of them is at most the length times that.
pub proof fn lemma_deviation_sum_bounds(s: Seq<i64>, center: int)
    requires
        i64::MIN <= center <= i64::MAX,
    ensures
        0 <= deviation_sum(s, center) <= s.len() * u64::MAX,
    decreases s.len(),
{
    if s.len() > 0 {
        lemma_deviation_sum_bounds(s.drop_last(), center);
        assert((s.len() - 1) * u64::MAX + u64::MAX == s.len() * u64::MAX) by (nonlinear_arith);
    }
}

/// A mean absolute deviation is never negative.
pub proof fn lemma_deviation_not_negative(s: Seq<i64>)
    requires
        s.len() > 0,
    ensures
        0 <= mean_absolute_deviation(s) <= i64::MAX,
{
    lemma_mean_in_range(s);
    lemma_deviation_sum_bounds(s, mean(s));
    let total = deviation_sum(s, mean(s));
    assert(0 * s.len() <= total <= total * s.len()) by (nonlinear_arith)
        requires
            total >= 0,
            s.len() >= 1,
    ;
    lemma_round_div_bounds(total, s.len() as int, 0, total);
}

/// Appending a value to a path adds its distance from the value before.
pub proof fn lemma_path_length_push(origin: int, s: Seq<i64>, x: i64)
    ensures
        path_length(origin, s.push(x)) == path_length(origin, s) + abs(
            x - (if s.len() == 0 {
                origin
            } else {
                s.last() as int
            }),
        ),
{
    assert(s.push(x).drop_last() =~= s);
}

/// A path is at least as long as the distance between its ends.
pub proof fn lemma_path_at_least_displacement(origin: int, s: Seq<i64>)
    requires
        s.len() > 0,
    ensures
        abs(s.last() - origin) <= path_length(origin, s),
    decreases s.len(),
{
    if s.len() > 1 {
        lemma_path_at_least_displacement(origin, s.drop_last());
    }
}

/// A path of `i64` values is at most its number of steps times `u64::MAX`.
pub proof fn lemma_path_length_bounds(origin: int, s: Seq<i64>)
    requires
        i64::MIN <= origin <= i64::MAX,
    ensures
        0 <= path_length(origin, s) <= s.len() * u64::MAX,
    decreases s.len(),
{
    if s.len() > 1 {
        lemma_path_length_bounds(origin, s.drop_last());
        assert((s.len() - 1) * u64::MAX + u64::MAX == s.len() * u64::MAX) by (nonlinear_arith);
    }
}

} // verus!
