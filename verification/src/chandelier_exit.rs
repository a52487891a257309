//! Chandelier exit: trailing stops hung a multiple of the average true
//! range below the highest high and above the lowest low.

use crate::average_true_range::{AverageTrueRange, RangeState};
use crate::bar::Bar;
use crate::exponential_moving_average::smooth;
use crate::fixed::{clamp, mul_fixed, mul_fixed_spec, saturate};
use crate::label::{decimal, decimal_string, fixed_string, fixed_text, label, label_text, texts};
use crate::maximum::Maximum;
use crate::minimum::Minimum;
use crate::series::{highest, lowest};
use crate::true_range::true_range;
use crate::window::slide;
use vstd::prelude::*;

verus! {

/// The two stops of one reading.
#[derive(Debug, Clone, Copy, PartialEq, Eq, Structural)]
pub struct ChandelierExitOutput {
    /// The stop for a long position.
    pub long: i64,
    /// The stop for a short position.
    pub short: i64,
}

impl ChandelierExitOutput {
    /// The two stops in the order long, short.
    pub fn into_tuple(self) -> (t: (i64, i64))
        ensures
            t == (self.long, self.short),
    {
        (self.long, self.short)
    }
}

/// What a chandelier exit remembers.
pub struct ExitState {
    /// The previous close and the average true range.
    pub range: RangeState,
    /// The window of highs, oldest first.
    pub highs: Seq<i64>,
    /// The window of lows, oldest first.
    pub lows: Seq<i64>,
}

/// The state that follows `before` when `bar` arrives.
pub open spec fn exit_step(before: ExitState, bar: Bar, n: int) -> ExitState {
    ExitState {
        range: RangeState {
            previous_close: Some(bar.close),
            average: Some(
                smooth(
                    before.range.average,
                    true_range(before.range.previous_close, bar.high as int, bar.low as int),
                    n,
                ) as i64,
            ),
        },
        highs: slide(before.highs, bar.high, n as nat),
        lows: slide(before.lows, bar.low, n as nat),
    }
}

/// The stops read off `state`: the highest high less the band and the
/// lowest low plus the band, the band being the average true range
/// times `multiplier`.
pub open spec fn exit_reading(state: ExitState, multiplier: int) -> ChandelierExitOutput {
    let band = mul_fixed_spec(state.range.average.unwrap() as int, multiplier);
    ChandelierExitOutput {
        long: clamp(highest(state.highs) - band) as i64,
        short: clamp(lowest(state.lows) + band) as i64,
    }
}

/// Chandelier exit over a window of `N` observations.
#[derive(Debug, Clone)]
pub struct ChandelierExit<const N: usize> {
    atr: AverageTrueRange<N>,
    min: Minimum<N>,
    max: Maximum<N>,
    multiplier: i64,
}

impl<const N: usize> View for ChandelierExit<N> {
    type V = ExitState;

    closed spec fn view(&self) -> ExitState {
        ExitState { range: self.atr@, highs: self.max@, lows: self.min@ }
    }
}

impl<const N: usize> ChandelierExit<N> {
    /// The three parts are well formed.
    pub closed spec fn wf(&self) -> bool {
        &&& N >= 1
        &&& self.atr.wf()
        &&& self.min.wf()
        &&& self.max.wf()
    }

    /// The factor that the average true range is multiplied by.
    pub closed spec fn factor(&self) -> i64 {
        self.multiplier
    }

    /// An exit with the given factor that has seen nothing yet.
    pub fn new(multiplier: i64) -> (ce: Self)
        requires
            N >= 1,
        ensures
            ce.wf(),
            ce.factor() == multiplier,
            ce@ == (ExitState {
                range: RangeState { previous_close: None, average: None },
                highs: Seq::<i64>::empty(),
                lows: Seq::<i64>::empty(),
            }),
    {
        ChandelierExit {
            atr: AverageTrueRange::new(),
            min: Minimum::new(),
            max: Maximum::new(),
            multiplier,
        }
    }

    /// The factor that the average true range is multiplied by.
    pub fn multiplier(&self) -> (m: i64)
        ensures
            m == self.factor(),
    {
        self.multiplier
    }

    /// The window size.
    pub fn period(&self) -> (n: usize)
        ensures
            n == N,
    {
        N
    }

    /// Takes `bar` and returns the two stops.
    pub fn next(&mut self, bar: &Bar) -> (out: ChandelierExitOutput)
        requires
            old(self).wf(),
        ensures
            final(self).wf(),
            final(self).factor() == old(self).factor(),
            final(self)@ == exit_step(old(self)@, *bar, N as int),
            out == exit_reading(final(self)@, old(self).factor() as int),
    {
        let band: i64 = mul_fixed(self.atr.next_bar(bar), self.multiplier);
        let min: i64 = self.min.next(bar.low);
        let max: i64 = self.max.next(bar.high);
        ChandelierExitOutput {
            long: saturate(max as i128 - band as i128),
            short: saturate(min as i128 + band as i128),
        }
    }

    /// Forgets every observation: the exit is as `new` made it, with the
    /// same factor.
    pub fn reset(&mut self)
        requires
            old(self).wf(),
        ensures
            final(self).wf(),
            final(self).factor() == old(self).factor(),
            final(self)@ == (ExitState {
                range: RangeState { previous_close: None, average: None },
                highs: Seq::<i64>::empty(),
                lows: Seq::<i64>::empty(),
            }),
    {
        self.atr.reset();
        self.min.reset();
        self.max.reset();
    }

    /// The label `CE(N, multiplier)`.
    pub fn label(&self) -> (s: String)
        ensures
            s@ == label_text("CE"@, seq![decimal(N as nat), fixed_text(self.factor() as int)]),
    {
        let mut args: Vec<String> = Vec::new();
        args.push(decimal_string(N as u64));
        args.push(fixed_string(self.multiplier));
        assert(texts(args@) =~= seq![decimal(N as nat), fixed_text(self.factor() as int)]);
        label("CE", &args)
    }
}

impl Default for ChandelierExit<22> {
    /// An exit over twenty-two observations with the factor three.
    fn default() -> (ce: Self)
        ensures
            ce.wf(),
            ce.factor() == 3_000_000,
            ce@ == (ExitState {
                range: RangeState { previous_close: None, average: None },
                highs: Seq::<i64>::empty(),
                lows: Seq::<i64>::empty(),
            }),
    {
        ChandelierExit::new(3_000_000)
    }
}

} // verus!
