//! Bollinger bands: the moving average and a band a multiple of the
//! standard deviation above and below it.

use crate::fixed::{clamp, mul_fixed, mul_fixed_spec, saturate};
use crate::label::{decimal, decimal_string, fixed_string, fixed_text, label, label_text, texts};
use crate::series::mean;
use crate::standard_deviation::{standard_deviation, StandardDeviation};
use crate::window::slide;
use vstd::prelude::*;

verus! {

/// One reading of the bands.
#[derive(Debug, Clone, Copy, PartialEq, Eq, Structural)]
pub struct BollingerBandsOutput {
    /// The mean of the window.
    pub average: i64,
    /// The mean plus the band.
    pub upper: i64,
    /// The mean less the band.
    pub lower: i64,
}

/// The bands read off a window: its mean, and the mean plus and less
/// the standard deviation times `multiplier`.
pub open spec fn bands(window: Seq<i64>, multiplier: int) -> BollingerBandsOutput
    recommends
        window.len() > 0,
{
    let band = mul_fixed_spec(standard_deviation(window), multiplier);
    BollingerBandsOutput {
        average: mean(window) as i64,
        upper: clamp(mean(window) + band) as i64,
        lower: clamp(mean(window) - band) as i64,
    }
}

/// Bollinger bands over a window of `N` values.
///
/// The view is the window, oldest value first.
#[derive(Debug, Clone)]
pub struct BollingerBands<const N: usize> {
    multiplier: i64,
    sd: StandardDeviation<N>,
}

impl<const N: usize> View for BollingerBands<N> {
    type V = Seq<i64>;

    closed spec fn view(&self) -> Seq<i64> {
        self.sd@
    }
}

impl<const N: usize> BollingerBands<N> {
    /// The deviation tracker is well formed.
    pub closed spec fn wf(&self) -> bool {
        &&& N >= 1
        &&& self.sd.wf()
    }

    /// The factor that the standard deviation is multiplied by.
    pub closed spec fn factor(&self) -> i64 {
        self.multiplier
    }

    /// Bands with the given factor that have seen nothing yet.
    pub fn new(multiplier: i64) -> (bb: Self)
        requires
            N >= 1,
        ensures
            bb.wf(),
            bb.factor() == multiplier,
            bb@ == Seq::<i64>::empty(),
    {
        BollingerBands { multiplier, sd: StandardDeviation::new() }
    }

    /// The factor that the standard deviation is multiplied by.
    pub fn multiplier(&self) -> (m: i64)
        ensures
            m == self.factor(),
    {
        self.multiplier
    }

    /// The window size.
    pub fn period(&self) -> (n: usize)
        ensures
            n == N,
    {
        N
    }

    /// Takes `input` into the window and returns the bands.
    pub fn next(&mut self, input: i64) -> (out: BollingerBandsOutput)
        requires
            old(self).wf(),
        ensures
            final(self).wf(),
            final(self).factor() == old(self).factor(),
            final(self)@ == slide(old(self)@, input, N as nat),
            out == bands(final(self)@, old(self).factor() as int),
    {
        let sd: i64 = self.sd.next(input);
        let mean: i64 = self.sd.mean();
        let band: i64 = mul_fixed(sd, self.multiplier);
        BollingerBandsOutput {
            average: mean,
            upper: saturate(mean as i128 + band as i128),
            lower: saturate(mean as i128 - band as i128),
        }
    }

    /// Forgets every value: the bands are as `new` made them, with the
    /// same factor.
    pub fn reset(&mut self)
        requires
            old(self).wf(),
        ensures
            final(self).wf(),
            final(self).factor() == old(self).factor(),
            final(self)@ == Seq::<i64>::empty(),
    {
        self.sd.reset();
    }

    /// The label `BB(N, multiplier)`.
    pub fn label(&self) -> (s: String)
        ensures
            s@ == label_text("BB"@, seq![decimal(N as nat), fixed_text(self.factor() as int)]),
    {
        let mut args: Vec<String> = Vec::new();
        args.push(decimal_string(N as u64));
        args.push(fixed_string(self.multiplier));
        assert(texts(args@) =~= seq![decimal(N as nat), fixed_text(self.factor() as int)]);
        label("BB", &args)
    }
}

impl Default for BollingerBands<9> {
    /// Bands over nine values with the factor two.
    fn default() -> (bb: Self)
        ensures
            bb.wf(),
            bb.factor() == 2_000_000,
            bb@ == Seq::<i64>::empty(),
    {
        BollingerBands::new(2_000_000)
    }
}

} // verus!
