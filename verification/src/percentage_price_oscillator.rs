//! Percentage price oscillator: the gap between a fast and a slow
//! exponential average as a percentage of the slow one, with a signal
//! line and their difference.

use crate::exponential_moving_average::{smooth, ExponentialMovingAverage};
use crate::fixed::{clamp, percent_change, percent_change_spec, saturate};
use crate::label::{decimal, decimal_string, label, label_text, texts};
use vstd::prelude::*;

verus! {

/// One reading of the oscillator.
#[derive(Debug, Clone, Copy, PartialEq, Eq, Structural)]
pub struct PercentagePriceOscillatorOutput {
    /// The gap between the fast and the slow average, in percent of the
    /// slow one.
    pub ppo: i64,
    /// The exponential average of `ppo`.
    pub signal: i64,
    /// `ppo` less `signal`.
    pub histogram: i64,
}

impl PercentagePriceOscillatorOutput {
    /// The three values in the order oscillator, signal, histogram.
    pub fn into_tuple(self) -> (t: (i64, i64, i64))
        ensures
            t == (self.ppo, self.signal, self.histogram),
    {
        (self.ppo, self.signal, self.histogram)
    }
}

/// The state of the three averages of an oscillator.
pub struct OscillatorState {
    /// The fast average of the input.
    pub fast: Option<i64>,
    /// The slow average of the input.
    pub slow: Option<i64>,
    /// The average of the oscillator's own readings.
    pub signal: Option<i64>,
}

/// The reading that follows state `before` when `input` arrives.
pub open spec fn reading(
    before: OscillatorState,
    input: int,
    fast_period: int,
    slow_period: int,
    signal_period: int,
) -> PercentagePriceOscillatorOutput {
    let fast = smooth(before.fast, input, fast_period);
    let slow = smooth(before.slow, input, slow_period);
    let ppo = percent_change_spec(fast, slow);
    let signal = smooth(before.signal, ppo, signal_period);
    PercentagePriceOscillatorOutput {
        ppo: ppo as i64,
        signal: signal as i64,
        histogram: clamp(ppo - signal) as i64,
    }
}

/// Percentage price oscillator with periods `FAST`, `SLOW` and `SIGNAL`.
#[derive(Debug, Clone)]
pub struct PercentagePriceOscillator<const FAST: usize, const SLOW: usize, const SIGNAL: usize> {
    fast_ema: ExponentialMovingAverage<FAST>,
    slow_ema: ExponentialMovingAverage<SLOW>,
    signal_ema: ExponentialMovingAverage<SIGNAL>,
}

impl<const FAST: usize, const SLOW: usize, const SIGNAL: usize> View for PercentagePriceOscillator<
    FAST,
    SLOW,
    SIGNAL,
> {
    type V = OscillatorState;

    closed spec fn view(&self) -> OscillatorState {
        OscillatorState { fast: self.fast_ema@, slow: self.slow_ema@, signal: self.signal_ema@ }
    }
}

impl<const FAST: usize, const SLOW: usize, const SIGNAL: usize> PercentagePriceOscillator<
    FAST,
    SLOW,
    SIGNAL,
> {
    /// The three averages are well formed.
    pub closed spec fn wf(&self) -> bool {
        &&& self.fast_ema.wf()
        &&& self.slow_ema.wf()
        &&& self.signal_ema.wf()
        &&& FAST >= 1
        &&& SLOW >= 1
        &&& SIGNAL >= 1
    }

    /// An oscillator that has seen nothing yet.
    pub fn new() -> (ppo: Self)
        requires
            FAST >= 1,
            SLOW >= 1,
            SIGNAL >= 1,
        ensures
            ppo.wf(),
            ppo@ == (OscillatorState { fast: None, slow: None, signal: None }),
    {
        PercentagePriceOscillator {
            fast_ema: ExponentialMovingAverage::new(),
            slow_ema: ExponentialMovingAverage::new(),
            signal_ema: ExponentialMovingAverage::new(),
        }
    }

    /// Takes `input` into both averages and returns the new reading.
    pub fn next(&mut self, input: i64) -> (out: PercentagePriceOscillatorOutput)
        requires
            old(self).wf(),
        ensures
            final(self).wf(),
            out == reading(old(self)@, input as int, FAST as int, SLOW as int, SIGNAL as int),
            final(self)@ == (OscillatorState {
                fast: Some(smooth(old(self)@.fast, input as int, FAST as int) as i64),
                slow: Some(smooth(old(self)@.slow, input as int, SLOW as int) as i64),
                signal: Some(out.signal),
            }),
    {
        let fast_val: i64 = self.fast_ema.next(input);
        let slow_val: i64 = self.slow_ema.next(input);
        let ppo: i64 = percent_change(fast_val, slow_val);
        let signal: i64 = self.signal_ema.next(ppo);
        let histogram: i64 = saturate(ppo as i128 - signal as i128);
        PercentagePriceOscillatorOutput { ppo, signal, histogram }
    }

    /// Forgets every value: the oscillator is as `new` made it.
    pub fn reset(&mut self)
        requires
            old(self).wf(),
        ensures
            final(self).wf(),
            final(self)@ == (OscillatorState { fast: None, slow: None, signal: None }),
    {
        self.fast_ema.reset();
        self.slow_ema.reset();
        self.signal_ema.reset();
    }

    /// The label `PPO(FAST, SLOW, SIGNAL)`.
    pub fn label(&self) -> (s: String)
        ensures
            s@ == label_text(
                "PPO"@,
                seq![decimal(FAST as nat), decimal(SLOW as nat), decimal(SIGNAL as nat)],
            ),
    {
        let mut args: Vec<String> = Vec::new();
        args.push(decimal_string(self.fast_ema.period() as u64));
        args.push(decimal_string(self.slow_ema.period() as u64));
        args.push(decimal_string(self.signal_ema.period() as u64));
        assert(texts(args@) =~= seq![
            decimal(FAST as nat),
            decimal(SLOW as nat),
            decimal(SIGNAL as nat),
        ]);
        label("PPO", &args)
    }
}

impl Default for PercentagePriceOscillator<12, 26, 9> {
    /// An oscillator with the customary periods 12, 26 and 9.
    fn default() -> (ppo: Self)
        ensures
            ppo.wf(),
            ppo@ == (OscillatorState { fast: None, slow: None, signal: None }),
    {
        PercentagePriceOscillator::new()
    }
}

} // verus!
