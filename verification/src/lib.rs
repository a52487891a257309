//! Streaming technical-analysis indicators over fixed-point numbers.
//!
//! An indicator is made once with a fixed window size, takes one
//! observation at a time and answers with its reading; `reset` returns it
//! to the state it was made in. Memory is bounded by the window size and
//! nothing is ever recomputed from the whole stream.
//!
//! All values are `i64` counts of millionths (see [`fixed`]): sums are
//! exact, quotients are rounded to the nearest millionth, and a result
//! beyond the `i64` range saturates. Every function is verified against
//! a contract over the window contents, and no function panics.
//!
//! The building blocks are the [`CircularWindow`], the moving averages,
//! the windowed [`Maximum`] and [`Minimum`], the
//! [`MeanAbsoluteDeviation`], the [`MoneyFlowIndex`] and the
//! [`EfficiencyRatio`]; the other indicators are fixed pipelines of
//! these.

pub mod average_true_range;
pub mod bar;
pub mod bollinger_bands;
pub mod chandelier_exit;
pub mod commodity_channel_index;
pub mod efficiency_ratio;
pub mod exponential_moving_average;
pub mod fast_stochastic;
pub mod fixed;
pub mod label;
pub mod maximum;
pub mod mean_absolute_deviation;
pub mod minimum;
pub mod money_flow_index;
pub mod percentage_price_oscillator;
pub mod rate_of_change;
pub mod relative_strength_index;
pub mod series;
pub mod simple_moving_average;
pub mod slow_stochastic;
pub mod standard_deviation;
pub mod true_range;
pub mod window;

pub use average_true_range::AverageTrueRange;
pub use bar::Bar;
pub use bollinger_bands::{BollingerBands, BollingerBandsOutput};
pub use chandelier_exit::{ChandelierExit, ChandelierExitOutput};
pub use commodity_channel_index::CommodityChannelIndex;
pub use efficiency_ratio::EfficiencyRatio;
pub use exponential_moving_average::ExponentialMovingAverage;
pub use fast_stochastic::FastStochastic;
pub use maximum::Maximum;
pub use mean_absolute_deviation::MeanAbsoluteDeviation;
pub use minimum::Minimum;
pub use money_flow_index::MoneyFlowIndex;
pub use percentage_price_oscillator::{PercentagePriceOscillator, PercentagePriceOscillatorOutput};
pub use rate_of_change::RateOfChange;
pub use relative_strength_index::RelativeStrengthIndex;
pub use simple_moving_average::SimpleMovingAverage;
pub use slow_stochastic::SlowStochastic;
pub use standard_deviation::StandardDeviation;
pub use true_range::TrueRange;
pub use window::CircularWindow;
