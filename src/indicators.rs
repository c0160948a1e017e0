//! Indicators: derived time series computed from ordered sequences of values.
pub mod averages;
pub mod momentum;
