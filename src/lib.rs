//! Unit-safe financial values and the indicators computed over them.
//!
//! - `market_value`: the value algebra, the operators that every numeric value
//!   type offers, and the relative arithmetic of percentages.
//! - `indicators`: moving averages and momentum, written once for any value
//!   type of the algebra.
//! - `price`: a raw magnitude tagged with its currency, alone or on a date.
//! - `units`: currencies, crypto currencies and metals, by their codes.
//! - `price_map`: the keyed and sequence encodings of a price, and the rules
//!   for reading them back.
//! - `primitive_value`: the plain forms a value can be read from.
pub mod indicators;
pub mod market_value;
pub mod price;
pub mod price_map;
pub mod primitive_value;
pub mod units;

mod text;

pub use market_value::{MarketValue, Scalar};
