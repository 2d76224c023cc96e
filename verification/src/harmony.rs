//! The harmonizer and what it rests on: the range of a scale and a seeded
//! coin.

pub mod coin;
pub mod kraehenbuehl_knuth;
pub mod scale_range;

pub use coin::Coin;
pub use kraehenbuehl_knuth::{Harmony, KraehenbuehlKnuth};
pub use scale_range::{LookupError, ScaleRange};
