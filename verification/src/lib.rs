//! Calendar quarters as a small value type.
//!
//! A [`Quarter`] pairs one of the four [`QuarterNumber`]s with a year. Both
//! can be read from text, a quarter number also from a small integer, and a
//! quarter knows the quarter that follows it. Every conversion that can fail
//! reports the same [`ParseQuarterError`].

pub mod decimal;
pub mod error;
pub mod laws;
pub mod quarter;
pub mod quarter_number;
pub mod text;

pub use error::ParseQuarterError;
pub use quarter::Quarter;
pub use quarter_number::QuarterNumber;
