//! Time of day as a count of microseconds since midnight, and as a clock
//! reading of hour, minute, second and microsecond.
//!
//! The two forms are converted into each other exactly: every count in
//! `0..86_400_000_000` has one valid clock reading, every valid clock reading
//! has one count, and nothing outside that range is accepted.

pub mod clock;
pub mod datum;
pub mod model;
pub mod range;
pub mod text;

pub use crate::clock::Time;
pub use crate::model::TimeOfDay;
pub use crate::range::{Component, RangeError};
