//! The error reported for a component outside its domain.

use vstd::prelude::*;

verus! {

/// One of the four components of a time of day.
#[derive(Clone, Copy, Debug, PartialEq, Eq, Hash, Structural)]
pub enum Component {
    /// The hour of the day, `0..=23`.
    Hour,
    /// The minute of the hour, `0..=59`.
    Minute,
    /// The second of the minute, `0..=59`.
    Second,
    /// The microsecond of the second, `0..=999_999`.
    Microsecond,
}

/// A component, given or derived from a microsecond count, lies outside its
/// domain. Where several do, `component` is the first of them in the order
/// hour, minute, second, microsecond.
#[derive(Clone, Copy, Debug, PartialEq, Eq, Hash, Structural)]
pub struct RangeError {
    /// The component that is out of range.
    pub component: Component,
}

} // verus!
