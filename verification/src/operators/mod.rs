//! Operators that can be attached to a piped sender.

pub mod distinct_until_changed;

pub use distinct_until_changed::DistinctUntilChanged;
