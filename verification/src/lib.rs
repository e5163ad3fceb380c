//! Ranged integer types: wrappers around fixed-width integers that are
//! guaranteed to hold a value inside a statically declared inclusive
//! range, so that a bound checked once at construction can be relied on
//! by every consumer afterwards.

pub mod numeric;
pub mod render;
