//! One-time builders for bringing the parts of a board together.

pub mod i2c;
