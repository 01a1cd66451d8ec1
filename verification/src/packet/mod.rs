//! Over-the-air packet formats.
pub mod v1;
