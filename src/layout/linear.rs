//! Views placed in a line.
pub mod spacing;
