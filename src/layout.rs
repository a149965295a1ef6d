//! Arranging views one after another.
pub mod linear;
