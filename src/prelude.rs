//! The items most users need, in one place.
pub use crate::align::{Align, Alignment, AlignmentPosition};
pub use crate::component::Component;
pub use crate::padding::Padding;
pub use crate::{ContainsPoint, View};
