//! The names that most callers need.

pub use crate::compute::compute_layout;
pub use crate::error::{TaffyError, TaffyResult};
pub use crate::geometry::{Axis, Length, Rect, Size};
pub use crate::layout::{AvailableSpace, Layout};
pub use crate::node::{Measurable, Node, Taffy};
pub use crate::scalar::Scalar;
pub use crate::style::{
    AlignContent, AlignItems, AlignSelf, Constraints, Dimension, Display, FlexDirection, FlexWrap,
    JustifyContent, PositionType, Style,
};
pub use crate::tree::LayoutTree;
