//! The names that most callers want, in one place.

pub mod colors;
pub mod formats;

pub use crate::helpers::{IntoStyle, IntoStyled};
pub use crate::styles::basic_color::BasicColor;
pub use crate::styles::formatter::Formatter;
