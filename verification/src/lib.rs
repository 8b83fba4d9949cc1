//! Terminal text styling: colors and formatters attached to a text and rendered as
//! ANSI SGR escape codes around it.

pub mod ansi_code;
pub mod decimal;
pub mod helpers;
pub mod laws;
pub mod prelude;
pub mod render;
pub mod styled_text;
pub mod styles;

pub use crate::styled_text::{styled, StyledText};
