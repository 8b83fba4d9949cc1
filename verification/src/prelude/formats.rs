//! The formatters.

pub use crate::styles::formatter::{
    bold, faint, italic, overline, rapid_blink, reset, slow_blink, underline,
};
