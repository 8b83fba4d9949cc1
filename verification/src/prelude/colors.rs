//! The sixteen basic colors.

pub use crate::styles::basic_color::{
    black, blue, bright_blue, bright_cyan, bright_green, bright_magenta, bright_red,
    bright_white, bright_yellow, cyan, gray, green, magenta, red, white, yellow,
};
