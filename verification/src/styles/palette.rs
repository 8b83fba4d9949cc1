//! Colors of the 256-entry palette.

use vstd::prelude::*;
use vstd::string::*;
use super::paint_type::{resolve_target, PaintType};
use super::{color_selector, push_color_selector, Stylify};
use crate::decimal::{decimal, push_decimal};

verus! {

/// A color of the terminal's palette, by its index.
#[derive(Debug, Clone, Copy, PartialEq, Eq, Structural)]
pub struct PaletteColor {
    pub index: u8,
}

impl Stylify for PaletteColor {
    /// `38;5;` or `48;5;`, then the index.
    open spec fn parameter(&self, target: PaintType) -> Seq<char> {
        color_selector(target) + seq![';', '5', ';'] + decimal(self.index as nat)
    }

    fn make_styles(&self, paint_type: Option<&PaintType>) -> (s: String) {
        let target = resolve_target(paint_type);
        let mut s = String::new();
        push_color_selector(&mut s, target);
        proof {
            reveal_strlit(";5;");
        }
        s.append(";5;");
        push_decimal(&mut s, self.index);
        assert(s@ =~= self.parameter(target));
        s
    }
}

} // verus!
