//! Colors given by their red, green and blue parts.

use vstd::prelude::*;
use vstd::string::*;
use super::paint_type::{resolve_target, PaintType};
use super::{color_selector, push_color_selector, Stylify};
use crate::decimal::{decimal, push_decimal};

verus! {

/// A 24-bit color.
#[derive(Debug, Clone, Copy, PartialEq, Eq, Structural)]
pub struct Rgb {
    pub r: u8,
    pub g: u8,
    pub b: u8,
}

impl Stylify for Rgb {
    /// `38;2;` or `48;2;`, then the three parts, separated by `;`.
    open spec fn parameter(&self, target: PaintType) -> Seq<char> {
        color_selector(target) + seq![';', '2', ';'] + decimal(self.r as nat) + seq![';']
            + decimal(self.g as nat) + seq![';'] + decimal(self.b as nat)
    }

    fn make_styles(&self, paint_type: Option<&PaintType>) -> (s: String) {
        let target = resolve_target(paint_type);
        let mut s = String::new();
        push_color_selector(&mut s, target);
        proof {
            reveal_strlit(";2;");
            reveal_strlit(";");
        }
        s.append(";2;");
        push_decimal(&mut s, self.r);
        s.append(";");
        push_decimal(&mut s, self.g);
        s.append(";");
        push_decimal(&mut s, self.b);
        assert(s@ =~= self.parameter(target));
        s
    }
}

} // verus!
