//! The sixteen basic colors, each a pair of SGR codes.

use vstd::prelude::*;
use super::paint_type::{resolve_target, PaintType};
use super::Stylify;
use crate::decimal::{decimal, push_decimal};

verus! {

/// A basic color: the SGR code that paints it on the foreground and the one that
/// paints it on the background.
#[derive(Debug, Clone, Copy, PartialEq, Eq, Structural)]
pub struct BasicColor {
    pub fg: u8,
    pub bg: u8,
}

impl BasicColor {
    /// The code of this color for `target`.
    pub open spec fn code(self, target: PaintType) -> u8 {
        match target {
            PaintType::FG => self.fg,
            PaintType::BG => self.bg,
        }
    }
}

impl Stylify for BasicColor {
    /// The decimal numeral of the code that belongs to the target.
    open spec fn parameter(&self, target: PaintType) -> Seq<char> {
        decimal(self.code(target) as nat)
    }

    fn make_styles(&self, paint_type: Option<&PaintType>) -> (s: String) {
        let code: u8 = match resolve_target(paint_type) {
            PaintType::FG => self.fg,
            PaintType::BG => self.bg,
        };
        let mut s = String::new();
        push_decimal(&mut s, code);
        assert(s@ =~= decimal(code as nat));
        s
    }
}

/// Black: 30 on the foreground, 40 on the background.
pub fn black() -> (c: BasicColor)
    ensures
        c == (BasicColor { fg: 30, bg: 40 }),
{
    BasicColor { fg: 30, bg: 40 }
}

/// Red: 31 on the foreground, 41 on the background.
pub fn red() -> (c: BasicColor)
    ensures
        c == (BasicColor { fg: 31, bg: 41 }),
{
    BasicColor { fg: 31, bg: 41 }
}

/// Green: 32 on the foreground, 42 on the background.
pub fn green() -> (c: BasicColor)
    ensures
        c == (BasicColor { fg: 32, bg: 42 }),
{
    BasicColor { fg: 32, bg: 42 }
}

/// Yellow: 33 on the foreground, 43 on the background.
pub fn yellow() -> (c: BasicColor)
    ensures
        c == (BasicColor { fg: 33, bg: 43 }),
{
    BasicColor { fg: 33, bg: 43 }
}

/// Blue: 34 on the foreground, 44 on the background.
pub fn blue() -> (c: BasicColor)
    ensures
        c == (BasicColor { fg: 34, bg: 44 }),
{
    BasicColor { fg: 34, bg: 44 }
}

/// Magenta: 35 on the foreground, 45 on the background.
pub fn magenta() -> (c: BasicColor)
    ensures
        c == (BasicColor { fg: 35, bg: 45 }),
{
    BasicColor { fg: 35, bg: 45 }
}

/// Cyan: 36 on the foreground, 46 on the background.
pub fn cyan() -> (c: BasicColor)
    ensures
        c == (BasicColor { fg: 36, bg: 46 }),
{
    BasicColor { fg: 36, bg: 46 }
}

/// White: 37 on the foreground, 47 on the background.
pub fn white() -> (c: BasicColor)
    ensures
        c == (BasicColor { fg: 37, bg: 47 }),
{
    BasicColor { fg: 37, bg: 47 }
}

/// Gray: 90 on the foreground, 100 on the background.
pub fn gray() -> (c: BasicColor)
    ensures
        c == (BasicColor { fg: 90, bg: 100 }),
{
    BasicColor { fg: 90, bg: 100 }
}

/// Bright red: 91 on the foreground, 101 on the background.
pub fn bright_red() -> (c: BasicColor)
    ensures
        c == (BasicColor { fg: 91, bg: 101 }),
{
    BasicColor { fg: 91, bg: 101 }
}

/// Bright green: 92 on the foreground, 102 on the background.
pub fn bright_green() -> (c: BasicColor)
    ensures
        c == (BasicColor { fg: 92, bg: 102 }),
{
    BasicColor { fg: 92, bg: 102 }
}

/// Bright yellow: 93 on the foreground, 103 on the background.
pub fn bright_yellow() -> (c: BasicColor)
    ensures
        c == (BasicColor { fg: 93, bg: 103 }),
{
    BasicColor { fg: 93, bg: 103 }
}

/// Bright blue: 94 on the foreground, 104 on the background.
pub fn bright_blue() -> (c: BasicColor)
    ensures
        c == (BasicColor { fg: 94, bg: 104 }),
{
    BasicColor { fg: 94, bg: 104 }
}

/// Bright magenta: 95 on the foreground, 105 on the background.
pub fn bright_magenta() -> (c: BasicColor)
    ensures
        c == (BasicColor { fg: 95, bg: 105 }),
{
    BasicColor { fg: 95, bg: 105 }
}

/// Bright cyan: 96 on the foreground, 106 on the background.
pub fn bright_cyan() -> (c: BasicColor)
    ensures
        c == (BasicColor { fg: 96, bg: 106 }),
{
    BasicColor { fg: 96, bg: 106 }
}

/// Bright white: 97 on the foreground, 107 on the background.
pub fn bright_white() -> (c: BasicColor)
    ensures
        c == (BasicColor { fg: 97, bg: 107 }),
{
    BasicColor { fg: 97, bg: 107 }
}

} // verus!
