//! Text attributes that are not colors: bold, italic, underline and the like.

use vstd::prelude::*;
use super::paint_type::PaintType;
use super::Stylify;
use crate::decimal::{decimal, push_decimal};

verus! {

/// A text attribute, held as its SGR code.
#[derive(Debug, Clone, Copy, PartialEq, Eq, Structural)]
pub struct Formatter {
    pub code: u8,
}

impl Stylify for Formatter {
    /// The decimal numeral of the code; the target plays no part.
    open spec fn parameter(&self, target: PaintType) -> Seq<char> {
        decimal(self.code as nat)
    }

    fn make_styles(&self, _paint_type: Option<&PaintType>) -> (s: String) {
        let mut s = String::new();
        push_decimal(&mut s, self.code);
        assert(s@ =~= decimal(self.code as nat));
        s
    }
}

/// Clears every attribute and color set so far: code 0.
pub fn reset() -> (f: Formatter)
    ensures
        f == (Formatter { code: 0 }),
{
    Formatter { code: 0 }
}

/// Bold: code 1.
pub fn bold() -> (f: Formatter)
    ensures
        f == (Formatter { code: 1 }),
{
    Formatter { code: 1 }
}

/// Faint: code 2.
pub fn faint() -> (f: Formatter)
    ensures
        f == (Formatter { code: 2 }),
{
    Formatter { code: 2 }
}

/// Italic: code 3.
pub fn italic() -> (f: Formatter)
    ensures
        f == (Formatter { code: 3 }),
{
    Formatter { code: 3 }
}

/// Underline: code 4.
pub fn underline() -> (f: Formatter)
    ensures
        f == (Formatter { code: 4 }),
{
    Formatter { code: 4 }
}

/// Slow blink: code 5.
pub fn slow_blink() -> (f: Formatter)
    ensures
        f == (Formatter { code: 5 }),
{
    Formatter { code: 5 }
}

/// Rapid blink: code 6.
pub fn rapid_blink() -> (f: Formatter)
    ensures
        f == (Formatter { code: 6 }),
{
    Formatter { code: 6 }
}

/// Overline: code 53.
pub fn overline() -> (f: Formatter)
    ensures
        f == (Formatter { code: 53 }),
{
    Formatter { code: 53 }
}

} // verus!
