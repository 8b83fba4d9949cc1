//! What a styled text looks like once rendered, stated over sequences.

use vstd::prelude::*;
use crate::ansi_code::escape;
use crate::styles::paint_type::PaintType;
use crate::styles::Styles;

verus! {

/// The target set by the first marker at position `i` or later; the foreground where
/// no marker follows.
pub open spec fn target_from(styles: Seq<Styles>, i: int) -> PaintType
    decreases styles.len() - i,
{
    if i < 0 || i >= styles.len() {
        PaintType::FG
    } else {
        match styles[i] {
            Styles::PaintType(p) => p,
            _ => target_from(styles, i + 1),
        }
    }
}

/// The escape code that the style at position `i` contributes: none for a marker,
/// else the style's parameter for the target that the next marker sets.
pub open spec fn code_at(styles: Seq<Styles>, i: int) -> Seq<char>
    recommends
        0 <= i < styles.len(),
{
    match styles[i] {
        Styles::PaintType(_) => Seq::empty(),
        s => escape(s.parameter(target_from(styles, i + 1))),
    }
}

/// The escape codes of the styles from position `i` on, in the order they were pushed.
pub open spec fn codes_from(styles: Seq<Styles>, i: int) -> Seq<char>
    decreases styles.len() - i,
{
    if i < 0 || i >= styles.len() {
        Seq::empty()
    } else {
        code_at(styles, i) + codes_from(styles, i + 1)
    }
}

/// The escape code that ends every rendered text: it resets all attributes.
pub open spec fn reset_code() -> Seq<char> {
    seq!['\x1b', '[', '0', 'm']
}

/// The rendered text: the codes of all styles, the text itself, the reset code.
pub open spec fn rendered(text: Seq<char>, styles: Seq<Styles>) -> Seq<char> {
    codes_from(styles, 0) + text + reset_code()
}

} // verus!
