//! The part of a cell that a color is painted on.

use vstd::prelude::*;
use super::Stylify;

verus! {

/// Where a color goes: on the glyph or behind it.
///
/// Inside a list of styles a paint type is a marker: it emits no code of its own and
/// decides the target of the colors that were pushed before it.
#[derive(Debug, Clone, Copy, PartialEq, Eq, Structural)]
pub enum PaintType {
    /// Foreground paint.
    FG,
    /// Background paint.
    BG,
}

/// The target that a style is resolved against: the one given, or the foreground
/// when none is given.
pub open spec fn target_or_default(paint_type: Option<&PaintType>) -> PaintType {
    match paint_type {
        Some(p) => *p,
        None => PaintType::FG,
    }
}

/// The target in executable code, with the foreground as the default.
pub fn resolve_target(paint_type: Option<&PaintType>) -> (target: PaintType)
    ensures
        target == target_or_default(paint_type),
{
    match paint_type {
        Some(p) => *p,
        None => PaintType::FG,
    }
}

impl Stylify for PaintType {
    /// A paint type has no parameter of its own.
    open spec fn parameter(&self, target: PaintType) -> Seq<char> {
        Seq::empty()
    }

    /// Returns the empty string, whatever the target.
    fn make_styles(&self, _paint_type: Option<&PaintType>) -> (s: String) {
        String::new()
    }
}

} // verus!
