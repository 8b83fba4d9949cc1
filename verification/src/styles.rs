//! The catalog of styles: colors, formatters and the paint-type marker, each with the
//! parameter text it contributes to an SGR escape code.

use vstd::prelude::*;
use vstd::std_specs::convert::FromSpecImpl;
use vstd::string::*;

pub mod basic_color;
pub mod formatter;
pub mod paint_type;
pub mod palette;
pub mod rgb;

use basic_color::BasicColor;
use formatter::Formatter;
use paint_type::{target_or_default, PaintType};
use palette::PaletteColor;
use rgb::Rgb;

verus! {

/// A style that knows its SGR parameter text for a given target.
pub trait Stylify {
    /// The parameter text of this style when it is painted on `target`.
    spec fn parameter(&self, target: PaintType) -> Seq<char>;

    /// Produces the parameter text for `paint_type`; without one the style is painted
    /// on the foreground.
    fn make_styles(&self, paint_type: Option<&PaintType>) -> (s: String)
        ensures
            s@ == self.parameter(target_or_default(paint_type)),
    ;
}

/// The SGR number that opens an extended color: 38 for the foreground, 48 for the
/// background.
pub open spec fn color_selector(target: PaintType) -> Seq<char> {
    match target {
        PaintType::FG => seq!['3', '8'],
        PaintType::BG => seq!['4', '8'],
    }
}

/// Appends the number that opens an extended color on `target`.
pub fn push_color_selector(out: &mut String, target: PaintType)
    ensures
        final(out)@ == old(out)@ + color_selector(target),
{
    let ghost before = out@;
    proof {
        reveal_strlit("38");
        reveal_strlit("48");
    }
    match target {
        PaintType::FG => out.append("38"),
        PaintType::BG => out.append("48"),
    }
    assert(out@ =~= before + color_selector(target));
}

/// Any one style that can be attached to a text.
#[derive(Debug, Clone, Copy, PartialEq, Eq, Structural)]
pub enum Styles {
    /// A 24-bit color.
    Rgb(Rgb),
    /// One of the sixteen basic colors.
    BasicColor(BasicColor),
    /// A color of the 256-entry palette.
    PaletteColor(PaletteColor),
    /// A marker that sets the target of the colors before it.
    PaintType(PaintType),
    /// A text attribute.
    Formatter(Formatter),
}

impl Styles {
    /// The parameter text of the style inside, painted on `target`.
    pub open spec fn parameter(self, target: PaintType) -> Seq<char> {
        match self {
            Styles::Rgb(c) => c.parameter(target),
            Styles::BasicColor(c) => c.parameter(target),
            Styles::PaletteColor(c) => c.parameter(target),
            Styles::PaintType(c) => c.parameter(target),
            Styles::Formatter(c) => c.parameter(target),
        }
    }

    /// Produces the parameter text of the style inside for `paint_type`; without one
    /// the style is painted on the foreground.
    pub fn make_styles(&self, paint_type: Option<&PaintType>) -> (s: String)
        ensures
            s@ == self.parameter(target_or_default(paint_type)),
    {
        match self {
            Styles::BasicColor(c) => c.make_styles(paint_type),
            Styles::PaintType(c) => c.make_styles(paint_type),
            Styles::PaletteColor(c) => c.make_styles(paint_type),
            Styles::Rgb(c) => c.make_styles(paint_type),
            Styles::Formatter(c) => c.make_styles(paint_type),
        }
    }
}

impl From<Rgb> for Styles {
    /// A 24-bit color as a style.
    fn from(value: Rgb) -> (style: Styles) {
        Styles::Rgb(value)
    }
}

impl FromSpecImpl<Rgb> for Styles {
    open spec fn obeys_from_spec() -> bool {
        true
    }

    open spec fn from_spec(value: Rgb) -> Styles {
        Styles::Rgb(value)
    }
}

impl From<BasicColor> for Styles {
    /// A basic color as a style.
    fn from(value: BasicColor) -> (style: Styles) {
        Styles::BasicColor(value)
    }
}

impl FromSpecImpl<BasicColor> for Styles {
    open spec fn obeys_from_spec() -> bool {
        true
    }

    open spec fn from_spec(value: BasicColor) -> Styles {
        Styles::BasicColor(value)
    }
}

impl From<PaletteColor> for Styles {
    /// A palette color as a style.
    fn from(value: PaletteColor) -> (style: Styles) {
        Styles::PaletteColor(value)
    }
}

impl FromSpecImpl<PaletteColor> for Styles {
    open spec fn obeys_from_spec() -> bool {
        true
    }

    open spec fn from_spec(value: PaletteColor) -> Styles {
        Styles::PaletteColor(value)
    }
}

impl From<PaintType> for Styles {
    /// A paint type as the marker style.
    fn from(value: PaintType) -> (style: Styles) {
        Styles::PaintType(value)
    }
}

impl FromSpecImpl<PaintType> for Styles {
    open spec fn obeys_from_spec() -> bool {
        true
    }

    open spec fn from_spec(value: PaintType) -> Styles {
        Styles::PaintType(value)
    }
}

impl From<Formatter> for Styles {
    /// A formatter as a style.
    fn from(value: Formatter) -> (style: Styles) {
        Styles::Formatter(value)
    }
}

impl FromSpecImpl<Formatter> for Styles {
    open spec fn obeys_from_spec() -> bool {
        true
    }

    open spec fn from_spec(value: Formatter) -> Styles {
        Styles::Formatter(value)
    }
}

} // verus!
