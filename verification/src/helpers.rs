//! Conversions into styles and into styled texts.

use vstd::prelude::*;
use vstd::string::*;
use crate::styled_text::StyledText;
use crate::styles::basic_color::BasicColor;
use crate::styles::formatter::Formatter;
use crate::styles::paint_type::PaintType;
use crate::styles::palette::PaletteColor;
use crate::styles::rgb::Rgb;
use crate::styles::Styles;

verus! {

/// A value that can be pushed on a styled text as one style.
pub trait IntoStyle: Sized {
    /// The style that this value stands for.
    spec fn as_style(self) -> Styles;

    /// Wraps the value in the variant of `Styles` that belongs to it.
    fn into_style(self) -> (style: Styles)
        ensures
            style == self.as_style(),
    ;
}

impl IntoStyle for Styles {
    open spec fn as_style(self) -> Styles {
        self
    }

    fn into_style(self) -> (style: Styles) {
        self
    }
}

impl IntoStyle for Rgb {
    open spec fn as_style(self) -> Styles {
        Styles::Rgb(self)
    }

    fn into_style(self) -> (style: Styles) {
        Styles::Rgb(self)
    }
}

impl IntoStyle for BasicColor {
    open spec fn as_style(self) -> Styles {
        Styles::BasicColor(self)
    }

    fn into_style(self) -> (style: Styles) {
        Styles::BasicColor(self)
    }
}

impl IntoStyle for PaletteColor {
    open spec fn as_style(self) -> Styles {
        Styles::PaletteColor(self)
    }

    fn into_style(self) -> (style: Styles) {
        Styles::PaletteColor(self)
    }
}

impl IntoStyle for PaintType {
    open spec fn as_style(self) -> Styles {
        Styles::PaintType(self)
    }

    fn into_style(self) -> (style: Styles) {
        Styles::PaintType(self)
    }
}

impl IntoStyle for Formatter {
    open spec fn as_style(self) -> Styles {
        Styles::Formatter(self)
    }

    fn into_style(self) -> (style: Styles) {
        Styles::Formatter(self)
    }
}

/// A value that can become the text of a styled text.
pub trait IntoStyled: Sized {
    /// The characters of the text that this value becomes.
    spec fn as_text(self) -> Seq<char>;

    /// A styled text of this value, with no style yet.
    fn styled(self) -> (styled: StyledText)
        ensures
            styled@.text == self.as_text(),
            styled@.styles == Seq::<Styles>::empty(),
    ;
}

impl IntoStyled for &str {
    open spec fn as_text(self) -> Seq<char> {
        self@
    }

    fn styled(self) -> (styled: StyledText) {
        StyledText::new(String::from_str(self))
    }
}

impl IntoStyled for String {
    open spec fn as_text(self) -> Seq<char> {
        self@
    }

    fn styled(self) -> (styled: StyledText) {
        StyledText::new(self)
    }
}

} // verus!
