//! A text with the styles attached to it, and its rendering.

use vstd::prelude::*;
use vstd::std_specs::convert::IntoSpec;
use vstd::string::*;
use crate::ansi_code::ANSIEscapeCode;
use crate::helpers::{IntoStyle, IntoStyled};
use crate::render::{codes_from, rendered, target_from};
use crate::styles::basic_color::{self, BasicColor};
use crate::styles::formatter::{self, Formatter};
use crate::styles::paint_type::PaintType;
use crate::styles::palette::PaletteColor;
use crate::styles::rgb::Rgb;
use crate::styles::Styles;

verus! {

/// A text and the styles pushed on it, oldest first.
pub struct StyledText {
    text: String,
    start_styles: Vec<Styles>,
}

/// What a styled text holds, as sequences.
pub struct StyledTextView {
    pub text: Seq<char>,
    pub styles: Seq<Styles>,
}

impl StyledTextView {
    /// The same text with `style` behind the styles already there.
    pub open spec fn pushed(self, style: Styles) -> StyledTextView {
        StyledTextView { text: self.text, styles: self.styles.push(style) }
    }
}

impl View for StyledText {
    type V = StyledTextView;

    closed spec fn view(&self) -> StyledTextView {
        StyledTextView { text: self.text@, styles: self.start_styles@ }
    }
}

/// The codes in `codes`, newest first, as one text.
spec fn joined_newest_first(codes: Seq<String>) -> Seq<char>
    decreases codes.len(),
{
    if codes.len() == 0 {
        Seq::empty()
    } else {
        codes.last()@ + joined_newest_first(codes.drop_last())
    }
}

/// A styled text of `text`, with no style yet.
pub fn styled<S: IntoStyled>(text: S) -> (styled: StyledText)
    ensures
        styled@.text == text.as_text(),
        styled@.styles == Seq::<Styles>::empty(),
{
    text.styled()
}

impl StyledText {
    /// A text with no style yet.
    pub fn new(text: String) -> (styled: Self)
        ensures
            styled@.text == text@,
            styled@.styles == Seq::<Styles>::empty(),
    {
        StyledText { text, start_styles: Vec::new() }
    }

    /// The styles pushed so far, oldest first.
    pub fn styles(&self) -> (styles: &Vec<Styles>)
        ensures
            styles@ == self@.styles,
    {
        &self.start_styles
    }

    /// Pushes one style behind those already there.
    pub fn push<S: IntoStyle>(&mut self, style: S) -> (this: &mut Self)
        ensures
            this@ == old(self)@.pushed(style.as_style()),
            *final(self) == *final(this),
    {
        self.start_styles.push(style.into_style());
        self
    }

    /// Pushes the foreground marker: the colors pushed before it, back to the marker
    /// before, are painted on the foreground.
    pub fn fg(&mut self) -> (this: &mut Self)
        ensures
            this@ == old(self)@.pushed(Styles::PaintType(PaintType::FG)),
            *final(self) == *final(this),
    {
        self.push(PaintType::FG)
    }

    /// Pushes the background marker: the colors pushed before it, back to the marker
    /// before, are painted on the background.
    pub fn bg(&mut self) -> (this: &mut Self)
        ensures
            this@ == old(self)@.pushed(Styles::PaintType(PaintType::BG)),
            *final(self) == *final(this),
    {
        self.push(PaintType::BG)
    }

    /// Pushes a 24-bit color.
    pub fn rgb(&mut self, r: u8, g: u8, b: u8) -> (this: &mut Self)
        ensures
            this@ == old(self)@.pushed(Styles::Rgb(Rgb { r, g, b })),
            *final(self) == *final(this),
    {
        self.push(Rgb { r, g, b })
    }

    /// Pushes the color at `index` of the palette.
    pub fn palette(&mut self, index: u8) -> (this: &mut Self)
        ensures
            this@ == old(self)@.pushed(Styles::PaletteColor(PaletteColor { index })),
            *final(self) == *final(this),
    {
        self.push(PaletteColor { index })
    }

    /// Pushes the basic color that `color` converts into.
    pub fn color<C: Into<BasicColor>>(&mut self, color: C) -> (this: &mut Self)
        ensures
            this@.text == old(self)@.text,
            this@.styles.len() == old(self)@.styles.len() + 1,
            this@.styles.drop_last() == old(self)@.styles,
            this@.styles.last() is BasicColor,
            C::obeys_into_spec() ==> this@ == old(self)@.pushed(
                Styles::BasicColor(color.into_spec()),
            ),
            *final(self) == *final(this),
    {
        let ghost before = self@.styles;
        let basic: BasicColor = color.into();
        let this = self.push(basic);
        assert(this@.styles.drop_last() =~= before);
        this
    }

    /// Pushes the formatter that `format` converts into.
    pub fn format<F: Into<Formatter>>(&mut self, format: F) -> (this: &mut Self)
        ensures
            this@.text == old(self)@.text,
            this@.styles.len() == old(self)@.styles.len() + 1,
            this@.styles.drop_last() == old(self)@.styles,
            this@.styles.last() is Formatter,
            F::obeys_into_spec() ==> this@ == old(self)@.pushed(
                Styles::Formatter(format.into_spec()),
            ),
            *final(self) == *final(this),
    {
        let ghost before = self@.styles;
        let formatter: Formatter = format.into();
        let this = self.push(formatter);
        assert(this@.styles.drop_last() =~= before);
        this
    }

    /// Pushes the basic color black.
    pub fn black(&mut self) -> (this: &mut Self)
        ensures
            this@ == old(self)@.pushed(Styles::BasicColor(BasicColor { fg: 30, bg: 40 })),
            *final(self) == *final(this),
    {
        self.push(basic_color::black())
    }

    /// Pushes the basic color red.
    pub fn red(&mut self) -> (this: &mut Self)
        ensures
            this@ == old(self)@.pushed(Styles::BasicColor(BasicColor { fg: 31, bg: 41 })),
            *final(self) == *final(this),
    {
        self.push(basic_color::red())
    }

    /// Pushes the basic color green.
    pub fn green(&mut self) -> (this: &mut Self)
        ensures
            this@ == old(self)@.pushed(Styles::BasicColor(BasicColor { fg: 32, bg: 42 })),
            *final(self) == *final(this),
    {
        self.push(basic_color::green())
    }

    /// Pushes the basic color yellow.
    pub fn yellow(&mut self) -> (this: &mut Self)
        ensures
            this@ == old(self)@.pushed(Styles::BasicColor(BasicColor { fg: 33, bg: 43 })),
            *final(self) == *final(this),
    {
        self.push(basic_color::yellow())
    }

    /// Pushes the basic color blue.
    pub fn blue(&mut self) -> (this: &mut Self)
        ensures
            this@ == old(self)@.pushed(Styles::BasicColor(BasicColor { fg: 34, bg: 44 })),
            *final(self) == *final(this),
    {
        self.push(basic_color::blue())
    }

    /// Pushes the basic color magenta.
    pub fn magenta(&mut self) -> (this: &mut Self)
        ensures
            this@ == old(self)@.pushed(Styles::BasicColor(BasicColor { fg: 35, bg: 45 })),
            *final(self) == *final(this),
    {
        self.push(basic_color::magenta())
    }

    /// Pushes the basic color cyan.
    pub fn cyan(&mut self) -> (this: &mut Self)
        ensures
            this@ == old(self)@.pushed(Styles::BasicColor(BasicColor { fg: 36, bg: 46 })),
            *final(self) == *final(this),
    {
        self.push(basic_color::cyan())
    }

    /// Pushes the basic color white.
    pub fn white(&mut self) -> (this: &mut Self)
        ensures
            this@ == old(self)@.pushed(Styles::BasicColor(BasicColor { fg: 37, bg: 47 })),
            *final(self) == *final(this),
    {
        self.push(basic_color::white())
    }

    /// Pushes the basic color gray.
    pub fn gray(&mut self) -> (this: &mut Self)
        ensures
            this@ == old(self)@.pushed(Styles::BasicColor(BasicColor { fg: 90, bg: 100 })),
            *final(self) == *final(this),
    {
        self.push(basic_color::gray())
    }

    /// Pushes the basic color bright red.
    pub fn bright_red(&mut self) -> (this: &mut Self)
        ensures
            this@ == old(self)@.pushed(Styles::BasicColor(BasicColor { fg: 91, bg: 101 })),
            *final(self) == *final(this),
    {
        self.push(basic_color::bright_red())
    }

    /// Pushes the basic color bright green.
    pub fn bright_green(&mut self) -> (this: &mut Self)
        ensures
            this@ == old(self)@.pushed(Styles::BasicColor(BasicColor { fg: 92, bg: 102 })),
            *final(self) == *final(this),
    {
        self.push(basic_color::bright_green())
    }

    /// Pushes the basic color bright yellow.
    pub fn bright_yellow(&mut self) -> (this: &mut Self)
        ensures
            this@ == old(self)@.pushed(Styles::BasicColor(BasicColor { fg: 93, bg: 103 })),
            *final(self) == *final(this),
    {
        self.push(basic_color::bright_yellow())
    }

    /// Pushes the basic color bright blue.
    pub fn bright_blue(&mut self) -> (this: &mut Self)
        ensures
            this@ == old(self)@.pushed(Styles::BasicColor(BasicColor { fg: 94, bg: 104 })),
            *final(self) == *final(this),
    {
        self.push(basic_color::bright_blue())
    }

    /// Pushes the basic color bright magenta.
    pub fn bright_magenta(&mut self) -> (this: &mut Self)
        ensures
            this@ == old(self)@.pushed(Styles::BasicColor(BasicColor { fg: 95, bg: 105 })),
            *final(self) == *final(this),
    {
        self.push(basic_color::bright_magenta())
    }

    /// Pushes the basic color bright cyan.
    pub fn bright_cyan(&mut self) -> (this: &mut Self)
        ensures
            this@ == old(self)@.pushed(Styles::BasicColor(BasicColor { fg: 96, bg: 106 })),
            *final(self) == *final(this),
    {
        self.push(basic_color::bright_cyan())
    }

    /// Pushes the basic color bright white.
    pub fn bright_white(&mut self) -> (this: &mut Self)
        ensures
            this@ == old(self)@.pushed(Styles::BasicColor(BasicColor { fg: 97, bg: 107 })),
            *final(self) == *final(this),
    {
        self.push(basic_color::bright_white())
    }

    /// Pushes the reset formatter, which clears what the codes before it have set.
    pub fn reset(&mut self) -> (this: &mut Self)
        ensures
            this@ == old(self)@.pushed(Styles::Formatter(Formatter { code: 0 })),
            *final(self) == *final(this),
    {
        self.push(formatter::reset())
    }

    /// Pushes the bold formatter.
    pub fn bold(&mut self) -> (this: &mut Self)
        ensures
            this@ == old(self)@.pushed(Styles::Formatter(Formatter { code: 1 })),
            *final(self) == *final(this),
    {
        self.push(formatter::bold())
    }

    /// Pushes the faint formatter.
    pub fn faint(&mut self) -> (this: &mut Self)
        ensures
            this@ == old(self)@.pushed(Styles::Formatter(Formatter { code: 2 })),
            *final(self) == *final(this),
    {
        self.push(formatter::faint())
    }

    /// Pushes the italic formatter.
    pub fn italic(&mut self) -> (this: &mut Self)
        ensures
            this@ == old(self)@.pushed(Styles::Formatter(Formatter { code: 3 })),
            *final(self) == *final(this),
    {
        self.push(formatter::italic())
    }

    /// Pushes the underline formatter.
    pub fn underline(&mut self) -> (this: &mut Self)
        ensures
            this@ == old(self)@.pushed(Styles::Formatter(Formatter { code: 4 })),
            *final(self) == *final(this),
    {
        self.push(formatter::underline())
    }

    /// Pushes the slow-blink formatter.
    pub fn slow_blink(&mut self) -> (this: &mut Self)
        ensures
            this@ == old(self)@.pushed(Styles::Formatter(Formatter { code: 5 })),
            *final(self) == *final(this),
    {
        self.push(formatter::slow_blink())
    }

    /// Pushes the rapid-blink formatter.
    pub fn rapid_blink(&mut self) -> (this: &mut Self)
        ensures
            this@ == old(self)@.pushed(Styles::Formatter(Formatter { code: 6 })),
            *final(self) == *final(this),
    {
        self.push(formatter::rapid_blink())
    }

    /// Pushes the overline formatter.
    pub fn overline(&mut self) -> (this: &mut Self)
        ensures
            this@ == old(self)@.pushed(Styles::Formatter(Formatter { code: 53 })),
            *final(self) == *final(this),
    {
        self.push(formatter::overline())
    }

    /// Renders the text: one escape code for each style that is no marker, in the order
    /// they were pushed, then the text, then the reset code. A color is painted on the
    /// target of the first marker pushed after it, on the foreground where there is none.
    pub fn paint(&self) -> (s: String)
        ensures
            s@ == rendered(self@.text, self@.styles),
    {
        let ghost styles = self.start_styles@;
        let mut target = PaintType::FG;
        let mut codes: Vec<String> = Vec::new();
        let mut i: usize = self.start_styles.len();
        while i > 0
            invariant
                styles == self.start_styles@,
                i <= styles.len(),
                target == target_from(styles, i as int),
                joined_newest_first(codes@) == codes_from(styles, i as int),
            decreases i,
        {
            i -= 1;
            match &self.start_styles[i] {
                Styles::PaintType(p) => {
                    target = *p;
                },
                s => {
                    let ghost earlier = codes@;
                    let parameter = s.make_styles(Some(&target));
                    let code = ANSIEscapeCode::new(parameter.as_str()).code();
                    codes.push(code);
                    assert(codes@.drop_last() =~= earlier);
                },
            }
        }
        let mut out = String::new();
        let mut j: usize = codes.len();
        assert(codes@.take(j as int) =~= codes@);
        assert(out@ + joined_newest_first(codes@) =~= joined_newest_first(codes@));
        while j > 0
            invariant
                j <= codes.len(),
                out@ + joined_newest_first(codes@.take(j as int)) == joined_newest_first(codes@),
            decreases j,
        {
            let ghost written = out@;
            let ghost rest = codes@.take(j as int);
            j -= 1;
            out.append(codes[j].as_str());
            proof {
                assert(rest.drop_last() =~= codes@.take(j as int));
                assert(out@ + joined_newest_first(codes@.take(j as int)) =~= written
                    + joined_newest_first(rest));
            }
        }
        assert(codes@.take(0) =~= Seq::<String>::empty());
        out.append(self.text.as_str());
        let reset = Styles::Formatter(formatter::reset()).make_styles(Some(&target));
        out.append(ANSIEscapeCode::new(reset.as_str()).code().as_str());
        out
    }
}

} // verus!
