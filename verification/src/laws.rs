//! Laws of the catalog and of rendering, each proved from the definitions that the
//! contracts of the library use.

use vstd::prelude::*;
use vstd::string::*;
use crate::ansi_code::escape;
use crate::decimal::decimal;
use crate::render::{code_at, codes_from, rendered, reset_code, target_from};
use crate::styled_text::StyledText;
use crate::styles::basic_color::BasicColor;
use crate::styles::formatter::Formatter;
use crate::styles::paint_type::PaintType;
use crate::styles::palette::PaletteColor;
use crate::styles::rgb::Rgb;
use crate::styles::{Styles, Stylify};

verus! {

/// A basic color resolves to its foreground code on the foreground and to its
/// background code on the background.
pub proof fn lemma_basic_color_parameter(color: BasicColor)
    ensures
        Styles::BasicColor(color).parameter(PaintType::FG) == decimal(color.fg as nat),
        Styles::BasicColor(color).parameter(PaintType::BG) == decimal(color.bg as nat),
{
}

/// A palette color resolves to `38;5;` and its index on the foreground, to `48;5;`
/// and its index on the background.
pub proof fn lemma_palette_parameter(index: u8)
    ensures
        Styles::PaletteColor(PaletteColor { index }).parameter(PaintType::FG) == "38;5;"@
            + decimal(index as nat),
        Styles::PaletteColor(PaletteColor { index }).parameter(PaintType::BG) == "48;5;"@
            + decimal(index as nat),
{
    reveal_strlit("38;5;");
    reveal_strlit("48;5;");
    let color = PaletteColor { index };
    assert(color.parameter(PaintType::FG) =~= "38;5;"@ + decimal(index as nat));
    assert(color.parameter(PaintType::BG) =~= "48;5;"@ + decimal(index as nat));
}

/// A 24-bit color resolves to `38;2;` and its three parts on the foreground; on the
/// background the leading `38` becomes `48` and nothing else changes.
pub proof fn lemma_rgb_parameter(r: u8, g: u8, b: u8)
    ensures
        Styles::Rgb(Rgb { r, g, b }).parameter(PaintType::FG) == "38;2;"@ + decimal(r as nat)
            + ";"@ + decimal(g as nat) + ";"@ + decimal(b as nat),
        Styles::Rgb(Rgb { r, g, b }).parameter(PaintType::BG) == "48;2;"@ + decimal(r as nat)
            + ";"@ + decimal(g as nat) + ";"@ + decimal(b as nat),
        Styles::Rgb(Rgb { r, g, b }).parameter(PaintType::FG).take(2) == "38"@,
        Styles::Rgb(Rgb { r, g, b }).parameter(PaintType::BG) == "48"@ + Styles::Rgb(
            Rgb { r, g, b },
        ).parameter(PaintType::FG).skip(2),
{
    reveal_strlit("38;2;");
    reveal_strlit("48;2;");
    reveal_strlit("38");
    reveal_strlit("48");
    reveal_strlit(";");
    let color = Rgb { r, g, b };
    let fg = color.parameter(PaintType::FG);
    let bg = color.parameter(PaintType::BG);
    assert(fg =~= "38;2;"@ + decimal(r as nat) + ";"@ + decimal(g as nat) + ";"@ + decimal(
        b as nat,
    ));
    assert(bg =~= "48;2;"@ + decimal(r as nat) + ";"@ + decimal(g as nat) + ";"@ + decimal(
        b as nat,
    ));
    assert(fg.take(2) =~= "38"@);
    assert(bg =~= "48"@ + fg.skip(2));
}

/// A formatter resolves to its code, whatever the target.
pub proof fn lemma_formatter_ignores_target(formatter: Formatter, target: PaintType)
    ensures
        Styles::Formatter(formatter).parameter(target) == decimal(formatter.code as nat),
{
}

/// Resolving a style without a target gives what resolving it on the foreground gives.
pub proof fn lemma_default_target_is_foreground(style: Styles, plain: String, on_fg: String)
    requires
        call_ensures(Styles::make_styles, (&style, None), plain),
        call_ensures(Styles::make_styles, (&style, Some(&PaintType::FG)), on_fg),
    ensures
        plain@ == on_fg@,
        plain@ == style.parameter(PaintType::FG),
{
}

/// Every rendered text ends with the reset code, whatever the styles and the text.
pub proof fn lemma_rendered_ends_with_reset(text: Seq<char>, styles: Seq<Styles>)
    ensures
        rendered(text, styles).len() >= 4,
        rendered(text, styles).skip(rendered(text, styles).len() - 4) == "\x1b[0m"@,
{
    reveal_strlit("\x1b[0m");
    let all = rendered(text, styles);
    assert(all.skip(all.len() - 4) =~= "\x1b[0m"@);
}

/// Rendering twice gives the same text: what `paint` returns depends on nothing but
/// the text and the styles, which it leaves as they are.
pub proof fn lemma_paint_repeatable(styled: StyledText, first: String, second: String)
    requires
        call_ensures(StyledText::paint, (&styled,), first),
        call_ensures(StyledText::paint, (&styled,), second),
    ensures
        first@ == second@,
{
}

/// A marker decides the target of every style between it and the marker before it:
/// where position `j` holds a marker and no marker stands from `i` up to `j`, the
/// target in effect from `i` on is that of the marker at `j`.
pub proof fn lemma_marker_governs_back_to_previous(styles: Seq<Styles>, i: int, j: int)
    requires
        0 <= i <= j < styles.len(),
        styles[j] is PaintType,
        forall|k: int| i <= k < j ==> !(#[trigger] styles[k] is PaintType),
    ensures
        Styles::PaintType(target_from(styles, i)) == styles[j],
    decreases j - i,
{
    if i < j {
        lemma_marker_governs_back_to_previous(styles, i + 1, j);
    }
}

/// Where no marker follows, the target is the foreground.
pub proof fn lemma_foreground_without_marker(styles: Seq<Styles>, i: int)
    requires
        0 <= i,
        forall|k: int| i <= k < styles.len() ==> !(#[trigger] styles[k] is PaintType),
    ensures
        target_from(styles, i) == PaintType::FG,
    decreases styles.len() - i,
{
    if i < styles.len() {
        lemma_foreground_without_marker(styles, i + 1);
    }
}

/// A style that is no marker is painted on the target of the first marker pushed
/// after it, whatever stands behind that marker.
pub proof fn lemma_code_follows_next_marker(styles: Seq<Styles>, i: int, j: int)
    requires
        0 <= i < j < styles.len(),
        !(styles[i] is PaintType),
        styles[j] is PaintType,
        forall|k: int| i < k < j ==> !(#[trigger] styles[k] is PaintType),
    ensures
        code_at(styles, i) == escape(styles[i].parameter(styles[j]->PaintType_0)),
{
    lemma_marker_governs_back_to_previous(styles, i + 1, j);
}

/// A style that is no marker and has no marker behind it is painted on the
/// foreground.
pub proof fn lemma_code_without_marker(styles: Seq<Styles>, i: int)
    requires
        0 <= i < styles.len(),
        forall|k: int| i <= k < styles.len() ==> !(#[trigger] styles[k] is PaintType),
    ensures
        code_at(styles, i) == escape(styles[i].parameter(PaintType::FG)),
{
    lemma_foreground_without_marker(styles, i + 1);
}

/// A marker emits no code of its own.
pub proof fn lemma_marker_emits_nothing(styles: Seq<Styles>, i: int)
    requires
        0 <= i < styles.len(),
        styles[i] is PaintType,
    ensures
        code_at(styles, i) == Seq::<char>::empty(),
{
}

/// The escape codes of the first `n` styles, in the order they were pushed.
pub open spec fn codes_before(styles: Seq<Styles>, n: int) -> Seq<char>
    decreases n,
{
    if n <= 0 || n > styles.len() {
        Seq::empty()
    } else {
        codes_before(styles, n - 1) + code_at(styles, n - 1)
    }
}

/// The codes before a position and those from it on make up all the codes.
pub proof fn lemma_codes_split(styles: Seq<Styles>, n: int)
    requires
        0 <= n <= styles.len(),
    ensures
        codes_before(styles, n) + codes_from(styles, n) == codes_from(styles, 0),
    decreases n,
{
    if n == 0 {
        assert(codes_before(styles, 0) + codes_from(styles, 0) =~= codes_from(styles, 0));
    } else {
        lemma_codes_split(styles, n - 1);
        assert(codes_before(styles, n) + codes_from(styles, n) =~= codes_before(styles, n - 1)
            + codes_from(styles, n - 1));
    }
}

/// The scan from the newest style to the oldest: a marker sets the target for what
/// is older than it and emits nothing; any other style emits its code for the target
/// in effect. The codes come out oldest first.
pub open spec fn reverse_scan(styles: Seq<Styles>, target: PaintType) -> Seq<char>
    decreases styles.len(),
{
    if styles.len() == 0 {
        Seq::empty()
    } else {
        match styles.last() {
            Styles::PaintType(p) => reverse_scan(styles.drop_last(), p),
            s => reverse_scan(styles.drop_last(), target) + escape(s.parameter(target)),
        }
    }
}

/// Scanning the first `n` styles from the newest to the oldest, with the target that
/// the later styles leave, gives the codes of those styles.
pub proof fn lemma_reverse_scan_prefix(styles: Seq<Styles>, n: int)
    requires
        0 <= n <= styles.len(),
    ensures
        reverse_scan(styles.take(n), target_from(styles, n)) == codes_before(styles, n),
    decreases n,
{
    if n > 0 {
        lemma_reverse_scan_prefix(styles, n - 1);
        let prefix = styles.take(n);
        assert(prefix.last() == styles[n - 1]);
        assert(prefix.drop_last() =~= styles.take(n - 1));
    }
}

/// The scan from the newest style to the oldest, started on the foreground, gives
/// the start codes of the rendered text.
pub proof fn lemma_reverse_scan_renders(text: Seq<char>, styles: Seq<Styles>)
    ensures
        reverse_scan(styles, PaintType::FG) == codes_from(styles, 0),
        rendered(text, styles) == reverse_scan(styles, PaintType::FG) + text + reset_code(),
{
    let n = styles.len() as int;
    lemma_reverse_scan_prefix(styles, n);
    lemma_codes_split(styles, n);
    assert(styles.take(n) =~= styles);
    assert(codes_before(styles, n) + codes_from(styles, n) =~= codes_before(styles, n));
}

} // verus!
