use term_tools::styles::paint_type::PaintType;
use term_tools::styles::palette::PaletteColor;
use term_tools::styles::Stylify;

#[test]
fn palette_test_make_style_fg() {
    let color = PaletteColor { index: 42 };
    let styles = color.make_styles(Some(&PaintType::FG));
    assert_eq!(styles, "38;5;42")
}

#[test]
fn palette_test_make_style_default_fg() {
    let color = PaletteColor { index: 105 };
    let styles = color.make_styles(None);
    assert_eq!(styles, "38;5;105")
}

#[test]
fn palette_test_make_style_bg() {
    let color = PaletteColor { index: 1 };
    let styles = color.make_styles(Some(&PaintType::BG));
    assert_eq!(styles, "48;5;1")
}

#[test]
fn palette_test_fg_and_bg_values() {
    let color = PaletteColor { index: 200 };
    let styles_fg = color.make_styles(Some(&PaintType::FG));
    let styles_bg = color.make_styles(Some(&PaintType::BG));
    assert_eq!(styles_fg, "38;5;200");
    assert_eq!(styles_bg, "48;5;200")
}

#[test]
fn palette_test_fg_and_bg_values_with_none_paint_type() {
    let color = PaletteColor { index: 108 };
    let styles_fg = color.make_styles(None);
    let styles_bg = color.make_styles(Some(&PaintType::BG));
    assert_eq!(styles_fg, "38;5;108");
    assert_eq!(styles_bg, "48;5;108")
}

#[test]
fn every_palette_index_on_both_targets() {
    for index in 0..=255u8 {
        let color = PaletteColor { index };
        assert_eq!(color.make_styles(Some(&PaintType::FG)), format!("38;5;{}", index));
        assert_eq!(color.make_styles(Some(&PaintType::BG)), format!("48;5;{}", index));
    }
}
