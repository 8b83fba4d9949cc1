use term_tools::styles::paint_type::PaintType;
use term_tools::styles::rgb::Rgb;
use term_tools::styles::Stylify;

#[test]
fn rgb_test_make_style_fg() {
    let color = Rgb { r: 102, g: 23, b: 240 };
    let styles = color.make_styles(Some(&PaintType::FG));
    assert_eq!(styles, "38;2;102;23;240")
}

#[test]
fn rgb_test_make_style_default_fg() {
    let color = Rgb { r: 2, g: 55, b: 100 };
    let styles = color.make_styles(None);
    assert_eq!(styles, "38;2;2;55;100")
}

#[test]
fn rgb_test_make_style_bg() {
    let color = Rgb { r: 255, g: 255, b: 43 };
    let styles = color.make_styles(Some(&PaintType::BG));
    assert_eq!(styles, "48;2;255;255;43")
}

#[test]
fn rgb_test_fg_and_bg_values() {
    let color = Rgb { r: 78, g: 32, b: 210 };
    let styles_fg = color.make_styles(Some(&PaintType::FG));
    let styles_bg = color.make_styles(Some(&PaintType::BG));
    assert_eq!(styles_fg, "38;2;78;32;210");
    assert_eq!(styles_bg, "48;2;78;32;210")
}

#[test]
fn rgb_test_fg_and_bg_values_with_none_paint_type() {
    let color = Rgb { r: 1, g: 91, b: 58 };
    let styles_fg = color.make_styles(None);
    let styles_bg = color.make_styles(Some(&PaintType::BG));
    assert_eq!(styles_fg, "38;2;1;91;58");
    assert_eq!(styles_bg, "48;2;1;91;58")
}

#[test]
fn rgb_parts_at_the_ends_of_the_range() {
    let color = Rgb { r: 0, g: 255, b: 0 };
    assert_eq!(color.make_styles(None), "38;2;0;255;0");
    let color = Rgb { r: 255, g: 0, b: 255 };
    assert_eq!(color.make_styles(Some(&PaintType::BG)), "48;2;255;0;255");
}

#[test]
fn the_background_differs_from_the_foreground_in_the_leading_number_only() {
    for part in [0u8, 9, 10, 99, 100, 255] {
        let color = Rgb { r: part, g: 255 - part, b: part / 2 };
        let fg = color.make_styles(Some(&PaintType::FG));
        let bg = color.make_styles(Some(&PaintType::BG));
        assert_eq!(&fg[..2], "38");
        assert_eq!(bg, format!("48{}", &fg[2..]));
    }
}
