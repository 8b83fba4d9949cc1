use term_tools::helpers::IntoStyled;
use term_tools::prelude::{colors, formats};
use term_tools::styled;
use term_tools::styles::basic_color::BasicColor;
use term_tools::styles::formatter::Formatter;
use term_tools::styles::paint_type::PaintType;
use term_tools::styles::palette::PaletteColor;
use term_tools::styles::rgb::Rgb;
use term_tools::styles::Styles;
use term_tools::StyledText;

#[test]
fn test_into_styles() {
    let txt = "Hi Father"
        .styled()
        .rgb(204, 182, 122)
        .italic()
        .rapid_blink()
        .bg()
        .black()
        .fg()
        .paint();

    println!("{txt}");
}

#[test]
fn white_fg_black_bg() {
    let raw_text = "I'm So Happy";
    let styled_text = styled(raw_text).white().bg().black().fg().paint();
    assert_eq!(styled_text, "\x1b[47m\x1b[30mI'm So Happy\x1b[0m");
}

#[test]
fn blue_fg_bright_cyan_bg() {
    let raw_text = "Silence is power";
    let styled_text = styled(raw_text).blue().fg().bright_cyan().bg().paint();
    assert_eq!(styled_text, "\x1b[34m\x1b[106mSilence is power\x1b[0m");
}

#[test]
fn test_with_one_paint_type() {
    let no: Vec<Styles> = styled("Hello there")
        .bright_blue()
        .red()
        .bg()
        .styles()
        .iter()
        .filter(|s| match s {
            Styles::PaintType(_) => true,
            _ => false,
        })
        .cloned()
        .collect();

    assert_eq!(no.len(), 1)
}

#[test]
fn test_with_zero_paint_type() {
    let no: Vec<Styles> = styled("Hello there")
        .bright_blue()
        .red()
        .styles()
        .iter()
        .filter(|s| match s {
            Styles::PaintType(_) => true,
            _ => false,
        })
        .cloned()
        .collect();

    assert_eq!(no.len(), 0)
}

#[test]
fn into_styles_paints_in_push_order() {
    let txt = "Hi Father".styled().rgb(204, 182, 122).italic().rapid_blink().bg().black().fg().paint();
    assert_eq!(txt, "\x1b[48;2;204;182;122m\x1b[3m\x1b[6m\x1b[30mHi Father\x1b[0m");
}

#[test]
fn italic_then_red() {
    let txt = "Walking dead!".styled().italic().red().paint();
    assert_eq!(txt, "\x1b[3m\x1b[31mWalking dead!\x1b[0m");
}

#[test]
fn a_marker_reaches_back_to_the_color_before_it() {
    let mut by_push = styled("x");
    by_push.push(colors::red()).push(PaintType::BG);
    let mut by_name = styled("x");
    by_name.red().bg();
    assert_eq!(by_push.paint(), "\x1b[41mx\x1b[0m");
    assert_eq!(by_name.paint(), by_push.paint());
}

#[test]
fn each_marker_governs_back_to_the_marker_before() {
    let mut t = styled("x");
    t.push(colors::white()).push(PaintType::BG).push(colors::black()).push(PaintType::FG);
    assert_eq!(t.paint(), "\x1b[47m\x1b[30mx\x1b[0m");
}

#[test]
fn a_marker_governs_every_color_since_the_marker_before() {
    let txt = styled("x").red().palette(7).rgb(1, 2, 3).bold().bg().green().paint();
    assert_eq!(txt, "\x1b[41m\x1b[48;5;7m\x1b[48;2;1;2;3m\x1b[1m\x1b[32mx\x1b[0m");
}

#[test]
fn colors_behind_the_last_marker_go_on_the_foreground() {
    let txt = styled("x").bg().red().paint();
    assert_eq!(txt, "\x1b[31mx\x1b[0m");
}

#[test]
fn markers_alone_emit_nothing() {
    let txt = styled("x").bg().fg().bg().paint();
    assert_eq!(txt, "x\x1b[0m");
}

#[test]
fn no_style_still_ends_with_the_reset_code() {
    assert_eq!(styled("plain").paint(), "plain\x1b[0m");
    assert_eq!(styled("").paint(), "\x1b[0m");
}

#[test]
fn every_rendering_ends_with_the_reset_code() {
    let mut t = styled("text");
    assert!(t.paint().ends_with("\x1b[0m"));
    t.red();
    assert!(t.paint().ends_with("\x1b[0m"));
    t.bg().underline().palette(200).fg().reset();
    assert!(t.paint().ends_with("\x1b[0m"));
}

#[test]
fn reset_in_the_middle_is_one_more_code() {
    let txt = styled("x").red().reset().paint();
    assert_eq!(txt, "\x1b[31m\x1b[0mx\x1b[0m");
}

#[test]
fn painting_twice_gives_the_same_text() {
    let mut t = styled("again");
    t.bright_magenta().bg().overline().rgb(9, 99, 199);
    let first = t.paint();
    let second = t.paint();
    assert_eq!(first, second);
    assert_eq!(first, "\x1b[105m\x1b[53m\x1b[38;2;9;99;199magain\x1b[0m");
    assert_eq!(t.styles().len(), 4);
}

#[test]
fn text_is_kept_as_given() {
    let txt = styled("a\x1b[0mb \u{e9}\u{4e16}").bold().paint();
    assert_eq!(txt, "\x1b[1ma\x1b[0mb \u{e9}\u{4e16}\x1b[0m");
}

#[test]
fn styled_takes_a_string_too() {
    let txt = styled(String::from("owned")).faint().paint();
    assert_eq!(txt, "\x1b[2mowned\x1b[0m");
    let t = StyledText::new(String::from("made"));
    assert_eq!(t.paint(), "made\x1b[0m");
    assert_eq!(t.styles().len(), 0);
}

#[test]
fn push_appends_in_order() {
    let mut t = styled("x");
    t.push(Rgb { r: 1, g: 2, b: 3 })
        .push(PaletteColor { index: 4 })
        .push(BasicColor { fg: 35, bg: 45 })
        .push(Formatter { code: 4 })
        .push(PaintType::BG)
        .push(Styles::Formatter(Formatter { code: 1 }));
    assert_eq!(
        t.styles().clone(),
        vec![
            Styles::Rgb(Rgb { r: 1, g: 2, b: 3 }),
            Styles::PaletteColor(PaletteColor { index: 4 }),
            Styles::BasicColor(BasicColor { fg: 35, bg: 45 }),
            Styles::Formatter(Formatter { code: 4 }),
            Styles::PaintType(PaintType::BG),
            Styles::Formatter(Formatter { code: 1 }),
        ]
    );
    assert_eq!(t.paint(), "\x1b[48;2;1;2;3m\x1b[48;5;4m\x1b[45m\x1b[4m\x1b[1mx\x1b[0m");
}

#[test]
fn color_and_format_take_the_named_values() {
    let mut t = "Hello World!".styled();
    t.color(colors::red()).format(formats::bold()).underline().fg().white().bg();
    assert_eq!(t.paint(), "\x1b[31m\x1b[1m\x1b[4m\x1b[47mHello World!\x1b[0m");
}

#[test]
fn each_named_color_pushes_its_pair() {
    let mut t = styled("");
    t.black().red().green().yellow().blue().magenta().cyan().white();
    t.gray().bright_red().bright_green().bright_yellow().bright_blue();
    t.bright_magenta().bright_cyan().bright_white();
    assert_eq!(
        t.paint(),
        "\x1b[30m\x1b[31m\x1b[32m\x1b[33m\x1b[34m\x1b[35m\x1b[36m\x1b[37m\x1b[90m\x1b[91m\x1b[92m\x1b[93m\x1b[94m\x1b[95m\x1b[96m\x1b[97m\x1b[0m"
    );
    t.bg();
    assert_eq!(
        t.paint(),
        "\x1b[40m\x1b[41m\x1b[42m\x1b[43m\x1b[44m\x1b[45m\x1b[46m\x1b[47m\x1b[100m\x1b[101m\x1b[102m\x1b[103m\x1b[104m\x1b[105m\x1b[106m\x1b[107m\x1b[0m"
    );
}

#[test]
fn each_named_formatter_pushes_its_code() {
    let txt = styled("")
        .reset()
        .bold()
        .faint()
        .italic()
        .underline()
        .slow_blink()
        .rapid_blink()
        .overline()
        .bg()
        .paint();
    assert_eq!(txt, "\x1b[0m\x1b[1m\x1b[2m\x1b[3m\x1b[4m\x1b[5m\x1b[6m\x1b[53m\x1b[0m");
}

#[test]
fn palette_and_rgb_follow_the_marker() {
    assert_eq!(styled("x").palette(132).paint(), "\x1b[38;5;132mx\x1b[0m");
    assert_eq!(styled("x").palette(132).bg().paint(), "\x1b[48;5;132mx\x1b[0m");
    assert_eq!(styled("x").rgb(48, 118, 230).paint(), "\x1b[38;2;48;118;230mx\x1b[0m");
    assert_eq!(styled("x").rgb(48, 118, 230).bg().paint(), "\x1b[48;2;48;118;230mx\x1b[0m");
}
