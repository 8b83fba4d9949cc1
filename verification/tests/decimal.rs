use term_tools::decimal::push_decimal;

#[test]
fn every_byte_is_written_as_its_decimal_numeral() {
    for n in 0..=255u8 {
        let mut out = String::new();
        push_decimal(&mut out, n);
        assert_eq!(out, format!("{}", n));
    }
}

#[test]
fn the_numeral_goes_behind_what_is_there() {
    let mut out = String::from("38;5;");
    push_decimal(&mut out, 7);
    assert_eq!(out, "38;5;7");
    push_decimal(&mut out, 100);
    assert_eq!(out, "38;5;7100");
}

#[test]
fn numerals_at_the_digit_boundaries() {
    let cases: [(u8, &str); 7] =
        [(0, "0"), (9, "9"), (10, "10"), (99, "99"), (100, "100"), (109, "109"), (255, "255")];
    for (n, expected) in cases {
        let mut out = String::new();
        push_decimal(&mut out, n);
        assert_eq!(out, expected);
    }
}
