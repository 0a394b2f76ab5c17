use hyper_sync::color::{color_cut_ok, fixed_accent_color, is_rainbow_color, parse_color, repeat_rgb, ColorError};

#[test]
fn parses_hex_with_and_without_hash() {
    assert_eq!(parse_color("ff3300"), Ok([255, 51, 0]));
    assert_eq!(parse_color("#ff3300"), Ok([255, 51, 0]));
    assert_eq!(parse_color("##0099FF"), Ok([0, 153, 255]));
    assert_eq!(parse_color("+f+f+f"), Ok([15, 15, 15]));
}

#[test]
fn refuses_wrong_length() {
    assert_eq!(parse_color("fff"), Err(ColorError::WrongLength));
    assert_eq!(parse_color(""), Err(ColorError::WrongLength));
    assert_eq!(parse_color("ff33001"), Err(ColorError::WrongLength));
    assert_eq!(parse_color("rainbow"), Err(ColorError::WrongLength));
}

#[test]
fn refuses_bad_digits() {
    assert_eq!(parse_color("gg0000"), Err(ColorError::BadHexDigit));
    assert_eq!(parse_color("00-100"), Err(ColorError::BadHexDigit));
    assert_eq!(parse_color("0 0000"), Err(ColorError::BadHexDigit));
}

#[test]
fn cut_check_matches_char_boundaries() {
    assert!(color_cut_ok("ff3300"));
    assert!(color_cut_ok("short"));
    assert!(color_cut_ok("aéaa"));
    assert!(!color_cut_ok("aéaaa"));
    assert!(!color_cut_ok("aaaéa"));
}

#[test]
fn rainbow_ignores_ascii_case() {
    assert!(is_rainbow_color("rainbow"));
    assert!(is_rainbow_color("RainBow"));
    assert!(!is_rainbow_color("rainbows"));
    assert!(!is_rainbow_color("ff3300"));
}

#[test]
fn accent_falls_back_to_warm_orange() {
    assert_eq!(fixed_accent_color("rainbow"), None);
    assert_eq!(fixed_accent_color("RAINBOW"), None);
    assert_eq!(fixed_accent_color("00ff88"), Some([0, 255, 136]));
    assert_eq!(fixed_accent_color("nope"), Some([255, 51, 0]));
}

#[test]
fn repeated_colour_fills_strip() {
    assert_eq!(repeat_rgb([1, 2, 3], 3), vec![1, 2, 3, 1, 2, 3, 1, 2, 3]);
    assert!(repeat_rgb([1, 2, 3], 0).is_empty());
}
