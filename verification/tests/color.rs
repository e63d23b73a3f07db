use lumos::color::{
    classify_color, hex_to_u8, luminance, parse_rgb, ParseError, LUMINANCE_ONE, RGB,
};
use lumos::srgb::{linear, LINEAR, LINEAR_ONE};
use lumos::text::{
    chars_of, hex_digit, is_decimal_digit, is_whitespace, trimmed, utf8_width_of,
};
use regex::Regex;

#[test]
fn test_parse_rgb_hex() {
    assert_eq!(parse_rgb("#000000"), Ok(RGB::new(0, 0, 0)));
    assert_eq!(parse_rgb("#ff0000"), Ok(RGB::new(255, 0, 0)));
    assert_eq!(parse_rgb("#00ff00"), Ok(RGB::new(0, 255, 0)));
    assert_eq!(parse_rgb("#0000ff"), Ok(RGB::new(0, 0, 255)));
    assert_eq!(parse_rgb("#ffffff"), Ok(RGB::new(255, 255, 255)));
    assert_eq!(parse_rgb("#ff00ff"), Ok(RGB::new(255, 0, 255)));
    assert_eq!(parse_rgb("#ff0000ff"), Ok(RGB::new(255, 0, 0)));
    assert_eq!(parse_rgb("#AbC123"), Ok(RGB::new(171, 193, 35)));
    assert_eq!(parse_rgb("#001122"), Ok(RGB::new(0, 17, 34)));
    assert_eq!(parse_rgb("  #ff0000  "), Ok(RGB::new(255, 0, 0)));

    assert!(parse_rgb("#gg0000").is_err());
    assert!(parse_rgb("#f00").is_err());
    assert!(parse_rgb("#ff0000ff00").is_err());
}

#[test]
fn test_parse_rgb_rgb_format() {
    assert_eq!(parse_rgb("rgb(0,0,0)"), Ok(RGB::new(0, 0, 0)));
    assert_eq!(parse_rgb("rgb(255,0,0)"), Ok(RGB::new(255, 0, 0)));
    assert_eq!(parse_rgb("rgb(0,255,0)"), Ok(RGB::new(0, 255, 0)));
    assert_eq!(parse_rgb("rgb(0,0,255)"), Ok(RGB::new(0, 0, 255)));
    assert_eq!(parse_rgb("rgb(255,255,255)"), Ok(RGB::new(255, 255, 255)));
    assert_eq!(parse_rgb("rgb(255,0,255)"), Ok(RGB::new(255, 0, 255)));
    assert_eq!(parse_rgb("rgb(171,193,35)"), Ok(RGB::new(171, 193, 35)));
    assert_eq!(parse_rgb("rgb(0,17,34)"), Ok(RGB::new(0, 17, 34)));
    assert_eq!(parse_rgb("  rgb(255,0,0)  "), Ok(RGB::new(255, 0, 0)));

    assert!(parse_rgb("rgb(0,0,256)").is_err());
    assert!(parse_rgb("rgb(0,0)").is_err());
    assert!(parse_rgb("rgb(0,0,0,0)").is_err());
    assert!(parse_rgb("rgb(0,0,0,0,0)").is_err());
}

#[test]
fn test_parse_rgb_rgb_colon_format() {
    assert_eq!(parse_rgb("rgb:0000/0000/0000"), Ok(RGB::new(0, 0, 0)));
    assert_eq!(parse_rgb("rgb:ffff/0000/0000"), Ok(RGB::new(255, 0, 0)));
    assert_eq!(parse_rgb("rgb:0000/ffff/0000"), Ok(RGB::new(0, 255, 0)));
    assert_eq!(parse_rgb("rgb:0000/0000/ffff"), Ok(RGB::new(0, 0, 255)));
    assert_eq!(parse_rgb("rgb:ffff/ffff/ffff"), Ok(RGB::new(255, 255, 255)));
    assert_eq!(parse_rgb("rgb:ffff/0000/ffff"), Ok(RGB::new(255, 0, 255)));
    assert_eq!(parse_rgb("rgb:abcd/C1AB/230A"), Ok(RGB::new(171, 193, 35)));
    assert_eq!(parse_rgb("  rgb:00/11/22  "), Ok(RGB::new(0, 17, 34)));
    assert_eq!(parse_rgb("rgb:ff00/0000/0000"), Ok(RGB::new(254, 0, 0)));
    assert_eq!(parse_rgb("rgb:1111/2222/3333/4444"), Ok(RGB::new(17, 34, 51)));
    assert_eq!(parse_rgb("rgba:1111/2222/3333/4444"), Ok(RGB::new(17, 34, 51)));

    assert!(parse_rgb("rgb:gggg/gggg/gggg").is_err());
    assert!(parse_rgb("rgb:000/000/000").is_err());
    assert!(parse_rgb("rgb:00000/00000/00000").is_err());
    assert!(parse_rgb("rgb:0000/0000/0000/0000/0000").is_err());
}

#[test]
fn test_hex_to_u8() {
    assert_eq!(hex_to_u8("00"), Ok(0));
    assert_eq!(hex_to_u8("ff"), Ok(255));
    assert_eq!(hex_to_u8("ffff"), Ok(255));
    assert_eq!(hex_to_u8("0000"), Ok(0));
    assert_eq!(hex_to_u8("8000"), Ok(128));
    assert_eq!(hex_to_u8("7fff"), Ok(127));
    assert_eq!(hex_to_u8("0080"), Ok(0));
    assert_eq!(hex_to_u8("1234"), Ok(18));
    assert_eq!(hex_to_u8("abcd"), Ok(171));

    assert!(hex_to_u8("00000").is_err());
    assert!(hex_to_u8("123").is_err());
    assert!(hex_to_u8("xyz").is_err());
    assert!(hex_to_u8("").is_err());
}

#[test]
fn test_rgb_struct() {
    let rgb = RGB::new(100, 150, 200);
    assert_eq!(rgb.r, 100);
    assert_eq!(rgb.g, 150);
    assert_eq!(rgb.b, 200);

    let rgb_from_tuple = RGB::from_tuple((255, 128, 0));
    assert_eq!(rgb_from_tuple, RGB::new(255, 128, 0));

    let tuple = rgb.to_tuple();
    assert_eq!(tuple, (100, 150, 200));
}

#[test]
fn parse_errors_name_the_fault() {
    assert_eq!(parse_rgb("rgb:000/000/000"), Err(ParseError::InvalidHexLength));
    assert_eq!(parse_rgb("rgb:00000/00/00"), Err(ParseError::InvalidHexLength));
    assert_eq!(parse_rgb("rgb://"), Err(ParseError::InvalidHexLength));
    assert_eq!(parse_rgb("rgb:gg/00/00"), Err(ParseError::InvalidHexDigit));
    assert_eq!(parse_rgb("rgb:+f/00/00"), Err(ParseError::InvalidHexDigit));
    assert_eq!(parse_rgb("#+f0000"), Err(ParseError::InvalidHexDigit));
    assert_eq!(parse_rgb("rgb:00/00"), Err(ParseError::WrongFieldCount));
    assert_eq!(parse_rgb("rgb:00/00/00/00/00"), Err(ParseError::WrongFieldCount));
    assert_eq!(parse_rgb("rgb(0,0,256)"), Err(ParseError::ChannelOutOfRange));
    assert_eq!(parse_rgb("rgb(99999999999999999999999,0,0)"), Err(ParseError::ChannelOutOfRange));
    assert_eq!(parse_rgb("rgb(0,0)"), Err(ParseError::UnrecognizedFormat));
    assert_eq!(parse_rgb("#f00"), Err(ParseError::UnrecognizedFormat));
    assert_eq!(parse_rgb(""), Err(ParseError::UnrecognizedFormat));
    assert_eq!(parse_rgb("blue"), Err(ParseError::UnrecognizedFormat));
}

/// Luminance as a fraction of one.
fn lum(rgb: RGB) -> f64 {
    luminance(rgb) as f64 / LUMINANCE_ONE as f64
}

/// Luminance as the formula gives it in floating point.
fn lum_by_formula(rgb: RGB) -> f64 {
    let lin = |v: u8| -> f64 {
        let c = f64::from(v) / 255.0;
        if c <= 0.04045 {
            c / 12.92
        } else {
            ((c + 0.055) / 1.055).powf(2.4)
        }
    };
    0.2126 * lin(rgb.r) + 0.7152 * lin(rgb.g) + 0.0722 * lin(rgb.b)
}

#[test]
fn test_luminance() {
    assert!((lum(RGB::new(0, 0, 0)) - 0.0).abs() < 0.001);
    assert!((lum(RGB::new(255, 255, 255)) - 1.0).abs() < 0.001);
    // Test a mid-gray
    let mid_gray_lum = lum(RGB::new(128, 128, 128));
    assert!(mid_gray_lum > 0.0 && mid_gray_lum < 1.0);
    // Test colors with different luminance contributions
    assert!((lum(RGB::new(255, 0, 0)) - 0.2126).abs() < 0.001);
    assert!((lum(RGB::new(0, 255, 0)) - 0.7152).abs() < 0.001);
    assert!((lum(RGB::new(0, 0, 255)) - 0.0722).abs() < 0.001);
    // Test edge cases with non-linear conversion
    assert!((lum(RGB::new(0, 0, 0)) - 0.0).abs() < 0.001);
    assert!((lum(RGB::new(255, 255, 255)) - 1.0).abs() < 0.001);
    // Test a subtle color difference that should be distinguishable
    let very_dark = lum(RGB::new(1, 1, 1));
    let slightly_lighter = lum(RGB::new(2, 2, 2));
    assert!(slightly_lighter > very_dark);
}

#[test]
fn test_classify_color() {
    assert_eq!(classify_color(RGB::new(0, 0, 0)), "dark");
    assert_eq!(classify_color(RGB::new(255, 255, 255)), "light");
    assert_eq!(classify_color(RGB::new(128, 128, 128)), "dark"); // Mid-gray is below threshold
    assert_eq!(classify_color(RGB::new(200, 200, 200)), "light");
    assert_eq!(classify_color(RGB::new(50, 50, 50)), "dark");
}

#[test]
fn luminance_of_the_corners_is_exact() {
    assert_eq!(luminance(RGB::new(0, 0, 0)), 0);
    assert_eq!(luminance(RGB::new(255, 255, 255)), LUMINANCE_ONE);
    assert_eq!(luminance(RGB::new(255, 0, 0)), 2_126_000_000_000);
    assert_eq!(luminance(RGB::new(0, 255, 0)), 7_152_000_000_000);
    assert_eq!(luminance(RGB::new(0, 0, 255)), 722_000_000_000);
    assert_eq!(luminance(RGB::new(128, 128, 128)), 2_158_605_000_000);
}

#[test]
fn luminance_is_the_formula_rounded_down() {
    for r in (0..=255u8).step_by(5) {
        for g in (0..=255u8).step_by(3) {
            for b in (0..=255u8).step_by(17) {
                let rgb = RGB::new(r, g, b);
                let exact = lum_by_formula(rgb);
                assert!(lum(rgb) <= exact + 1e-12, "{rgb:?}");
                assert!(exact - lum(rgb) < 1.1e-9, "{rgb:?}");
            }
        }
    }
}

#[test]
fn linear_table_follows_the_curve() {
    for v in 0..=255u8 {
        let c = f64::from(v) / 255.0;
        let exact = if c <= 0.04045 { c / 12.92 } else { ((c + 0.055) / 1.055).powf(2.4) };
        let held = f64::from(linear(v)) / f64::from(LINEAR_ONE);
        assert!(held <= exact + 1e-12, "{v}");
        assert!(exact - held < 1.1e-9, "{v}");
    }
    assert_eq!(linear(0), 0);
    assert_eq!(linear(255), LINEAR_ONE);
    assert_eq!(LINEAR[128], 215_860_500);
}

#[test]
fn every_colour_is_classed_as_the_formula_classes_it() {
    let lin: Vec<f64> = (0..=255u8)
        .map(|v| {
            let c = f64::from(v) / 255.0;
            if c <= 0.04045 { c / 12.92 } else { ((c + 0.055) / 1.055).powf(2.4) }
        })
        .collect();
    for r in 0..=255u8 {
        for g in 0..=255u8 {
            let rg = 0.2126 * lin[r as usize] + 0.7152 * lin[g as usize];
            for b in 0..=255u8 {
                let dark = rg + 0.0722 * lin[b as usize] < 0.5;
                let class = classify_color(RGB::new(r, g, b));
                assert_eq!(class == "dark", dark, "{r} {g} {b}");
            }
        }
    }
}

#[test]
fn class_follows_luminance() {
    let colours = [
        RGB::new(0, 0, 0),
        RGB::new(90, 203, 218),
        RGB::new(90, 203, 219),
        RGB::new(187, 187, 187),
        RGB::new(188, 188, 188),
        RGB::new(255, 0, 255),
        RGB::new(0, 255, 0),
        RGB::new(255, 255, 255),
    ];
    for a in colours {
        for b in colours {
            if luminance(a) <= luminance(b) && classify_color(a) == "light" {
                assert_eq!(classify_color(b), "light");
            }
        }
    }
    assert_eq!(classify_color(RGB::new(90, 203, 218)), "dark");
    assert_eq!(classify_color(RGB::new(90, 203, 219)), "light");
    assert_eq!(classify_color(RGB::new(187, 187, 187)), "dark");
    assert_eq!(classify_color(RGB::new(188, 188, 188)), "light");
}

#[test]
fn hash_form_recovers_every_channel() {
    for v in 0..=255u8 {
        let lower = format!("#{:02x}{:02x}{:02x}", v, 255 - v, v ^ 0x5a);
        assert_eq!(parse_rgb(&lower), Ok(RGB::new(v, 255 - v, v ^ 0x5a)));
        let upper = format!("#{:02X}{:02X}{:02X}ff", v, 255 - v, v ^ 0x5a);
        assert_eq!(parse_rgb(&upper), Ok(RGB::new(v, 255 - v, v ^ 0x5a)));
    }
}

#[test]
fn sixteen_bits_are_scaled_by_rounding() {
    for v in 0..=0xffffu32 {
        let field = format!("{v:04x}");
        let expected = (f64::from(v) / 65535.0 * 255.0).round() as u8;
        assert_eq!(hex_to_u8(&field), Ok(expected), "{field}");
    }
    assert_eq!(parse_rgb("rgb:ff00/8000/0080"), Ok(RGB::new(254, 128, 0)));
}

#[test]
fn decimal_form_allows_white_space_behind_commas() {
    assert_eq!(parse_rgb("rgb(255, 128, 0)"), Ok(RGB::new(255, 128, 0)));
    assert_eq!(parse_rgb("rgb(1,\t2,\u{a0} 3)"), Ok(RGB::new(1, 2, 3)));
    assert_eq!(parse_rgb("rgb(007,08,255)"), Ok(RGB::new(7, 8, 255)));
    assert_eq!(parse_rgb("rgb( 1,2,3)"), Err(ParseError::UnrecognizedFormat));
    assert_eq!(parse_rgb("rgb(1 ,2,3)"), Err(ParseError::UnrecognizedFormat));
    assert_eq!(parse_rgb("rgb(1,2,3 )"), Err(ParseError::UnrecognizedFormat));
    assert_eq!(parse_rgb("rgb(1,2,3"), Err(ParseError::UnrecognizedFormat));
    assert_eq!(parse_rgb("rgb(,2,3)"), Err(ParseError::UnrecognizedFormat));
}

#[test]
fn a_form_must_be_the_whole_text() {
    assert_eq!(parse_rgb("xrgb(1,2,3)"), Err(ParseError::UnrecognizedFormat));
    assert_eq!(parse_rgb("rgb(1,2,3)x"), Err(ParseError::UnrecognizedFormat));
    assert_eq!(parse_rgb("#rgb(1,2,3)"), Err(ParseError::UnrecognizedFormat));
    assert_eq!(parse_rgb("# ff0000"), Err(ParseError::UnrecognizedFormat));
    assert_eq!(parse_rgb("rgb:ff/00/00 x"), Err(ParseError::InvalidHexDigit));
    assert_eq!(parse_rgb("rgb:ff/00/00;"), Err(ParseError::InvalidHexLength));
}

#[test]
fn the_fourth_field_is_not_looked_at() {
    assert_eq!(parse_rgb("rgb:11/22/33/zz"), Ok(RGB::new(0x11, 0x22, 0x33)));
    assert_eq!(parse_rgb("rgba:11/22/33"), Ok(RGB::new(0x11, 0x22, 0x33)));
    assert_eq!(parse_rgb("#112233zz"), Ok(RGB::new(0x11, 0x22, 0x33)));
    assert_eq!(parse_rgb("rgb:zz/22/333"), Err(ParseError::InvalidHexDigit));
    assert_eq!(parse_rgb("rgb:11/222/zz"), Err(ParseError::InvalidHexLength));
}

#[test]
fn white_space_of_every_kind_is_trimmed() {
    assert_eq!(parse_rgb("\t\n #010203 \r\u{2003}\u{3000}"), Ok(RGB::new(1, 2, 3)));
    assert_eq!(parse_rgb(" \u{85}rgb:01/02/03\u{a0}"), Ok(RGB::new(1, 2, 3)));
    assert_eq!(parse_rgb("   "), Err(ParseError::UnrecognizedFormat));
    for c in ['\u{9}', '\u{d}', ' ', '\u{85}', '\u{a0}', '\u{1680}', '\u{2000}', '\u{200a}',
        '\u{2028}', '\u{2029}', '\u{202f}', '\u{205f}', '\u{3000}', '\u{8}', '\u{e}', '\u{200b}',
        'a', '\u{feff}'] {
        assert_eq!(is_whitespace(c), c.is_whitespace(), "{c:?}");
    }
}

#[test]
fn white_space_is_what_the_standard_library_calls_so() {
    for c in (0..=0x10ffffu32).filter_map(char::from_u32) {
        assert_eq!(is_whitespace(c), c.is_whitespace(), "{c:?}");
        assert_eq!(is_decimal_digit(c), c.is_ascii_digit(), "{c:?}");
        assert_eq!(hex_digit(c), c.to_digit(16).map(|d| d as u8), "{c:?}");
    }
}

#[test]
fn white_space_is_what_the_pattern_calls_so() {
    let space = Regex::new(r"^\s$").unwrap();
    let mut text = String::new();
    for c in (0..=0x3100u32).filter_map(char::from_u32) {
        text.clear();
        text.push(c);
        assert_eq!(is_whitespace(c), space.is_match(&text), "{c:?}");
    }
}

#[test]
fn trimming_is_that_of_the_standard_library() {
    for text in ["", " ", "a", " a", "a ", "\t a b \n", "\u{a0}x\u{2028}", "\u{200b} x", "   \u{85}"] {
        let trimmed_text: String = trimmed(&chars_of(text)).into_iter().collect();
        assert_eq!(trimmed_text, text.trim(), "{text:?}");
        assert_eq!(chars_of(text), text.chars().collect::<Vec<char>>());
    }
}

#[test]
fn decimal_form_agrees_with_the_pattern() {
    let pattern = Regex::new(r"^rgb\((\d+),\s*(\d+),\s*(\d+)\)$").unwrap();
    let texts = [
        "rgb(0,0,0)",
        "rgb(255, 128, 0)",
        "rgb(255,\u{2003}\t128,\n0)",
        "rgb(256,0,0)",
        "rgb(0,0,0256)",
        "rgb(0,0,0,0)",
        "rgb(0,0)",
        "rgb(0 ,0,0)",
        "rgb( 0,0,0)",
        "rgb(0,0,0) x",
        "xrgb(0,0,0)",
        "RGB(0,0,0)",
        "rgb(-1,0,0)",
        "rgb(+1,0,0)",
        "rgb(1.0,0,0)",
        "rgb(\u{661},\u{662},\u{663})",
        "rgb(1,2,3\u{663})",
        "rgb(,,)",
        "rgb()",
        "rgb(",
        "rgb",
        "",
    ];
    for text in texts {
        let expected = pattern.captures(text).and_then(|c| {
            let r = c[1].parse::<u8>().ok()?;
            let g = c[2].parse::<u8>().ok()?;
            let b = c[3].parse::<u8>().ok()?;
            Some(RGB::new(r, g, b))
        });
        assert_eq!(parse_rgb(text).ok(), expected, "{text:?}");
    }
}

#[test]
fn the_hash_form_is_seven_or_nine_bytes_long() {
    // Nine characters, ten bytes: none of the forms.
    assert_eq!(parse_rgb("#ffffff\u{e9}0"), Err(ParseError::UnrecognizedFormat));
    // Eight characters, nine bytes: the last stands where two would.
    assert_eq!(parse_rgb("#ffffff\u{e9}"), Ok(RGB::new(255, 255, 255)));
    assert_eq!(parse_rgb("#ffffff\u{7ff}"), Ok(RGB::new(255, 255, 255)));
    assert_eq!(parse_rgb("#ffffff\u{800}"), Err(ParseError::UnrecognizedFormat));
    assert_eq!(parse_rgb("#ffffff0"), Err(ParseError::UnrecognizedFormat));
    assert_eq!(parse_rgb("#ffffff\u{e9}\u{e9}"), Err(ParseError::UnrecognizedFormat));
    assert_eq!(parse_rgb("#fffff\u{e9}"), Err(ParseError::UnrecognizedFormat));
    assert_eq!(parse_rgb("#\u{e9}\u{e9}\u{e9}"), Err(ParseError::UnrecognizedFormat));
    assert_eq!(parse_rgb("#\u{e9}\u{e9}\u{e9}\u{e9}"), Err(ParseError::UnrecognizedFormat));
    // Seven or eight characters, nine bytes, but no digits where the
    // channels stand.
    assert_eq!(parse_rgb("#ffff\u{20ac}f"), Err(ParseError::InvalidHexDigit));
    assert_eq!(parse_rgb("#\u{e9}fffffa"), Err(ParseError::InvalidHexDigit));
    assert_eq!(parse_rgb("#fffff\u{e9}a"), Err(ParseError::InvalidHexDigit));
    assert_eq!(parse_rgb("#ffffffzz"), Ok(RGB::new(255, 255, 255)));
}

/// The `#` form as byte lengths and byte ranges give it, with hexadecimal
/// digits only; `None` where a range cuts a character in two.
fn hash_by_bytes(s: &str) -> Option<Result<RGB, ()>> {
    let s = s.trim();
    if !(s.starts_with('#') && (s.len() == 7 || s.len() == 9)) {
        return Some(Err(()));
    }
    let field = |from: usize| -> Option<Result<u8, ()>> {
        let digits = s.get(from..from + 2)?;
        if !digits.chars().all(|c| c.is_ascii_hexdigit()) {
            return Some(Err(()));
        }
        Some(u8::from_str_radix(digits, 16).map_err(|_| ()))
    };
    let (r, g, b) = (field(1)?, field(3)?, field(5)?);
    Some(match (r, g, b) {
        (Ok(r), Ok(g), Ok(b)) => Ok(RGB::new(r, g, b)),
        _ => Err(()),
    })
}

#[test]
fn the_hash_form_is_read_by_bytes() {
    let pieces = ["", "f", "0", "A", "z", " ", "\u{e9}", "\u{7ff}", "\u{800}", "\u{20ac}", "\u{1f600}"];
    let heads = ["#ffffff", "#fffff", "#ffff", "#12345", "#abcdef0", "#", "#00", "x#ffffff"];
    for head in heads {
        for a in pieces {
            for b in pieces {
                for c in pieces {
                    let text = format!("{head}{a}{b}{c}");
                    let ours = parse_rgb(&text).map_err(|_| ());
                    match hash_by_bytes(&text) {
                        Some(expected) => assert_eq!(ours, expected, "{text:?}"),
                        None => assert!(ours.is_err(), "{text:?}"),
                    }
                }
            }
        }
    }
}

#[test]
fn the_width_of_a_character_is_its_length_in_utf8() {
    for c in (0..=0x10ffffu32).filter_map(char::from_u32) {
        assert_eq!(utf8_width_of(c), c.len_utf8(), "{c:?}");
    }
}
