use geopattern::color::{color_shift, Color, ColorError, ColorShift};
use geopattern::digest::PatternError;
use geopattern::scalar::Scalar;

const CASES: [(&str, (f64, f64, f64)); 15] = [
    ("#ffffff", (1.0, 1.0, 1.0)),
    ("#80ffff", (0.5, 1.0, 1.0)),
    ("#ff80ff", (1.0, 0.5, 1.0)),
    ("#ffff80", (1.0, 1.0, 0.5)),
    ("#8080ff", (0.5, 0.5, 1.0)),
    ("#ff8080", (1.0, 0.5, 0.5)),
    ("#80ff80", (0.5, 1.0, 0.5)),
    ("#808080", (0.5, 0.5, 0.5)),
    ("#00ffff", (0.0, 1.0, 1.0)),
    ("#ff00ff", (1.0, 0.0, 1.0)),
    ("#ffff00", (1.0, 1.0, 0.0)),
    ("#0000ff", (0.0, 0.0, 1.0)),
    ("#00ff00", (0.0, 1.0, 0.0)),
    ("#ff0000", (1.0, 0.0, 0.0)),
    ("#000000", (0.0, 0.0, 0.0)),
];

#[test]
fn rgb_conversion() {
    for (hex, rgb) in &CASES {
        let c = Color::hex(hex).unwrap();
        let channel = |v: f64| (v * 255.0).round() as u8;
        assert!(c.almost_equal(&Color::new(channel(rgb.0), channel(rgb.1), channel(rgb.2))));
    }
}

#[test]
fn hex_reads_the_long_form() {
    assert_eq!(Color::hex("#933c3c").map(|c| c.rgb()), Ok((0x93, 0x3c, 0x3c)));
    assert_eq!(Color::hex("#FEDCBA").map(|c| c.rgb()), Ok((0xfe, 0xdc, 0xba)));
    assert_eq!(Color::hex("#000000").map(|c| c.rgb()), Ok((0, 0, 0)));
}

#[test]
fn hex_doubles_the_digits_of_the_short_form() {
    assert_eq!(Color::hex("#abc").map(|c| c.rgb()), Ok((0xaa, 0xbb, 0xcc)));
    assert_eq!(Color::hex("#fff").map(|c| c.rgb()), Ok((255, 255, 255)));
    assert_eq!(Color::hex("#000").map(|c| c.rgb()), Ok((0, 0, 0)));
    assert_eq!(Color::hex("#222"), Color::hex("#222222"));
}

#[test]
fn hex_refuses_other_text() {
    for s in ["", "#", "abc", "abcdef", "fedcba9", "#ab", "#abcd", "#abcde", "#abcdefa", "#ggg", "#12345g", "#+12", "#+12345", " #abc", "#é2"] {
        assert_eq!(Color::hex(s), Err(ColorError::InvalidHexColor));
    }
}

#[test]
fn new_keeps_the_channels() {
    assert_eq!(Color::new(1, 2, 3).rgb(), (1, 2, 3));
    assert_eq!(Color::new(0x93, 0x3c, 0x3c), Color::hex("#933c3c").unwrap());
}

#[test]
fn almost_equal_allows_less_than_three_steps() {
    let c = Color::new(100, 100, 100);
    assert!(c.almost_equal(&c));
    assert!(c.almost_equal(&Color::new(101, 99, 100)));
    assert!(c.almost_equal(&Color::new(100, 100, 102)));
    assert!(!c.almost_equal(&Color::new(101, 101, 101)));
    assert!(!c.almost_equal(&Color::new(100, 97, 100)));
    assert!(!Color::new(0, 0, 0).almost_equal(&Color::new(255, 255, 255)));
    assert!(Color::new(255, 0, 255).almost_equal(&Color::new(254, 1, 255)));
}

#[test]
fn color_shift_reads_hue_and_chroma() {
    let shift = color_shift("51551ffd119cd1cea023f9a13890ee014f8d53b7");
    let expected = ColorShift {
        hue: Scalar { num: 359 * 0xcea, root3: 0, den: 4095 },
        chroma: Scalar { num: 0, root3: 0, den: 15 },
        add: true,
    };
    assert_eq!(shift, Ok(expected));
    let shift = color_shift("5442e2b64fa09764b9f593867e59a97292c84059");
    let expected = ColorShift {
        hue: Scalar { num: 359 * 0x64b, root3: 0, den: 4095 },
        chroma: Scalar { num: 9, root3: 0, den: 15 },
        add: false,
    };
    assert_eq!(shift, Ok(expected));
}

#[test]
fn color_shift_follows_the_formula() {
    let shift = color_shift("00000000000000fff8").unwrap();
    assert_eq!(shift.hue.num, 359 * shift.hue.den);
    let hue = shift.hue.num as f64 / shift.hue.den as f64;
    assert_eq!(hue, 359.0 - (4095.0 - 4095.0) * (359.0 / 4095.0));
    let chroma = shift.chroma.num as f64 / shift.chroma.den as f64;
    assert!((chroma - (1.0 - (15.0 - 8.0) * (1.0 / 15.0))).abs() < 1e-12);
    assert!(shift.add);
}

#[test]
fn color_shift_refuses_a_malformed_digest() {
    assert_eq!(color_shift("51551ffd119cd1cea"), Err(PatternError::MalformedDigest));
    assert_eq!(color_shift("51551ffd119cd1"), Err(PatternError::MalformedDigest));
    assert_eq!(color_shift("51551ffd119cd1cxa0"), Err(PatternError::MalformedDigest));
    assert_eq!(color_shift("51551ffd119cd1ceaz"), Err(PatternError::MalformedDigest));
    assert_eq!(color_shift(""), Err(PatternError::MalformedDigest));
}
