use geopattern::color::{color_shift, Color};
use geopattern::geo_pattern::{default_base_color, Background, GeoPattern, GeoPatternError, DEFAULT_BASE_COLOR};
use geopattern::patterns::{draw, Patterns};
use geopattern::scalar::Scalar;

const SEED: &str = "geopattern";
const DIGEST: &str = "51551ffd119cd1cea023f9a13890ee014f8d53b7";

fn rescale(v: f64, amin: f64, amax: f64, bmin: f64, bmax: f64) -> f64 {
    bmax - (amax - v) * ((bmax - bmin) / (amax - amin))
}

#[test]
fn build_is_deterministic() {
    for seed in ["geopattern", "", "GitHub", "é→"] {
        let a = GeoPattern::new(seed).build().unwrap();
        let b = GeoPattern::new(seed).build().unwrap();
        assert_eq!(a.to_svg().unwrap(), b.to_svg().unwrap());
    }
    let a = GeoPattern::new("a").build().unwrap();
    let b = GeoPattern::new("b").build().unwrap();
    assert_ne!(a.to_svg().unwrap(), b.to_svg().unwrap());
}

#[test]
fn build_hashes_the_seed() {
    assert_eq!(sha1::Sha1::from(SEED).digest().to_string(), DIGEST);
    let session = GeoPattern::new(SEED).build().unwrap();
    let document = session.to_svg().unwrap();
    assert_eq!(document.pattern, Patterns::Xes);
    assert_eq!(document.drawing, draw(Patterns::Xes, DIGEST).unwrap());
    assert_eq!(document.background, Background::Shifted(Color::new(0x93, 0x3c, 0x3c), color_shift(DIGEST).unwrap()));
}

#[test]
fn build_selects_by_the_rounded_rescaled_digit() {
    let all = [
        Patterns::Chevrons,
        Patterns::ConcentricCircles,
        Patterns::Diamonds,
        Patterns::Hexagons,
        Patterns::MosaicSquares,
        Patterns::NestedSquares,
        Patterns::Octagons,
        Patterns::OverlappingCircles,
        Patterns::OverlappingRings,
        Patterns::Plaid,
        Patterns::PlusSigns,
        Patterns::SineWaves,
        Patterns::Squares,
        Patterns::Tessellation,
        Patterns::Triangles,
        Patterns::Xes,
    ];
    for seed in ["geopattern", "", "GitHub", "Mastering Markdown", "a", "b", "c"] {
        let hash = sha1::Sha1::from(seed).digest().to_string();
        let digit = u64::from_str_radix(&hash[20..21], 16).unwrap();
        let index = rescale(digit as f64, 0.0, 15.0, 0.0, 15.0).round() as usize;
        let session = GeoPattern::new(seed).build().unwrap();
        assert_eq!(session.to_svg().unwrap().pattern, all[index]);
    }
}

#[test]
fn build_shifts_the_base_colour_as_the_digest_says() {
    let session = GeoPattern::new(SEED).build().unwrap();
    match session.to_svg().unwrap().background {
        Background::Shifted(base, shift) => {
            assert_eq!(base.rgb(), (0x93, 0x3c, 0x3c));
            let hue = shift.hue.num as f64 / shift.hue.den as f64;
            let chroma = shift.chroma.num as f64 / shift.chroma.den as f64;
            assert!((hue - rescale(0xcea as f64, 0.0, 4095.0, 0.0, 359.0)).abs() < 1e-9);
            assert!((chroma - rescale(0.0, 0.0, 15.0, 0.0, 1.0)).abs() < 1e-9);
            assert!(shift.add);
        }
        Background::Fixed(_) => panic!("the background is not shifted"),
    }
}

#[test]
fn build_uses_the_base_colour_that_is_set() {
    let base = Color::hex("#abc").unwrap();
    let session = GeoPattern::new(SEED).base_color(base).build().unwrap();
    assert_eq!(session.to_svg().unwrap().background, Background::Shifted(base, color_shift(DIGEST).unwrap()));
}

#[test]
fn build_uses_the_colour_that_is_set() {
    let color = Color::hex("#123456").unwrap();
    let session = GeoPattern::new(SEED).color(color).build().unwrap();
    assert_eq!(session.to_svg().unwrap().background, Background::Fixed(color));
    let session = GeoPattern::new(SEED).base_color(Color::new(1, 2, 3)).color(color).build().unwrap();
    assert_eq!(session.to_svg().unwrap().background, Background::Fixed(color));
}

#[test]
fn build_chooses_from_the_catalogue_that_is_set() {
    let session = GeoPattern::new(SEED).patterns(&[Patterns::Plaid, Patterns::Squares, Patterns::Diamonds]).build().unwrap();
    let document = session.to_svg().unwrap();
    assert_eq!(document.pattern, Patterns::Diamonds);
    assert_eq!(document.drawing, draw(Patterns::Diamonds, DIGEST).unwrap());
    let session = GeoPattern::new("").patterns(&[Patterns::Plaid, Patterns::Squares, Patterns::Diamonds]).build().unwrap();
    assert_eq!(session.to_svg().unwrap().pattern, Patterns::Squares);
    assert_eq!(session.to_svg().unwrap().drawing.width, Scalar { num: 6 * (150 + 50 * 13), root3: 0, den: 15 });
}

#[test]
fn build_refuses_an_empty_catalogue() {
    let failed = GeoPattern::new(SEED).patterns(&[]).build();
    assert!(matches!(failed, Err(GeoPatternError::EmptyPatternCatalog)));
}

#[test]
fn output_needs_a_built_document() {
    let session = GeoPattern::new(SEED);
    assert!(matches!(session.to_svg(), Err(GeoPatternError::NotBuilt)));
    assert_eq!(session.to_minified_svg("<svg/>"), Err(GeoPatternError::NotBuilt));
    assert_eq!(session.to_data_uri("<svg/>"), Err(GeoPatternError::NotBuilt));
    assert_eq!(session.to_base64("<svg/>"), Err(GeoPatternError::NotBuilt));
    assert_eq!(session.to_base64_data_uri("<svg/>"), Err(GeoPatternError::NotBuilt));
}

#[test]
fn output_of_a_built_document() {
    let session = GeoPattern::new(SEED).build().unwrap();
    assert!(session.to_svg().is_ok());
    assert_eq!(session.to_minified_svg("<svg>\n</svg>"), Ok("<svg></svg>".to_string()));
    assert_eq!(session.to_data_uri("<svg>\n</svg>"), Ok("data:image/svg+xml;utf8,<svg></svg>".to_string()));
    assert_eq!(session.to_base64("<svg>\n</svg>"), Ok("PHN2Zz48L3N2Zz4=".to_string()));
    assert_eq!(session.to_base64_data_uri("<svg>\n</svg>"), Ok("data:image/svg+xml;base64,PHN2Zz48L3N2Zz4=".to_string()));
}

#[test]
fn default_base_colour_is_read_from_its_hex_form() {
    assert_eq!(DEFAULT_BASE_COLOR, "#933c3c");
    assert_eq!(default_base_color().rgb(), (0x93, 0x3c, 0x3c));
    assert_eq!(Ok(default_base_color()), Color::hex(DEFAULT_BASE_COLOR));
}
