use geopattern::geo_pattern::GeoPatternError;
use geopattern::patterns::Patterns;
use geopattern::selector::{select, select_index};

const DIGEST: &str = "51551ffd119cd1cea023f9a13890ee014f8d53b7";

fn rescale(v: f64, amin: f64, amax: f64, bmin: f64, bmax: f64) -> f64 {
    bmax - (amax - v) * ((bmax - bmin) / (amax - amin))
}

#[test]
fn select_index_stays_inside_the_catalogue() {
    for count in 1..=200usize {
        for digit in 0..=15u8 {
            assert!(select_index(digit, count) < count);
        }
    }
    assert!(select_index(15, usize::MAX) < usize::MAX);
}

#[test]
fn select_index_rounds_the_rescaled_digit() {
    for count in 1..=200usize {
        for digit in 0..=15u8 {
            let expected = rescale(digit as f64, 0.0, 15.0, 0.0, (count - 1) as f64).round() as usize;
            assert_eq!(select_index(digit, count), expected);
        }
    }
}

#[test]
fn select_index_maps_the_ends_to_the_ends() {
    assert_eq!(select_index(0, 16), 0);
    assert_eq!(select_index(15, 16), 15);
    assert_eq!(select_index(7, 16), 7);
    assert_eq!(select_index(0, 1), 0);
    assert_eq!(select_index(15, 1), 0);
    assert_eq!(select_index(7, 3), 1);
    assert_eq!(select_index(8, 2), 1);
    assert_eq!(select_index(7, 2), 0);
    assert_eq!(select_index(15, usize::MAX), usize::MAX - 1);
}

#[test]
fn select_reads_the_digit_at_twenty() {
    let all = [
        Patterns::Chevrons,
        Patterns::ConcentricCircles,
        Patterns::Diamonds,
        Patterns::Hexagons,
        Patterns::MosaicSquares,
        Patterns::NestedSquares,
        Patterns::Octagons,
        Patterns::OverlappingCircles,
        Patterns::OverlappingRings,
        Patterns::Plaid,
        Patterns::PlusSigns,
        Patterns::SineWaves,
        Patterns::Squares,
        Patterns::Tessellation,
        Patterns::Triangles,
        Patterns::Xes,
    ];
    assert_eq!(select(DIGEST, &all), Ok(Patterns::Xes));
    assert_eq!(select("da39a3ee5e6b4b0d3255bfef95601890afd80709", &all), Ok(Patterns::SineWaves));
    assert_eq!(select("e8df966767fbd3a383c53216799beb4b4564cb74", &all), Ok(Patterns::Hexagons));
    assert_eq!(select(DIGEST, &[Patterns::Plaid, Patterns::Squares]), Ok(Patterns::Squares));
    assert_eq!(select(DIGEST, &[Patterns::Plaid]), Ok(Patterns::Plaid));
}

#[test]
fn select_refuses_an_empty_catalogue() {
    assert_eq!(select(DIGEST, &[]), Err(GeoPatternError::EmptyPatternCatalog));
    assert_eq!(select("", &[]), Err(GeoPatternError::EmptyPatternCatalog));
}

#[test]
fn select_refuses_a_malformed_digest() {
    assert_eq!(select("51551ffd119cd1cea023", &[Patterns::Plaid]), Err(GeoPatternError::MalformedDigest));
    assert_eq!(
        select("51551ffd119cd1cea023x9a13890ee014f8d53b7", &[Patterns::Plaid]),
        Err(GeoPatternError::MalformedDigest)
    );
}
