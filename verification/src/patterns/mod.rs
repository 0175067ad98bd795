//! The catalogue of patterns.
//!
//! Every pattern reads its sizes and the paint of its cells from the first
//! digits of a digest and lays its shapes on a grid.

use vstd::prelude::*;
use vstd::string::StringSliceAdditionalSpecFns;
use crate::digest::{digits, digits_ok};
use crate::scalar::Scalar;
use crate::shape::{fill_color, opacity, opacity_of, swatch, views, Drawing, DrawingView, Shape};

pub use crate::digest::PatternError;

pub mod chevrons;
pub mod concentric_circles;
pub mod diamonds;
pub mod hexagons;
pub mod mosaic_squares;
pub mod nested_squares;
pub mod octagons;
pub mod overlapping_circles;
pub mod overlapping_rings;
pub mod plaid;
pub mod plus_signs;
pub mod sine_waves;
pub mod squares;
pub mod tessellation;
pub mod triangles;
pub mod xes;

pub use self::chevrons::Chevrons;
pub use self::concentric_circles::ConcentricCircles;
pub use self::diamonds::Diamonds;
pub use self::hexagons::Hexagons;
pub use self::mosaic_squares::MosaicSquares;
pub use self::nested_squares::NestedSquares;
pub use self::octagons::Octagons;
pub use self::overlapping_circles::OverlappingCircles;
pub use self::overlapping_rings::OverlappingRings;
pub use self::plaid::Plaid;
pub use self::plus_signs::PlusSigns;
pub use self::sine_waves::SineWaves;
pub use self::squares::Squares;
pub use self::tessellation::Tessellation;
pub use self::triangles::Triangles;
pub use self::xes::Xes;

verus! {

/// The patterns to choose from.
#[derive(Debug, Clone, Copy, PartialEq, Eq, Structural)]
pub enum Patterns {
    Chevrons,
    ConcentricCircles,
    Diamonds,
    Hexagons,
    MosaicSquares,
    NestedSquares,
    Octagons,
    OverlappingCircles,
    OverlappingRings,
    Plaid,
    PlusSigns,
    SineWaves,
    Squares,
    Tessellation,
    Triangles,
    Xes,
}

/// The paint that a run of digits gives to the cells of a pattern: for
/// cell `i` the swatch and the opacity of digit `from + i`.
pub open spec fn digit_paints(d: Seq<u8>, from: int, n: int) -> Seq<(&'static str, Scalar)> {
    Seq::new(n as nat, |i: int| (swatch(d[from + i]), opacity_of(d[from + i])))
}

/// The stroke that outlines the tiles of every pattern: black, at an
/// opacity of 0.02.
pub open spec fn outline() -> (&'static str, Scalar) {
    ("#000", Scalar::spec_ratio(2, 100))
}

/// The paint of `n` cells, read from the digits from `from` on.
pub fn paints(d: &Vec<u8>, from: usize, n: usize) -> (r: Vec<(&'static str, Scalar)>)
    requires
        from + n <= d@.len(),
    ensures
        r@ == digit_paints(d@, from as int, n as int),
{
    let mut r: Vec<(&'static str, Scalar)> = Vec::new();
    let mut i: usize = 0;
    assert(d@.len() == d.len());
    while i < n
        invariant
            0 <= i <= n,
            from + n <= d@.len() <= usize::MAX,
            r@ == digit_paints(d@, from as int, i as int),
        decreases n - i,
    {
        let v = d[from + i];
        r.push((fill_color(v), opacity(v)));
        assert(r@ =~= digit_paints(d@, from as int, i + 1));
        i = i + 1;
    }
    r
}

/// The stroke that outlines the tiles of every pattern.
pub fn stroke() -> (r: (&'static str, Scalar))
    ensures
        r == outline(),
{
    ("#000", Scalar::ratio(2, 100))
}

/// The drawing `full` without its first shape, the background, on a canvas
/// of the size `width` by `height`. A pattern has no background of its own:
/// the session that draws it paints one.
pub fn without_backdrop(full: Drawing<'static>, width: Scalar, height: Scalar) -> (r: Drawing<
    'static,
>)
    requires
        full@.shapes.len() >= 1,
    ensures
        r@ == (DrawingView { width, height, shapes: full@.shapes.skip(1) }),
{
    let mut shapes: Vec<Shape<'static>> = full.shapes;
    let ghost all = shapes@;
    assert(views(all).len() == all.len());
    shapes.remove(0);
    assert(views(shapes@) =~= views(all).skip(1));
    Drawing { width, height, shapes }
}

/// A pattern that can be drawn from the digest it was made with.
pub trait Pattern {
    /// The drawing that the digest calls for, or nothing where one of the
    /// windows that the pattern reads does not decode.
    spec fn drawing(&self) -> Option<DrawingView<'static>>;

    /// Draws the pattern. The drawing is complete or there is none: a
    /// window that does not decode is a malformed digest.
    fn draw(&self) -> (r: Result<Drawing<'static>, PatternError>)
        ensures
            self.drawing() is Some ==> r is Ok && r.unwrap()@ == self.drawing().unwrap(),
            self.drawing() is None ==> r == Err::<Drawing<'static>, PatternError>(
                PatternError::MalformedDigest,
            ),
    ;
}

impl Patterns {
    /// The name of the pattern: that of its variant.
    pub open spec fn spec_name(self) -> &'static str {
        match self {
            Patterns::Chevrons => "Chevrons",
            Patterns::ConcentricCircles => "ConcentricCircles",
            Patterns::Diamonds => "Diamonds",
            Patterns::Hexagons => "Hexagons",
            Patterns::MosaicSquares => "MosaicSquares",
            Patterns::NestedSquares => "NestedSquares",
            Patterns::Octagons => "Octagons",
            Patterns::OverlappingCircles => "OverlappingCircles",
            Patterns::OverlappingRings => "OverlappingRings",
            Patterns::Plaid => "Plaid",
            Patterns::PlusSigns => "PlusSigns",
            Patterns::SineWaves => "SineWaves",
            Patterns::Squares => "Squares",
            Patterns::Tessellation => "Tessellation",
            Patterns::Triangles => "Triangles",
            Patterns::Xes => "Xes",
        }
    }

    /// The name of the pattern: that of its variant.
    pub fn name(&self) -> (r: &'static str)
        ensures
            r == self.spec_name(),
    {
        match self {
            Patterns::Chevrons => "Chevrons",
            Patterns::ConcentricCircles => "ConcentricCircles",
            Patterns::Diamonds => "Diamonds",
            Patterns::Hexagons => "Hexagons",
            Patterns::MosaicSquares => "MosaicSquares",
            Patterns::NestedSquares => "NestedSquares",
            Patterns::Octagons => "Octagons",
            Patterns::OverlappingCircles => "OverlappingCircles",
            Patterns::OverlappingRings => "OverlappingRings",
            Patterns::Plaid => "Plaid",
            Patterns::PlusSigns => "PlusSigns",
            Patterns::SineWaves => "SineWaves",
            Patterns::Squares => "Squares",
            Patterns::Tessellation => "Tessellation",
            Patterns::Triangles => "Triangles",
            Patterns::Xes => "Xes",
        }
    }
}

/// How many digits from the front of the digest the pattern `kind` reads.
pub open spec fn digits_read(kind: Patterns) -> int {
    match kind {
        Patterns::ConcentricCircles | Patterns::NestedSquares => 40,
        Patterns::MosaicSquares => 17,
        Patterns::Tessellation => 20,
        _ => 36,
    }
}

/// The drawing that the pattern `kind` makes of the digits `d`.
pub open spec fn drawing_of(kind: Patterns, d: Seq<u8>) -> DrawingView<'static> {
    match kind {
        Patterns::Chevrons => chevrons::chevrons_drawing(d),
        Patterns::ConcentricCircles => concentric_circles::concentric_circles_drawing(d),
        Patterns::Diamonds => diamonds::diamonds_drawing(d),
        Patterns::Hexagons => hexagons::hexagons_drawing(d),
        Patterns::MosaicSquares => mosaic_squares::mosaic_squares_drawing(d),
        Patterns::NestedSquares => nested_squares::nested_squares_drawing(d),
        Patterns::Octagons => octagons::octagons_drawing(d),
        Patterns::OverlappingCircles => overlapping_circles::overlapping_circles_drawing(d),
        Patterns::OverlappingRings => overlapping_rings::overlapping_rings_drawing(d),
        Patterns::Plaid => plaid::plaid_drawing(d),
        Patterns::PlusSigns => plus_signs::plus_signs_drawing(d),
        Patterns::SineWaves => sine_waves::sine_waves_drawing(d),
        Patterns::Squares => squares::squares_drawing(d),
        Patterns::Tessellation => tessellation::tessellation_drawing(d),
        Patterns::Triangles => triangles::triangles_drawing(d),
        Patterns::Xes => xes::xes_drawing(d),
    }
}

/// The drawing that the pattern `kind` makes of a digest, or nothing where
/// one of the digits that the pattern reads does not decode.
pub open spec fn pattern_drawing(kind: Patterns, digest: Seq<u8>) -> Option<DrawingView<'static>> {
    if digits_ok(digest, digits_read(kind)) {
        Some(drawing_of(kind, digits(digest, digits_read(kind))))
    } else {
        None
    }
}

/// Draws the pattern `kind` from the digest `hash`.
pub fn draw(kind: Patterns, hash: &str) -> (r: Result<Drawing<'static>, PatternError>)
    ensures
        pattern_drawing(kind, hash.spec_bytes()) is Some ==> r is Ok && r.unwrap()@
            == pattern_drawing(kind, hash.spec_bytes()).unwrap(),
        pattern_drawing(
            kind,
            hash.spec_bytes(),
        ) is None ==> r == Err::<Drawing<'static>, PatternError>(
            PatternError::MalformedDigest,
        ),
{
    match kind {
        Patterns::Chevrons => Chevrons::new(hash).draw(),
        Patterns::ConcentricCircles => ConcentricCircles::new(hash).draw(),
        Patterns::Diamonds => Diamonds::new(hash).draw(),
        Patterns::Hexagons => Hexagons::new(hash).draw(),
        Patterns::MosaicSquares => MosaicSquares::new(hash).draw(),
        Patterns::NestedSquares => NestedSquares::new(hash).draw(),
        Patterns::Octagons => Octagons::new(hash).draw(),
        Patterns::OverlappingCircles => OverlappingCircles::new(hash).draw(),
        Patterns::OverlappingRings => OverlappingRings::new(hash).draw(),
        Patterns::Plaid => Plaid::new(hash).draw(),
        Patterns::PlusSigns => PlusSigns::new(hash).draw(),
        Patterns::SineWaves => SineWaves::new(hash).draw(),
        Patterns::Squares => Squares::new(hash).draw(),
        Patterns::Tessellation => Tessellation::new(hash).draw(),
        Patterns::Triangles => Triangles::new(hash).draw(),
        Patterns::Xes => Xes::new(hash).draw(),
    }
}

} // verus!
