//! A tessellation of squares and triangles round hexagons, painted by a digest.

use vstd::prelude::*;
use vstd::string::StringSliceAdditionalSpecFns;
use crate::digest::{all_digits, digits, digits_ok, read_digits, PatternError};
use crate::patterns::{digit_paints, outline, paints, stroke, without_backdrop, Pattern};
use crate::scalar::Scalar;
use crate::shape::{Drawing, DrawingView};

verus! {

/// Squares and triangles whose side the first digit says, laid round
/// hexagons so that the canvas tiles.
pub struct Tessellation<'a> {
    hash: &'a str,
}

/// The side of every tile: digit 0 carried to the range from 5 to 40.
pub open spec fn tessellation_side(d: Seq<u8>) -> Scalar {
    Scalar::spec_rescale(d[0] as int, 0, 15, 5, 40)
}

/// The whole drawing: a canvas `3 + sqrt(3)` sides wide and
/// `2 + 2 * sqrt(3)` sides high, and the drawings of the 20 tiles in order.
/// Tile `i` takes its paint from digit `i`; there is no background.
pub open spec fn tessellation_drawing(d: Seq<u8>) -> DrawingView<'static> {
    let l = tessellation_side(d);
    DrawingView {
        width: l.spec_times(3, 1, 1),
        height: l.spec_times(2, 2, 1),
        shapes: crate::shapes::tesselation::tesselation_drawing(
            l,
            digit_paints(d, 0, 20),
            outline(),
            "none",
        ).shapes.skip(1),
    }
}

impl<'a> Tessellation<'a> {
    /// The digest that the pattern reads.
    pub closed spec fn digest(&self) -> Seq<u8> {
        self.hash.spec_bytes()
    }

    /// A pattern over the digest `hash`.
    pub fn new(hash: &'a str) -> (r: Self)
        ensures
            r.digest() == hash.spec_bytes(),
    {
        Tessellation { hash }
    }

    /// Draws the pattern from its first 20 digits.
    pub fn render(d: &Vec<u8>) -> (r: Drawing<'static>)
        requires
            d@.len() == 20,
            all_digits(d@),
        ensures
            r@ == tessellation_drawing(d@),
    {
        let l = Scalar::of_digit(d[0], 5, 40);
        let width = l.times(3, 1, 1);
        let height = l.times(2, 2, 1);
        let fill = paints(d, 0, 20);
        let full = crate::shapes::tesselation::tesselation(l, fill.as_slice(), stroke(), "none");
        without_backdrop(full, width, height)
    }
}

impl<'a> Pattern for Tessellation<'a> {
    open spec fn drawing(&self) -> Option<DrawingView<'static>> {
        if digits_ok(self.digest(), 20) {
            Some(tessellation_drawing(digits(self.digest(), 20)))
        } else {
            None
        }
    }

    fn draw(&self) -> (r: Result<Drawing<'static>, PatternError>) {
        match read_digits(self.hash, 20) {
            Ok(d) => Ok(Tessellation::render(&d)),
            Err(e) => Err(e),
        }
    }
}

} // verus!
