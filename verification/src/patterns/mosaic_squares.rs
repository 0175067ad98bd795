//! Squares made of four right triangles each, painted by a digest.

use vstd::prelude::*;
use vstd::string::StringSliceAdditionalSpecFns;
use crate::digest::{all_digits, digits, digits_ok, read_digits, PatternError};
use crate::patterns::{digit_paints, outline, paints, stroke, without_backdrop, Pattern};
use crate::scalar::Scalar;
use crate::shape::{Drawing, DrawingView};

verus! {

/// Tiles of four triangles whose side the first digit says.
pub struct MosaicSquares<'a> {
    hash: &'a str,
}

/// The short side of a triangle: digit 0 carried to the range from 15 to 50.
pub open spec fn mosaic_side(d: Seq<u8>) -> Scalar {
    Scalar::spec_rescale(d[0] as int, 0, 15, 15, 50)
}

/// The whole drawing: a canvas eight sides wide and high, and the four
/// triangles of each tile of a grid of four by four tiles. Tile `i` takes
/// its outer paint from digit `i` and its inner paint from digit `i + 1`;
/// there is no background.
pub open spec fn mosaic_squares_drawing(d: Seq<u8>) -> DrawingView<'static> {
    let s = mosaic_side(d);
    DrawingView {
        width: s.spec_times(8, 0, 1),
        height: s.spec_times(8, 0, 1),
        shapes: crate::shapes::mosaic_squares::mosaic_squares_drawing(
            s,
            4,
            4,
            digit_paints(d, 0, 16),
            digit_paints(d, 1, 16),
            outline(),
            "none",
        ).shapes.skip(1),
    }
}

impl<'a> MosaicSquares<'a> {
    /// The digest that the pattern reads.
    pub closed spec fn digest(&self) -> Seq<u8> {
        self.hash.spec_bytes()
    }

    /// A pattern over the digest `hash`.
    pub fn new(hash: &'a str) -> (r: Self)
        ensures
            r.digest() == hash.spec_bytes(),
    {
        MosaicSquares { hash }
    }

    /// Draws the pattern from its first 17 digits.
    pub fn render(d: &Vec<u8>) -> (r: Drawing<'static>)
        requires
            d@.len() == 17,
            all_digits(d@),
        ensures
            r@ == mosaic_squares_drawing(d@),
    {
        let s = Scalar::of_digit(d[0], 15, 50);
        let width = s.times(8, 0, 1);
        let height = s.times(8, 0, 1);
        let outer = paints(d, 0, 16);
        let inner = paints(d, 1, 16);
        let full = crate::shapes::mosaic_squares::mosaic_squares(
            s,
            (4, 4),
            outer.as_slice(),
            inner.as_slice(),
            stroke(),
            "none",
        );
        without_backdrop(full, width, height)
    }
}

impl<'a> Pattern for MosaicSquares<'a> {
    open spec fn drawing(&self) -> Option<DrawingView<'static>> {
        if digits_ok(self.digest(), 17) {
            Some(mosaic_squares_drawing(digits(self.digest(), 17)))
        } else {
            None
        }
    }

    fn draw(&self) -> (r: Result<Drawing<'static>, PatternError>) {
        match read_digits(self.hash, 17) {
            Ok(d) => Ok(MosaicSquares::render(&d)),
            Err(e) => Err(e),
        }
    }
}

} // verus!
