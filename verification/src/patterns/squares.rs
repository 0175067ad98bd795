//! A plain grid of squares, painted by a digest.

use vstd::prelude::*;
use vstd::string::StringSliceAdditionalSpecFns;
use crate::digest::{all_digits, digits, digits_ok, read_digits, PatternError};
use crate::patterns::{digit_paints, outline, paints, stroke, without_backdrop, Pattern};
use crate::scalar::Scalar;
use crate::shape::{Drawing, DrawingView};

verus! {

/// Squares whose side the first digit says.
pub struct Squares<'a> {
    hash: &'a str,
}

/// The side of a square: digit 0 carried to the range from 10 to 60.
pub open spec fn square_side(d: Seq<u8>) -> Scalar {
    Scalar::spec_rescale(d[0] as int, 0, 15, 10, 60)
}

/// The whole drawing: a canvas six squares wide and high, and the squares
/// of a grid of six by six cells, each drawn once. Cell `i` takes its paint
/// from digit `i`; there is no background.
pub open spec fn squares_drawing(d: Seq<u8>) -> DrawingView<'static> {
    let s = square_side(d);
    DrawingView {
        width: s.spec_times(6, 0, 1),
        height: s.spec_times(6, 0, 1),
        shapes: crate::shapes::squares::squares_drawing(
            s,
            6,
            6,
            digit_paints(d, 0, 36),
            outline(),
            "none",
        ).shapes.skip(1),
    }
}

impl<'a> Squares<'a> {
    /// The digest that the pattern reads.
    pub closed spec fn digest(&self) -> Seq<u8> {
        self.hash.spec_bytes()
    }

    /// A pattern over the digest `hash`.
    pub fn new(hash: &'a str) -> (r: Self)
        ensures
            r.digest() == hash.spec_bytes(),
    {
        Squares { hash }
    }

    /// Draws the pattern from its first 36 digits.
    pub fn render(d: &Vec<u8>) -> (r: Drawing<'static>)
        requires
            d@.len() == 36,
            all_digits(d@),
        ensures
            r@ == squares_drawing(d@),
    {
        let s = Scalar::of_digit(d[0], 10, 60);
        let width = s.times(6, 0, 1);
        let height = s.times(6, 0, 1);
        let fill = paints(d, 0, 36);
        let full = crate::shapes::squares::squares(s, (6, 6), fill.as_slice(), stroke(), "none");
        without_backdrop(full, width, height)
    }
}

impl<'a> Pattern for Squares<'a> {
    open spec fn drawing(&self) -> Option<DrawingView<'static>> {
        if digits_ok(self.digest(), 36) {
            Some(squares_drawing(digits(self.digest(), 36)))
        } else {
            None
        }
    }

    fn draw(&self) -> (r: Result<Drawing<'static>, PatternError>) {
        match read_digits(self.hash, 36) {
            Ok(d) => Ok(Squares::render(&d)),
            Err(e) => Err(e),
        }
    }
}

} // verus!
