//! A grid of octagons, painted by a digest.

use vstd::prelude::*;
use vstd::string::StringSliceAdditionalSpecFns;
use crate::digest::{all_digits, digits, digits_ok, read_digits, PatternError};
use crate::patterns::{digit_paints, outline, paints, stroke, without_backdrop, Pattern};
use crate::scalar::Scalar;
use crate::shape::{Drawing, DrawingView};

verus! {

/// Octagons whose width the first digit says.
pub struct Octagons<'a> {
    hash: &'a str,
}

/// The width of an octagon: digit 0 carried to the range from 10 to 60.
pub open spec fn octagon_size(d: Seq<u8>) -> Scalar {
    Scalar::spec_rescale(d[0] as int, 0, 15, 10, 60)
}

/// The whole drawing: a canvas six octagons wide and high, and the
/// octagons of a grid of six by six cells, each drawn once. Cell `i` takes
/// its paint from digit `i`; there is no background.
pub open spec fn octagons_drawing(d: Seq<u8>) -> DrawingView<'static> {
    let s = octagon_size(d);
    DrawingView {
        width: s.spec_times(6, 0, 1),
        height: s.spec_times(6, 0, 1),
        shapes: crate::shapes::octagons::octagons_drawing(
            s,
            6,
            6,
            digit_paints(d, 0, 36),
            outline(),
            "none",
        ).shapes.skip(1),
    }
}

impl<'a> Octagons<'a> {
    /// The digest that the pattern reads.
    pub closed spec fn digest(&self) -> Seq<u8> {
        self.hash.spec_bytes()
    }

    /// A pattern over the digest `hash`.
    pub fn new(hash: &'a str) -> (r: Self)
        ensures
            r.digest() == hash.spec_bytes(),
    {
        Octagons { hash }
    }

    /// Draws the pattern from its first 36 digits.
    pub fn render(d: &Vec<u8>) -> (r: Drawing<'static>)
        requires
            d@.len() == 36,
            all_digits(d@),
        ensures
            r@ == octagons_drawing(d@),
    {
        let s = Scalar::of_digit(d[0], 10, 60);
        let width = s.times(6, 0, 1);
        let height = s.times(6, 0, 1);
        let fill = paints(d, 0, 36);
        let full = crate::shapes::octagons::octagons(s, (6, 6), fill.as_slice(), stroke(), "none");
        without_backdrop(full, width, height)
    }
}

impl<'a> Pattern for Octagons<'a> {
    open spec fn drawing(&self) -> Option<DrawingView<'static>> {
        if digits_ok(self.digest(), 36) {
            Some(octagons_drawing(digits(self.digest(), 36)))
        } else {
            None
        }
    }

    fn draw(&self) -> (r: Result<Drawing<'static>, PatternError>) {
        match read_digits(self.hash, 36) {
            Ok(d) => Ok(Octagons::render(&d)),
            Err(e) => Err(e),
        }
    }
}

} // verus!
