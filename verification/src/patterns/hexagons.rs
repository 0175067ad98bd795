//! A honeycomb of regular hexagons, painted by a digest.

use vstd::prelude::*;
use vstd::string::StringSliceAdditionalSpecFns;
use crate::digest::{all_digits, digits, digits_ok, read_digits, PatternError};
use crate::patterns::{digit_paints, outline, paints, stroke, without_backdrop, Pattern};
use crate::scalar::Scalar;
use crate::shape::{Drawing, DrawingView};

verus! {

/// Regular hexagons whose side the first digit says; every other column is
/// shifted down by half a hexagon.
pub struct Hexagons<'a> {
    hash: &'a str,
}

/// The side of a hexagon: digit 0 carried to the range from 8 to 60.
pub open spec fn hexagon_side(d: Seq<u8>) -> Scalar {
    Scalar::spec_rescale(d[0] as int, 0, 15, 8, 60)
}

/// The whole drawing: a canvas nine sides wide and three hexagons high, and
/// the hexagons of a grid of six by six cells whose borders wrap. Cell `i`
/// takes its paint from digit `i`; there is no background.
pub open spec fn hexagons_drawing(d: Seq<u8>) -> DrawingView<'static> {
    let l = hexagon_side(d);
    DrawingView {
        width: l.spec_times(9, 0, 1),
        height: l.spec_times(0, 3, 1),
        shapes: crate::shapes::hexagons::hexagons_drawing(
            l,
            6,
            6,
            digit_paints(d, 0, 36),
            outline(),
            "none",
        ).shapes.skip(1),
    }
}

impl<'a> Hexagons<'a> {
    /// The digest that the pattern reads.
    pub closed spec fn digest(&self) -> Seq<u8> {
        self.hash.spec_bytes()
    }

    /// A pattern over the digest `hash`.
    pub fn new(hash: &'a str) -> (r: Self)
        ensures
            r.digest() == hash.spec_bytes(),
    {
        Hexagons { hash }
    }

    /// Draws the pattern from its first 36 digits.
    pub fn render(d: &Vec<u8>) -> (r: Drawing<'static>)
        requires
            d@.len() == 36,
            all_digits(d@),
        ensures
            r@ == hexagons_drawing(d@),
    {
        let l = Scalar::of_digit(d[0], 8, 60);
        let width = l.times(9, 0, 1);
        let height = l.times(0, 3, 1);
        let fill = paints(d, 0, 36);
        let full = crate::shapes::hexagons::hexagons(l, (6, 6), fill.as_slice(), stroke(), "none");
        without_backdrop(full, width, height)
    }
}

impl<'a> Pattern for Hexagons<'a> {
    open spec fn drawing(&self) -> Option<DrawingView<'static>> {
        if digits_ok(self.digest(), 36) {
            Some(hexagons_drawing(digits(self.digest(), 36)))
        } else {
            None
        }
    }

    fn draw(&self) -> (r: Result<Drawing<'static>, PatternError>) {
        match read_digits(self.hash, 36) {
            Ok(d) => Ok(Hexagons::render(&d)),
            Err(e) => Err(e),
        }
    }
}

} // verus!
