//! Rows of chevrons, painted by a digest.

use vstd::prelude::*;
use vstd::string::StringSliceAdditionalSpecFns;
use crate::digest::{all_digits, digits, digits_ok, read_digits, PatternError};
use crate::patterns::{digit_paints, outline, paints, stroke, without_backdrop, Pattern};
use crate::scalar::Scalar;
use crate::shape::{Drawing, DrawingView};

verus! {

/// Chevrons whose width the first digit says.
pub struct Chevrons<'a> {
    hash: &'a str,
}

/// The width of a chevron: digit 0 carried to the range from 30 to 80.
pub open spec fn chevron_width(d: Seq<u8>) -> Scalar {
    Scalar::spec_rescale(d[0] as int, 0, 15, 30, 80)
}

/// The whole drawing: a canvas six chevrons wide and 3.96 widths high, and
/// the chevrons of a grid of six by six cells whose borders wrap. Cell `i`
/// takes its paint from digit `i`; there is no background.
pub open spec fn chevrons_drawing(d: Seq<u8>) -> DrawingView<'static> {
    let w = chevron_width(d);
    DrawingView {
        width: w.spec_times(6, 0, 1),
        height: w.spec_times(396, 0, 100),
        shapes: crate::shapes::chevrons::chevrons_drawing(
            w,
            6,
            6,
            digit_paints(d, 0, 36),
            outline(),
            "none",
        ).shapes.skip(1),
    }
}

impl<'a> Chevrons<'a> {
    /// The digest that the pattern reads.
    pub closed spec fn digest(&self) -> Seq<u8> {
        self.hash.spec_bytes()
    }

    /// A pattern over the digest `hash`.
    pub fn new(hash: &'a str) -> (r: Self)
        ensures
            r.digest() == hash.spec_bytes(),
    {
        Chevrons { hash }
    }

    /// Draws the pattern from its first 36 digits.
    pub fn render(d: &Vec<u8>) -> (r: Drawing<'static>)
        requires
            d@.len() == 36,
            all_digits(d@),
        ensures
            r@ == chevrons_drawing(d@),
    {
        let w = Scalar::of_digit(d[0], 30, 80);
        let width = w.times(6, 0, 1);
        let height = w.times(396, 0, 100);
        let fill = paints(d, 0, 36);
        let full = crate::shapes::chevrons::chevrons(w, (6, 6), fill.as_slice(), stroke(), "none");
        without_backdrop(full, width, height)
    }
}

impl<'a> Pattern for Chevrons<'a> {
    open spec fn drawing(&self) -> Option<DrawingView<'static>> {
        if digits_ok(self.digest(), 36) {
            Some(chevrons_drawing(digits(self.digest(), 36)))
        } else {
            None
        }
    }

    fn draw(&self) -> (r: Result<Drawing<'static>, PatternError>) {
        match read_digits(self.hash, 36) {
            Ok(d) => Ok(Chevrons::render(&d)),
            Err(e) => Err(e),
        }
    }
}

} // verus!
