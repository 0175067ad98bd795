//! Rhombuses in staggered rows, painted by a digest.

use vstd::prelude::*;
use vstd::string::StringSliceAdditionalSpecFns;
use crate::digest::{all_digits, digits, digits_ok, read_digits, PatternError};
use crate::patterns::{digit_paints, outline, paints, stroke, without_backdrop, Pattern};
use crate::scalar::Scalar;
use crate::shape::{Drawing, DrawingView};

verus! {

/// Rhombuses, each as wide and as high as the first two digits say; every
/// other row is shifted by half a rhombus.
pub struct Diamonds<'a> {
    hash: &'a str,
}

/// The width of a rhombus: digit 0 carried to the range from 10 to 50.
pub open spec fn diamond_width(d: Seq<u8>) -> Scalar {
    Scalar::spec_rescale(d[0] as int, 0, 15, 10, 50)
}

/// The height of a rhombus: digit 1 carried to the range from 10 to 50.
pub open spec fn diamond_height(d: Seq<u8>) -> Scalar {
    Scalar::spec_rescale(d[1] as int, 0, 15, 10, 50)
}

/// The whole drawing: a canvas six rhombuses wide and three high, and the
/// rhombuses of a grid of six by six cells whose borders wrap. Cell `i`
/// takes its paint from digit `i`; there is no background.
pub open spec fn diamonds_drawing(d: Seq<u8>) -> DrawingView<'static> {
    let w = diamond_width(d);
    let h = diamond_height(d);
    DrawingView {
        width: w.spec_times(6, 0, 1),
        height: h.spec_times(3, 0, 1),
        shapes: crate::shapes::diamonds::diamonds_drawing(
            (w, h),
            6,
            6,
            digit_paints(d, 0, 36),
            outline(),
            "none",
        ).shapes.skip(1),
    }
}

impl<'a> Diamonds<'a> {
    /// The digest that the pattern reads.
    pub closed spec fn digest(&self) -> Seq<u8> {
        self.hash.spec_bytes()
    }

    /// A pattern over the digest `hash`.
    pub fn new(hash: &'a str) -> (r: Self)
        ensures
            r.digest() == hash.spec_bytes(),
    {
        Diamonds { hash }
    }

    /// Draws the pattern from its first 36 digits.
    pub fn render(d: &Vec<u8>) -> (r: Drawing<'static>)
        requires
            d@.len() == 36,
            all_digits(d@),
        ensures
            r@ == diamonds_drawing(d@),
    {
        let w = Scalar::of_digit(d[0], 10, 50);
        let h = Scalar::of_digit(d[1], 10, 50);
        let width = w.times(6, 0, 1);
        let height = h.times(3, 0, 1);
        let fill = paints(d, 0, 36);
        let full = crate::shapes::diamonds::diamonds(
            (w, h),
            (6, 6),
            fill.as_slice(),
            stroke(),
            "none",
        );
        without_backdrop(full, width, height)
    }
}

impl<'a> Pattern for Diamonds<'a> {
    open spec fn drawing(&self) -> Option<DrawingView<'static>> {
        if digits_ok(self.digest(), 36) {
            Some(diamonds_drawing(digits(self.digest(), 36)))
        } else {
            None
        }
    }

    fn draw(&self) -> (r: Result<Drawing<'static>, PatternError>) {
        match read_digits(self.hash, 36) {
            Ok(d) => Ok(Diamonds::render(&d)),
            Err(e) => Err(e),
        }
    }
}

} // verus!
