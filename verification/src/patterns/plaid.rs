//! Crossing stripes of varying width.

use vstd::prelude::*;
use vstd::string::StringSliceAdditionalSpecFns;
use crate::digest::{all_digits, digits, digits_ok, read_digits, PatternError};
use crate::patterns::Pattern;
use crate::scalar::Scalar;
use crate::shape::{
    collect, fill_color, opacity, opacity_of, push_shape, put_number, put_text, swatch, views,
    with_number, with_text, Drawing, DrawingView, Piece, Shape, ShapeView, Tag,
};

verus! {

/// Eighteen horizontal and eighteen vertical stripes; pairs of digits say
/// how far each stripe lies from the one before and how thick it is.
pub struct Plaid<'a> {
    hash: &'a str,
}

/// Where stripe `k - 1` ends, which is where the gap before stripe `k`
/// begins. Every gap and every thickness is its digit plus 5.
pub open spec fn plaid_end(d: Seq<u8>, k: int) -> int
    decreases k,
{
    if k <= 0 {
        0
    } else {
        plaid_end(d, k - 1) + d[2 * (k - 1)] + 5 + d[2 * (k - 1) + 1] + 5
    }
}

/// Where stripe `k` begins: after the gap that digit `2 * k` says.
pub open spec fn plaid_start(d: Seq<u8>, k: int) -> int {
    plaid_end(d, k) + d[2 * k] + 5
}

/// Horizontal stripe `k`: as wide as the canvas, painted and made thick by
/// digit `2 * k + 1`.
pub open spec fn plaid_band(d: Seq<u8>, k: int) -> ShapeView<'static> {
    let v = d[2 * k + 1];
    let p = Seq::<Piece>::empty();
    let p = with_number(p, "x", Scalar::spec_whole(0));
    let p = with_number(p, "y", Scalar::spec_whole(plaid_start(d, k)));
    let p = with_text(p, "width", "100%");
    let p = with_number(p, "height", Scalar::spec_whole(v + 5));
    let p = with_number(p, "opacity", opacity_of(v));
    let p = with_text(p, "fill", swatch(v));
    ShapeView { tag: Tag::Rectangle, pieces: p }
}

/// Vertical stripe `k`: as high as the canvas, painted and made thick by
/// digit `2 * k + 1`.
pub open spec fn plaid_bar(d: Seq<u8>, k: int) -> ShapeView<'static> {
    let v = d[2 * k + 1];
    let p = Seq::<Piece>::empty();
    let p = with_number(p, "x", Scalar::spec_whole(plaid_start(d, k)));
    let p = with_number(p, "y", Scalar::spec_whole(0));
    let p = with_number(p, "width", Scalar::spec_whole(v + 5));
    let p = with_text(p, "height", "100%");
    let p = with_number(p, "opacity", opacity_of(v));
    let p = with_text(p, "fill", swatch(v));
    ShapeView { tag: Tag::Rectangle, pieces: p }
}

/// The whole drawing: the eighteen horizontal stripes from the top down,
/// then the eighteen vertical ones from the left, on a canvas that ends
/// where the last stripe ends.
pub open spec fn plaid_drawing(d: Seq<u8>) -> DrawingView<'static> {
    DrawingView {
        width: Scalar::spec_whole(plaid_end(d, 18)),
        height: Scalar::spec_whole(plaid_end(d, 18)),
        shapes: collect(18, |k: int| seq![plaid_band(d, k)]) + collect(
            18,
            |k: int| seq![plaid_bar(d, k)],
        ),
    }
}

impl<'a> Plaid<'a> {
    /// The digest that the pattern reads.
    pub closed spec fn digest(&self) -> Seq<u8> {
        self.hash.spec_bytes()
    }

    /// A pattern over the digest `hash`.
    pub fn new(hash: &'a str) -> (r: Self)
        ensures
            r.digest() == hash.spec_bytes(),
    {
        Plaid { hash }
    }

    /// Draws the pattern from its first 36 digits.
    pub fn render(d: &Vec<u8>) -> (r: Drawing<'static>)
        requires
            d@.len() == 36,
            all_digits(d@),
        ensures
            r@ == plaid_drawing(d@),
    {
        let mut shapes: Vec<Shape> = Vec::new();
        let mut end: i64 = 0;
        let mut k: usize = 0;
        while k < 18
            invariant
                0 <= k <= 18,
                d@.len() == 36,
                all_digits(d@),
                end == plaid_end(d@, k as int),
                0 <= end <= 40 * k,
                views(shapes@) == collect(k as nat, |k: int| seq![plaid_band(d@, k)]),
            decreases 18 - k,
        {
            let ghost before = views(shapes@);
            let start: i64 = end + d[2 * k] as i64 + 5;
            let v = d[2 * k + 1];
            let mut p: Vec<Piece> = Vec::new();
            put_number(&mut p, "x", Scalar::whole(0));
            put_number(&mut p, "y", Scalar::whole(start));
            put_text(&mut p, "width", "100%");
            put_number(&mut p, "height", Scalar::whole(v as i64 + 5));
            put_number(&mut p, "opacity", opacity(v));
            put_text(&mut p, "fill", fill_color(v));
            push_shape(&mut shapes, Tag::Rectangle, p);
            assert(views(shapes@) =~= before + seq![plaid_band(d@, k as int)]);
            end = start + v as i64 + 5;
            k = k + 1;
        }
        let ghost bands = views(shapes@);
        let height = Scalar::whole(end);
        let mut end: i64 = 0;
        let mut k: usize = 0;
        while k < 18
            invariant
                0 <= k <= 18,
                d@.len() == 36,
                all_digits(d@),
                end == plaid_end(d@, k as int),
                0 <= end <= 40 * k,
                views(shapes@) == bands + collect(k as nat, |k: int| seq![plaid_bar(d@, k)]),
            decreases 18 - k,
        {
            let ghost before = views(shapes@);
            let start: i64 = end + d[2 * k] as i64 + 5;
            let v = d[2 * k + 1];
            let mut p: Vec<Piece> = Vec::new();
            put_number(&mut p, "x", Scalar::whole(start));
            put_number(&mut p, "y", Scalar::whole(0));
            put_number(&mut p, "width", Scalar::whole(v as i64 + 5));
            put_text(&mut p, "height", "100%");
            put_number(&mut p, "opacity", opacity(v));
            put_text(&mut p, "fill", fill_color(v));
            push_shape(&mut shapes, Tag::Rectangle, p);
            assert(views(shapes@) =~= before + seq![plaid_bar(d@, k as int)]);
            end = start + v as i64 + 5;
            k = k + 1;
        }
        Drawing { width: Scalar::whole(end), height, shapes }
    }
}

impl<'a> Pattern for Plaid<'a> {
    open spec fn drawing(&self) -> Option<DrawingView<'static>> {
        if digits_ok(self.digest(), 36) {
            Some(plaid_drawing(digits(self.digest(), 36)))
        } else {
            None
        }
    }

    fn draw(&self) -> (r: Result<Drawing<'static>, PatternError>) {
        match read_digits(self.hash, 36) {
            Ok(d) => Ok(Plaid::render(&d)),
            Err(e) => Err(e),
        }
    }
}

} // verus!
