//! Discs that overlap their neighbours.

use vstd::prelude::*;
use vstd::string::StringSliceAdditionalSpecFns;
use crate::digest::{all_digits, digits, digits_ok, read_digits, PatternError};
use crate::patterns::Pattern;
use crate::scalar::Scalar;
use crate::shape::{
    fill_color, opacity, opacity_of, push_shape, put_number, put_text, swatch, views,
    with_number, with_text, Drawing, DrawingView, Piece, Shape, ShapeView, Tag,
};
use crate::tiling::{tile, tiling, Emission, Wrap};

verus! {

/// Discs whose diameter the first digit says, set one radius apart.
pub struct OverlappingCircles<'a> {
    hash: &'a str,
}

/// The diameter of a disc: digit 0 carried to the range from 25 to 200.
pub open spec fn circle_diameter(d: Seq<u8>) -> Scalar {
    Scalar::spec_rescale(d[0] as int, 0, 15, 25, 200)
}

/// One disc, centred on the corner of its cell; cells are one radius wide
/// and high.
pub open spec fn overlapping_circle(d: Seq<u8>, e: Emission) -> ShapeView<'static> {
    let dia = circle_diameter(d);
    let v = d[e.y * 6 + e.x];
    let col = e.spec_col(6);
    let row = e.spec_row(6);
    let p = Seq::<Piece>::empty();
    let p = with_number(p, "cx", dia.spec_times(col, 0, 2));
    let p = with_number(p, "cy", dia.spec_times(row, 0, 2));
    let p = with_number(p, "r", dia.spec_times(1, 0, 2));
    let p = with_text(p, "fill", swatch(v));
    let p = p
        .push(Piece::Key("style"))
        .push(Piece::Text("opacity:"))
        .push(Piece::Number(opacity_of(v)))
        .push(Piece::Text(";"));
    ShapeView { tag: Tag::Circle, pieces: p }
}

/// The whole drawing: a canvas six radii wide and high, and the discs of a
/// grid of six by six cells whose borders wrap.
pub open spec fn overlapping_circles_drawing(d: Seq<u8>) -> DrawingView<'static> {
    let dia = circle_diameter(d);
    DrawingView {
        width: dia.spec_times(6, 0, 2),
        height: dia.spec_times(6, 0, 2),
        shapes: tiling(6, 6, Wrap::Both).map_values(|e: Emission| overlapping_circle(d, e)),
    }
}

impl<'a> OverlappingCircles<'a> {
    /// The digest that the pattern reads.
    pub closed spec fn digest(&self) -> Seq<u8> {
        self.hash.spec_bytes()
    }

    /// A pattern over the digest `hash`.
    pub fn new(hash: &'a str) -> (r: Self)
        ensures
            r.digest() == hash.spec_bytes(),
    {
        OverlappingCircles { hash }
    }

    /// Draws the pattern from its first 36 digits.
    pub fn render(d: &Vec<u8>) -> (r: Drawing<'static>)
        requires
            d@.len() == 36,
            all_digits(d@),
        ensures
            r@ == overlapping_circles_drawing(d@),
    {
        let dia = Scalar::of_digit(d[0], 25, 200);
        let width = dia.times(6, 0, 2);
        let height = dia.times(6, 0, 2);
        let cells = tile(6, 6, Wrap::Both);
        let mut shapes: Vec<Shape> = Vec::new();
        let mut j: usize = 0;
        while j < cells.len()
            invariant
                0 <= j <= cells@.len(),
                d@.len() == 36,
                all_digits(d@),
                dia == circle_diameter(d@),
                dia.within(15000),
                forall|k: int|
                    0 <= k < cells@.len() ==> (#[trigger] cells@[k]).x < 6 && cells@[k].y < 6,
                views(shapes@) == cells@.subrange(0, j as int).map_values(
                    |e: Emission| overlapping_circle(d@, e),
                ),
            decreases cells@.len() - j,
        {
            let e = cells[j];
            let v = d[e.y * 6 + e.x];
            let col = e.col(6) as i64;
            let row = e.row(6) as i64;
            let mut p: Vec<Piece> = Vec::new();
            put_number(&mut p, "cx", dia.times(col, 0, 2));
            put_number(&mut p, "cy", dia.times(row, 0, 2));
            put_number(&mut p, "r", dia.times(1, 0, 2));
            put_text(&mut p, "fill", fill_color(v));
            p.push(Piece::Key("style"));
            p.push(Piece::Text("opacity:"));
            p.push(Piece::Number(opacity(v)));
            p.push(Piece::Text(";"));
            proof {
                assert(p@ == overlapping_circle(d@, e).pieces);
                assert(cells@.subrange(0, j + 1).map_values(|e: Emission| overlapping_circle(d@, e))
                    =~= cells@.subrange(
                        0,
                        j as int,
                    ).map_values(|e: Emission| overlapping_circle(d@, e)).push(
                    overlapping_circle(d@, e),
                ));
            }
            push_shape(&mut shapes, Tag::Circle, p);
            j = j + 1;
        }
        assert(cells@.subrange(0, cells@.len() as int) =~= cells@);
        Drawing { width, height, shapes }
    }
}

impl<'a> Pattern for OverlappingCircles<'a> {
    open spec fn drawing(&self) -> Option<DrawingView<'static>> {
        if digits_ok(self.digest(), 36) {
            Some(overlapping_circles_drawing(digits(self.digest(), 36)))
        } else {
            None
        }
    }

    fn draw(&self) -> (r: Result<Drawing<'static>, PatternError>) {
        match read_digits(self.hash, 36) {
            Ok(d) => Ok(OverlappingCircles::render(&d)),
            Err(e) => Err(e),
        }
    }
}

} // verus!
