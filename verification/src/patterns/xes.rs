//! Plus signs turned by 45 degrees.

use vstd::prelude::*;
use vstd::string::StringSliceAdditionalSpecFns;
use crate::digest::{all_digits, digits, digits_ok, read_digits, PatternError};
use crate::patterns::Pattern;
use crate::scalar::Scalar;
use crate::shape::{
    fill_color, opacity, opacity_of, push_shape, put_number, put_text, swatch, views,
    with_number, with_text, Drawing, DrawingView, Piece, Shape, ShapeView, Tag,
};
use crate::tiling::{tile, tiling, Emission, Wrap};

verus! {

/// Crosses whose arm width the first digit says; every other column is
/// shifted down by a quarter of a cross.
pub struct Xes<'a> {
    hash: &'a str,
}

/// The width of an arm: digit 0 carried to the range from 10 to 25.
pub open spec fn x_arm(d: Seq<u8>) -> Scalar {
    Scalar::spec_rescale(d[0] as int, 0, 15, 10, 25)
}

/// One cross: a plus sign, three arms long, turned by 45 degrees about the
/// middle of a box 2.829 arms wide. Columns and rows are half a box apart
/// and start half a box outside the canvas; a cell of an odd column stands
/// a quarter box lower, also where it is drawn a second time.
pub open spec fn x_cross(d: Seq<u8>, e: Emission) -> ShapeView<'static> {
    let s = x_arm(d);
    let v = d[e.y * 6 + e.x];
    let col = e.spec_col(6);
    let row = e.spec_row(6);
    let odd = (e.x % 2) as int;
    let p = Seq::<Piece>::empty();
    let p = with_text(p, "fill", swatch(v));
    let p = p
        .push(Piece::Key("style"))
        .push(Piece::Text("opacity:"))
        .push(Piece::Number(opacity_of(v)))
        .push(Piece::Text(";"))
        .push(Piece::Key("transform"))
        .push(Piece::Text("translate("))
        .push(Piece::Number(s.spec_times(2829 * (col - 1), 0, 2000)))
        .push(Piece::Text(", "))
        .push(Piece::Number(s.spec_times(2829 * (2 * row - 2 + odd), 0, 4000)))
        .push(Piece::Text(") rotate(45, "))
        .push(Piece::Number(s.spec_times(2829, 0, 2000)))
        .push(Piece::Text(", "))
        .push(Piece::Number(s.spec_times(2829, 0, 2000)))
        .push(Piece::Text(")"))
        .push(Piece::Child(Tag::Rectangle));
    let p = with_number(p, "x", s);
    let p = with_number(p, "y", Scalar::spec_whole(0));
    let p = with_number(p, "width", s);
    let p = with_number(p, "height", s.spec_times(3, 0, 1));
    let p = p.push(Piece::Child(Tag::Rectangle));
    let p = with_number(p, "x", Scalar::spec_whole(0));
    let p = with_number(p, "y", s);
    let p = with_number(p, "width", s.spec_times(3, 0, 1));
    let p = with_number(p, "height", s);
    ShapeView { tag: Tag::Group, pieces: p }
}

/// The whole drawing: a canvas three boxes wide and high, and the crosses
/// of a grid of six by six cells whose borders wrap.
pub open spec fn xes_drawing(d: Seq<u8>) -> DrawingView<'static> {
    let s = x_arm(d);
    DrawingView {
        width: s.spec_times(8487, 0, 1000),
        height: s.spec_times(8487, 0, 1000),
        shapes: tiling(6, 6, Wrap::Both).map_values(|e: Emission| x_cross(d, e)),
    }
}

impl<'a> Xes<'a> {
    /// The digest that the pattern reads.
    pub closed spec fn digest(&self) -> Seq<u8> {
        self.hash.spec_bytes()
    }

    /// A pattern over the digest `hash`.
    pub fn new(hash: &'a str) -> (r: Self)
        ensures
            r.digest() == hash.spec_bytes(),
    {
        Xes { hash }
    }

    /// Draws the pattern from its first 36 digits.
    pub fn render(d: &Vec<u8>) -> (r: Drawing<'static>)
        requires
            d@.len() == 36,
            all_digits(d@),
        ensures
            r@ == xes_drawing(d@),
    {
        let s = Scalar::of_digit(d[0], 10, 25);
        let width = s.times(8487, 0, 1000);
        let height = s.times(8487, 0, 1000);
        let cells = tile(6, 6, Wrap::Both);
        let mut shapes: Vec<Shape> = Vec::new();
        let mut j: usize = 0;
        while j < cells.len()
            invariant
                0 <= j <= cells@.len(),
                d@.len() == 36,
                all_digits(d@),
                s == x_arm(d@),
                s.within(15000),
                forall|k: int|
                    0 <= k < cells@.len() ==> (#[trigger] cells@[k]).x < 6 && cells@[k].y < 6,
                views(shapes@) == cells@.subrange(0, j as int).map_values(
                    |e: Emission| x_cross(d@, e),
                ),
            decreases cells@.len() - j,
        {
            let e = cells[j];
            let v = d[e.y * 6 + e.x];
            let col = e.col(6) as i64;
            let row = e.row(6) as i64;
            let odd = (e.x % 2) as i64;
            let mut p: Vec<Piece> = Vec::new();
            put_text(&mut p, "fill", fill_color(v));
            p.push(Piece::Key("style"));
            p.push(Piece::Text("opacity:"));
            p.push(Piece::Number(opacity(v)));
            p.push(Piece::Text(";"));
            p.push(Piece::Key("transform"));
            p.push(Piece::Text("translate("));
            p.push(Piece::Number(s.times(2829 * (col - 1), 0, 2000)));
            p.push(Piece::Text(", "));
            p.push(Piece::Number(s.times(2829 * (2 * row - 2 + odd), 0, 4000)));
            p.push(Piece::Text(") rotate(45, "));
            p.push(Piece::Number(s.times(2829, 0, 2000)));
            p.push(Piece::Text(", "));
            p.push(Piece::Number(s.times(2829, 0, 2000)));
            p.push(Piece::Text(")"));
            p.push(Piece::Child(Tag::Rectangle));
            put_number(&mut p, "x", s);
            put_number(&mut p, "y", Scalar::whole(0));
            put_number(&mut p, "width", s);
            put_number(&mut p, "height", s.times(3, 0, 1));
            p.push(Piece::Child(Tag::Rectangle));
            put_number(&mut p, "x", Scalar::whole(0));
            put_number(&mut p, "y", s);
            put_number(&mut p, "width", s.times(3, 0, 1));
            put_number(&mut p, "height", s);
            proof {
                assert(p@ == x_cross(d@, e).pieces);
                assert(cells@.subrange(0, j + 1).map_values(|e: Emission| x_cross(d@, e))
                    =~= cells@.subrange(0, j as int).map_values(|e: Emission| x_cross(d@, e)).push(
                    x_cross(d@, e),
                ));
            }
            push_shape(&mut shapes, Tag::Group, p);
            j = j + 1;
        }
        assert(cells@.subrange(0, cells@.len() as int) =~= cells@);
        Drawing { width, height, shapes }
    }
}

impl<'a> Pattern for Xes<'a> {
    open spec fn drawing(&self) -> Option<DrawingView<'static>> {
        if digits_ok(self.digest(), 36) {
            Some(xes_drawing(digits(self.digest(), 36)))
        } else {
            None
        }
    }

    fn draw(&self) -> (r: Result<Drawing<'static>, PatternError>) {
        match read_digits(self.hash, 36) {
            Ok(d) => Ok(Xes::render(&d)),
            Err(e) => Err(e),
        }
    }
}

} // verus!
