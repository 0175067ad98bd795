//! A grid of square frames, each with a smaller frame inside.

use vstd::prelude::*;
use vstd::string::StringSliceAdditionalSpecFns;
use crate::digest::{all_digits, digits, digits_ok, read_digits, PatternError};
use crate::patterns::Pattern;
use crate::scalar::Scalar;
use crate::shape::{
    collect, fill_color, opacity, opacity_of, push_shape, put_number, put_text, swatch,
    views, with_number, with_text, Drawing, DrawingView, Piece, Shape, ShapeView, Tag,
};

verus! {

/// Square frames whose stroke the first digit says.
pub struct NestedSquares<'a> {
    hash: &'a str,
}

/// The unit of the frames: digit 0 carried to the range from 4 to 12.
pub open spec fn frame_stroke(d: Seq<u8>) -> Scalar {
    Scalar::spec_rescale(d[0] as int, 0, 15, 4, 12)
}

/// The two frames of cell `i`. Cells are nine units wide and high. The
/// outer frame is seven units wide and stands half a unit inside its cell,
/// the inner one is three units wide and stands two units further in; the
/// stroke of both is one unit, cut off to a whole number. The outer frame
/// takes its paint from digit `i`, the inner one from digit `39 - i`.
pub open spec fn nested_pair(d: Seq<u8>, i: int) -> Seq<ShapeView<'static>> {
    let s = frame_stroke(d);
    let x = i % 6;
    let y = i / 6;
    let v = d[i];
    let p = Seq::<Piece>::empty();
    let p = with_number(p, "x", s.spec_times(18 * x + 1, 0, 2));
    let p = with_number(p, "y", s.spec_times(18 * y + 1, 0, 2));
    let p = with_number(p, "width", s.spec_times(7, 0, 1));
    let p = with_number(p, "height", s.spec_times(7, 0, 1));
    let p = with_text(p, "fill", "none");
    let p = with_text(p, "stroke", swatch(v));
    let p = p
        .push(Piece::Key("style"))
        .push(Piece::Text("opacity:"))
        .push(Piece::Number(opacity_of(v)))
        .push(Piece::Text(";stroke-width:0x"))
        .push(Piece::Hex(s.spec_times(1, 0, 1).spec_trunc()))
        .push(Piece::Text(";"));
    let outer = ShapeView { tag: Tag::Rectangle, pieces: p };
    let v = d[39 - i];
    let p = Seq::<Piece>::empty();
    let p = with_number(p, "x", s.spec_times(18 * x + 5, 0, 2));
    let p = with_number(p, "y", s.spec_times(18 * y + 5, 0, 2));
    let p = with_number(p, "width", s.spec_times(3, 0, 1));
    let p = with_number(p, "height", s.spec_times(3, 0, 1));
    let p = with_text(p, "fill", "none");
    let p = with_text(p, "stroke", swatch(v));
    let p = p
        .push(Piece::Key("style"))
        .push(Piece::Text("opacity:"))
        .push(Piece::Number(opacity_of(v)))
        .push(Piece::Text(";stroke-width:0x"))
        .push(Piece::Hex(s.spec_times(1, 0, 1).spec_trunc()))
        .push(Piece::Text(";"));
    let inner = ShapeView { tag: Tag::Rectangle, pieces: p };
    seq![outer, inner]
}

/// The whole drawing: a canvas 54 units wide and high, and the two frames
/// of each of the 36 cells, row by row.
pub open spec fn nested_squares_drawing(d: Seq<u8>) -> DrawingView<'static> {
    let s = frame_stroke(d);
    DrawingView {
        width: s.spec_times(54, 0, 1),
        height: s.spec_times(54, 0, 1),
        shapes: collect(36, |i: int| nested_pair(d, i)),
    }
}

impl<'a> NestedSquares<'a> {
    /// The digest that the pattern reads.
    pub closed spec fn digest(&self) -> Seq<u8> {
        self.hash.spec_bytes()
    }

    /// A pattern over the digest `hash`.
    pub fn new(hash: &'a str) -> (r: Self)
        ensures
            r.digest() == hash.spec_bytes(),
    {
        NestedSquares { hash }
    }

    /// Draws the pattern from its first 40 digits.
    pub fn render(d: &Vec<u8>) -> (r: Drawing<'static>)
        requires
            d@.len() == 40,
            all_digits(d@),
        ensures
            r@ == nested_squares_drawing(d@),
    {
        let s = Scalar::of_digit(d[0], 4, 12);
        let width = s.times(54, 0, 1);
        let height = s.times(54, 0, 1);
        let mut shapes: Vec<Shape> = Vec::new();
        let mut i: usize = 0;
        while i < 36
            invariant
                0 <= i <= 36,
                d@.len() == 40,
                all_digits(d@),
                s == frame_stroke(d@),
                s.within(15000),
                views(shapes@) == collect(i as nat, |k: int| nested_pair(d@, k)),
            decreases 36 - i,
        {
            let ghost before = views(shapes@);
            let x = (i % 6) as i64;
            let y = (i / 6) as i64;
            let v = d[i];
            let mut p: Vec<Piece> = Vec::new();
            put_number(&mut p, "x", s.times(18 * x + 1, 0, 2));
            put_number(&mut p, "y", s.times(18 * y + 1, 0, 2));
            put_number(&mut p, "width", s.times(7, 0, 1));
            put_number(&mut p, "height", s.times(7, 0, 1));
            put_text(&mut p, "fill", "none");
            put_text(&mut p, "stroke", fill_color(v));
            p.push(Piece::Key("style"));
            p.push(Piece::Text("opacity:"));
            p.push(Piece::Number(opacity(v)));
            p.push(Piece::Text(";stroke-width:0x"));
            p.push(Piece::Hex(s.times(1, 0, 1).trunc()));
            p.push(Piece::Text(";"));
            push_shape(&mut shapes, Tag::Rectangle, p);
            let v = d[39 - i];
            let mut p: Vec<Piece> = Vec::new();
            put_number(&mut p, "x", s.times(18 * x + 5, 0, 2));
            put_number(&mut p, "y", s.times(18 * y + 5, 0, 2));
            put_number(&mut p, "width", s.times(3, 0, 1));
            put_number(&mut p, "height", s.times(3, 0, 1));
            put_text(&mut p, "fill", "none");
            put_text(&mut p, "stroke", fill_color(v));
            p.push(Piece::Key("style"));
            p.push(Piece::Text("opacity:"));
            p.push(Piece::Number(opacity(v)));
            p.push(Piece::Text(";stroke-width:0x"));
            p.push(Piece::Hex(s.times(1, 0, 1).trunc()));
            p.push(Piece::Text(";"));
            push_shape(&mut shapes, Tag::Rectangle, p);
            assert(views(shapes@) =~= before + nested_pair(d@, i as int));
            i = i + 1;
        }
        Drawing { width, height, shapes }
    }
}

impl<'a> Pattern for NestedSquares<'a> {
    open spec fn drawing(&self) -> Option<DrawingView<'static>> {
        if digits_ok(self.digest(), 40) {
            Some(nested_squares_drawing(digits(self.digest(), 40)))
        } else {
            None
        }
    }

    fn draw(&self) -> (r: Result<Drawing<'static>, PatternError>) {
        match read_digits(self.hash, 40) {
            Ok(d) => Ok(NestedSquares::render(&d)),
            Err(e) => Err(e),
        }
    }
}

} // verus!
