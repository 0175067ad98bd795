//! A grid of rings, each with a disc at its centre.

use vstd::prelude::*;
use vstd::string::StringSliceAdditionalSpecFns;
use crate::digest::{all_digits, digits, digits_ok, read_digits, PatternError};
use crate::patterns::Pattern;
use crate::scalar::Scalar;
use crate::shape::{
    collect, fill_color, opacity, opacity_of, push_shape, put_number, put_paint, put_text,
    swatch, views, with_number, with_paint, with_text, Drawing, DrawingView, Piece, Shape,
    ShapeView, Tag,
};

verus! {

/// Rings whose diameter the first digit says, each around a disc.
pub struct ConcentricCircles<'a> {
    hash: &'a str,
}

/// The diameter of a ring: digit 0 carried to the range from 10 to 60.
pub open spec fn ring_diameter(d: Seq<u8>) -> Scalar {
    Scalar::spec_rescale(d[0] as int, 0, 15, 10, 60)
}

/// The two circles of cell `i`. Cells are six fifths of the diameter wide
/// and high, the stroke of the ring being one fifth, cut off to a whole
/// number. The ring takes its paint from digit `i`, counted from the
/// front of the digest; the disc, half as large, takes its paint from digit
/// `39 - i`, counted from the back.
pub open spec fn concentric_pair(d: Seq<u8>, i: int) -> Seq<ShapeView<'static>> {
    let rs = ring_diameter(d);
    let x = i % 6;
    let y = i / 6;
    let v = d[i];
    let p = Seq::<Piece>::empty();
    let p = with_number(p, "cx", rs.spec_times(6 * x + 3, 0, 5));
    let p = with_number(p, "cy", rs.spec_times(6 * y + 3, 0, 5));
    let p = with_number(p, "r", rs.spec_times(1, 0, 2));
    let p = with_text(p, "stroke", swatch(v));
    let p = p
        .push(Piece::Key("style"))
        .push(Piece::Text("opacity:"))
        .push(Piece::Number(opacity_of(v)))
        .push(Piece::Text("; stroke-width:0x"))
        .push(Piece::Hex(rs.spec_times(1, 0, 5).spec_trunc()))
        .push(Piece::Text(";"));
    let ring = ShapeView { tag: Tag::Circle, pieces: p };
    let v = d[39 - i];
    let p = Seq::<Piece>::empty();
    let p = with_number(p, "cx", rs.spec_times(6 * x + 3, 0, 5));
    let p = with_number(p, "cy", rs.spec_times(6 * y + 3, 0, 5));
    let p = with_number(p, "r", rs.spec_times(1, 0, 4));
    let p = with_paint(p, v);
    let disc = ShapeView { tag: Tag::Circle, pieces: p };
    seq![ring, disc]
}

/// The whole drawing: a canvas six cells wide and high, and ring and disc
/// of each of the 36 cells, row by row.
pub open spec fn concentric_circles_drawing(d: Seq<u8>) -> DrawingView<'static> {
    let rs = ring_diameter(d);
    DrawingView {
        width: rs.spec_times(36, 0, 5),
        height: rs.spec_times(36, 0, 5),
        shapes: collect(36, |i: int| concentric_pair(d, i)),
    }
}

impl<'a> ConcentricCircles<'a> {
    /// The digest that the pattern reads.
    pub closed spec fn digest(&self) -> Seq<u8> {
        self.hash.spec_bytes()
    }

    /// A pattern over the digest `hash`.
    pub fn new(hash: &'a str) -> (r: Self)
        ensures
            r.digest() == hash.spec_bytes(),
    {
        ConcentricCircles { hash }
    }

    /// Draws the pattern from its first 40 digits.
    pub fn render(d: &Vec<u8>) -> (r: Drawing<'static>)
        requires
            d@.len() == 40,
            all_digits(d@),
        ensures
            r@ == concentric_circles_drawing(d@),
    {
        let rs = Scalar::of_digit(d[0], 10, 60);
        let width = rs.times(36, 0, 5);
        let height = rs.times(36, 0, 5);
        let mut shapes: Vec<Shape> = Vec::new();
        let mut i: usize = 0;
        while i < 36
            invariant
                0 <= i <= 36,
                d@.len() == 40,
                all_digits(d@),
                rs == ring_diameter(d@),
                rs.within(15000),
                views(shapes@) == collect(i as nat, |k: int| concentric_pair(d@, k)),
            decreases 36 - i,
        {
            let ghost before = views(shapes@);
            let x = (i % 6) as i64;
            let y = (i / 6) as i64;
            let v = d[i];
            let mut p: Vec<Piece> = Vec::new();
            put_number(&mut p, "cx", rs.times(6 * x + 3, 0, 5));
            put_number(&mut p, "cy", rs.times(6 * y + 3, 0, 5));
            put_number(&mut p, "r", rs.times(1, 0, 2));
            put_text(&mut p, "stroke", fill_color(v));
            p.push(Piece::Key("style"));
            p.push(Piece::Text("opacity:"));
            p.push(Piece::Number(opacity(v)));
            p.push(Piece::Text("; stroke-width:0x"));
            p.push(Piece::Hex(rs.times(1, 0, 5).trunc()));
            p.push(Piece::Text(";"));
            push_shape(&mut shapes, Tag::Circle, p);
            let v = d[39 - i];
            let mut p: Vec<Piece> = Vec::new();
            put_number(&mut p, "cx", rs.times(6 * x + 3, 0, 5));
            put_number(&mut p, "cy", rs.times(6 * y + 3, 0, 5));
            put_number(&mut p, "r", rs.times(1, 0, 4));
            put_paint(&mut p, v);
            push_shape(&mut shapes, Tag::Circle, p);
            assert(views(shapes@) =~= before + concentric_pair(d@, i as int));
            i = i + 1;
        }
        Drawing { width, height, shapes }
    }
}

impl<'a> Pattern for ConcentricCircles<'a> {
    open spec fn drawing(&self) -> Option<DrawingView<'static>> {
        if digits_ok(self.digest(), 40) {
            Some(concentric_circles_drawing(digits(self.digest(), 40)))
        } else {
            None
        }
    }

    fn draw(&self) -> (r: Result<Drawing<'static>, PatternError>) {
        match read_digits(self.hash, 40) {
            Ok(d) => Ok(ConcentricCircles::render(&d)),
            Err(e) => Err(e),
        }
    }
}

} // verus!
