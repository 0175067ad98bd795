//! Rings that overlap their neighbours.

use vstd::prelude::*;
use vstd::string::StringSliceAdditionalSpecFns;
use crate::digest::{all_digits, digits, digits_ok, read_digits, PatternError};
use crate::patterns::Pattern;
use crate::scalar::Scalar;
use crate::shape::{
    fill_color, opacity, opacity_of, push_shape, put_number, put_text, swatch, views,
    with_number, with_text, Drawing, DrawingView, Piece, Shape, ShapeView, Tag,
};
use crate::tiling::{tile, tiling, Emission, Wrap};

verus! {

/// Rings whose size the first digit says, set one ring size apart.
pub struct OverlappingRings<'a> {
    hash: &'a str,
}

/// The size of a ring: digit 0 carried to the range from 10 to 60.
pub open spec fn ring_size(d: Seq<u8>) -> Scalar {
    Scalar::spec_rescale(d[0] as int, 0, 15, 10, 60)
}

/// One ring, centred on the corner of its cell. Its radius is seven
/// eighths of the ring size and its stroke a quarter of it, cut off to a
/// whole number.
pub open spec fn overlapping_ring(d: Seq<u8>, e: Emission) -> ShapeView<'static> {
    let s = ring_size(d);
    let v = d[e.y * 6 + e.x];
    let col = e.spec_col(6);
    let row = e.spec_row(6);
    let p = Seq::<Piece>::empty();
    let p = with_number(p, "cx", s.spec_times(col, 0, 1));
    let p = with_number(p, "cy", s.spec_times(row, 0, 1));
    let p = with_number(p, "r", s.spec_times(7, 0, 8));
    let p = with_text(p, "fill", "none");
    let p = with_text(p, "stroke", swatch(v));
    let p = p
        .push(Piece::Key("style"))
        .push(Piece::Text("opacity:"))
        .push(Piece::Number(opacity_of(v)))
        .push(Piece::Text(";stroke-width:0x"))
        .push(Piece::Hex(s.spec_times(1, 0, 4).spec_trunc()))
        .push(Piece::Text(";"));
    ShapeView { tag: Tag::Circle, pieces: p }
}

/// The whole drawing: a canvas six ring sizes wide and high, and the rings
/// of a grid of six by six cells whose borders wrap.
pub open spec fn overlapping_rings_drawing(d: Seq<u8>) -> DrawingView<'static> {
    let s = ring_size(d);
    DrawingView {
        width: s.spec_times(6, 0, 1),
        height: s.spec_times(6, 0, 1),
        shapes: tiling(6, 6, Wrap::Both).map_values(|e: Emission| overlapping_ring(d, e)),
    }
}

impl<'a> OverlappingRings<'a> {
    /// The digest that the pattern reads.
    pub closed spec fn digest(&self) -> Seq<u8> {
        self.hash.spec_bytes()
    }

    /// A pattern over the digest `hash`.
    pub fn new(hash: &'a str) -> (r: Self)
        ensures
            r.digest() == hash.spec_bytes(),
    {
        OverlappingRings { hash }
    }

    /// Draws the pattern from its first 36 digits.
    pub fn render(d: &Vec<u8>) -> (r: Drawing<'static>)
        requires
            d@.len() == 36,
            all_digits(d@),
        ensures
            r@ == overlapping_rings_drawing(d@),
    {
        let s = Scalar::of_digit(d[0], 10, 60);
        let width = s.times(6, 0, 1);
        let height = s.times(6, 0, 1);
        let cells = tile(6, 6, Wrap::Both);
        let mut shapes: Vec<Shape> = Vec::new();
        let mut j: usize = 0;
        while j < cells.len()
            invariant
                0 <= j <= cells@.len(),
                d@.len() == 36,
                all_digits(d@),
                s == ring_size(d@),
                s.within(15000),
                forall|k: int|
                    0 <= k < cells@.len() ==> (#[trigger] cells@[k]).x < 6 && cells@[k].y < 6,
                views(shapes@) == cells@.subrange(0, j as int).map_values(
                    |e: Emission| overlapping_ring(d@, e),
                ),
            decreases cells@.len() - j,
        {
            let e = cells[j];
            let v = d[e.y * 6 + e.x];
            let col = e.col(6) as i64;
            let row = e.row(6) as i64;
            let mut p: Vec<Piece> = Vec::new();
            put_number(&mut p, "cx", s.times(col, 0, 1));
            put_number(&mut p, "cy", s.times(row, 0, 1));
            put_number(&mut p, "r", s.times(7, 0, 8));
            put_text(&mut p, "fill", "none");
            put_text(&mut p, "stroke", fill_color(v));
            p.push(Piece::Key("style"));
            p.push(Piece::Text("opacity:"));
            p.push(Piece::Number(opacity(v)));
            p.push(Piece::Text(";stroke-width:0x"));
            p.push(Piece::Hex(s.times(1, 0, 4).trunc()));
            p.push(Piece::Text(";"));
            proof {
                assert(p@ == overlapping_ring(d@, e).pieces);
                assert(cells@.subrange(0, j + 1).map_values(|e: Emission| overlapping_ring(d@, e))
                    =~= cells@.subrange(
                        0,
                        j as int,
                    ).map_values(|e: Emission| overlapping_ring(d@, e)).push(
                    overlapping_ring(d@, e),
                ));
            }
            push_shape(&mut shapes, Tag::Circle, p);
            j = j + 1;
        }
        assert(cells@.subrange(0, cells@.len() as int) =~= cells@);
        Drawing { width, height, shapes }
    }
}

impl<'a> Pattern for OverlappingRings<'a> {
    open spec fn drawing(&self) -> Option<DrawingView<'static>> {
        if digits_ok(self.digest(), 36) {
            Some(overlapping_rings_drawing(digits(self.digest(), 36)))
        } else {
            None
        }
    }

    fn draw(&self) -> (r: Result<Drawing<'static>, PatternError>) {
        match read_digits(self.hash, 36) {
            Ok(d) => Ok(OverlappingRings::render(&d)),
            Err(e) => Err(e),
        }
    }
}

} // verus!
