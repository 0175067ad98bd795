//! Free-standing shape functions: the caller gives sizes, paint and grid.
//!
//! Every function returns a drawing whose first shape is a rectangle that
//! fills the canvas with the background colour.

use vstd::prelude::*;
use crate::scalar::{Scalar, FACTOR_LIMIT};
use crate::shape::{
    push_shape, put_number, put_text, views, with_number, with_text, Piece, Shape, ShapeView, Tag,
};

pub mod chevrons;
pub mod circle_packing;
pub mod concentric_circles;
pub mod cubic_disarray;
pub mod diamonds;
pub mod hexagons;
pub mod hypnotic_squares;
pub mod joy_division;
pub mod mosaic_squares;
pub mod nested_squares;
pub mod octagons;
pub mod overlapping_circles;
pub mod overlapping_rings;
pub mod piet_mondrian;
pub mod plaid;
pub mod plus_signs;
pub mod sine_waves;
pub mod squares;
pub mod tesselation;
pub mod tiled_lines;
pub mod triangles;
pub mod triangular_mesh;
pub mod un_deus_trois;
pub mod xes;

verus! {

/// The largest number of columns and of rows of a grid.
pub const GRID_LIMIT: usize = 10_000;

/// A rational number of `unit`-th parts, small enough to be added up.
/// Functions that add lengths take all of them over one common denominator.
pub open spec fn over(s: Scalar, unit: int) -> bool {
    &&& 0 < unit <= FACTOR_LIMIT
    &&& s.root3 == 0
    &&& s.den == unit
    &&& -FACTOR_LIMIT <= s.num <= FACTOR_LIMIT
}

/// The rectangle that fills the canvas with the colour `color`.
pub open spec fn backdrop<'a>(color: &'a str) -> ShapeView<'a> {
    let p = Seq::<Piece>::empty();
    let p = with_number(p, "x", Scalar::spec_whole(0));
    let p = with_number(p, "y", Scalar::spec_whole(0));
    let p = with_text(p, "width", "100%");
    let p = with_text(p, "height", "100%");
    let p = with_text(p, "fill", color);
    ShapeView { tag: Tag::Rectangle, pieces: p }
}

/// Appends the rectangle that fills the canvas with the colour `color`.
pub fn push_backdrop<'a>(shapes: &mut Vec<Shape<'a>>, color: &'a str)
    ensures
        views(final(shapes)@) == views(old(shapes)@).push(backdrop(color)),
{
    let mut p: Vec<Piece> = Vec::new();
    put_number(&mut p, "x", Scalar::whole(0));
    put_number(&mut p, "y", Scalar::whole(0));
    put_text(&mut p, "width", "100%");
    put_text(&mut p, "height", "100%");
    put_text(&mut p, "fill", color);
    push_shape(shapes, Tag::Rectangle, p);
}

/// The cell in column `x` and row `y` of a grid has a place in the list of
/// the cells row by row, and that place is a machine number.
pub proof fn lemma_cell_index(x: int, y: int, width: int, height: int)
    requires
        0 <= x < width <= GRID_LIMIT,
        0 <= y < height <= GRID_LIMIT,
    ensures
        0 <= y * width <= y * width + x < width * height <= 100_000_000,
{
    assert(0 <= y * width <= y * width + x < width * height <= 100_000_000) by (nonlinear_arith)
        requires
            0 <= x < width <= 10_000,
            0 <= y < height <= 10_000,
    ;
}

} // verus!
