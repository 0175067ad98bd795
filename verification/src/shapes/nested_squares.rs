//! A grid of square frames, each with a smaller frame inside.

use vstd::prelude::*;
use crate::scalar::{FACTOR_LIMIT, Scalar};
use crate::shape::{
    collect, push_shape, put_number, put_text, views, with_number, with_text, Drawing,
    DrawingView, Piece, Shape, ShapeView, Tag,
};
use crate::shapes::{backdrop, lemma_cell_index, push_backdrop, GRID_LIMIT};
use crate::tiling::{tile, tiling, Emission, Wrap};

verus! {

/// The two frames of a cell. Cells are nine inner sides wide and high. The
/// outer frame is seven inner sides wide and stands half an inner side
/// inside its cell, the inner one is three wide and stands two further in;
/// the stroke of both is one inner side wide.
pub open spec fn nested_squares_cell<'a>(
    inner_side: Scalar,
    width: int,
    height: int,
    stroke_outer: Seq<(&'a str, Scalar)>,
    fill_inner: Seq<(&'a str, Scalar)>,
    e: Emission,
) -> Seq<ShapeView<'a>> {
    let outer_paint = stroke_outer[e.y * width + e.x];
    let inner_paint = fill_inner[e.y * width + e.x];
    let x = e.x as int;
    let y = e.y as int;
    let p = Seq::<Piece>::empty();
    let p = with_number(p, "x", inner_side.spec_times(18 * x + 1, 0, 2));
    let p = with_number(p, "y", inner_side.spec_times(18 * y + 1, 0, 2));
    let p = with_number(p, "width", inner_side.spec_times(7, 0, 1));
    let p = with_number(p, "height", inner_side.spec_times(7, 0, 1));
    let p = with_text(p, "fill", "none");
    let p = with_text(p, "stroke", outer_paint.0);
    let p = with_number(p, "stroke-width", inner_side);
    let p = with_number(p, "stroke-opacity", outer_paint.1);
    let outer = ShapeView { tag: Tag::Rectangle, pieces: p };
    let p = Seq::<Piece>::empty();
    let p = with_number(p, "x", inner_side.spec_times(18 * x + 5, 0, 2));
    let p = with_number(p, "y", inner_side.spec_times(18 * y + 5, 0, 2));
    let p = with_number(p, "width", inner_side.spec_times(3, 0, 1));
    let p = with_number(p, "height", inner_side.spec_times(3, 0, 1));
    let p = with_text(p, "fill", "none");
    let p = with_text(p, "stroke", inner_paint.0);
    let p = with_number(p, "stroke-width", inner_side);
    let p = with_number(p, "stroke-opacity", inner_paint.1);
    let inner = ShapeView { tag: Tag::Rectangle, pieces: p };
    seq![outer, inner]
}

/// The whole drawing: a canvas nine inner sides wide for each column and
/// nine high for each row, the background, and the two frames of each cell.
pub open spec fn nested_squares_drawing<'a>(
    inner_side: Scalar,
    width: int,
    height: int,
    stroke_outer: Seq<(&'a str, Scalar)>,
    fill_inner: Seq<(&'a str, Scalar)>,
    background_color: &'a str,
) -> DrawingView<'a> {
    let w = width;
    let h = height;
    DrawingView {
        width: inner_side.spec_times(9 * w, 0, 1),
        height: inner_side.spec_times(9 * h, 0, 1),
        shapes: seq![backdrop(background_color)] + collect(
            tiling(width, height, Wrap::Neither).len(),
            |k: int| nested_squares_cell(
                inner_side,
                width,
                height,
                stroke_outer,
                fill_inner,
                tiling(width, height, Wrap::Neither)[k],
            ),
        ),
    }
}

/// Nested frames on a grid of `grid.0` columns and `grid.1` rows. In cell
/// `i`, counted row by row, the outer frame is stroked with the colour
/// `stroke_outer[i].0` at the opacity `stroke_outer[i].1` and the inner one
/// with `fill_inner[i]`.
pub fn nested_squares<'a>(
    inner_side: Scalar,
    grid: (usize, usize),
    stroke_outer: &[(&'a str, Scalar)],
    fill_inner: &[(&'a str, Scalar)],
    background_color: &'a str,
) -> (r: Drawing<'a>)
    requires
        inner_side.within(FACTOR_LIMIT as int),
        grid.0 <= GRID_LIMIT,
        grid.1 <= GRID_LIMIT,
        stroke_outer@.len() == grid.0 * grid.1,
        fill_inner@.len() == grid.0 * grid.1,
    ensures
        r@ == nested_squares_drawing(
            inner_side,
            grid.0 as int,
            grid.1 as int,
            stroke_outer@,
            fill_inner@,
            background_color,
        ),
{
    let width = grid.0;
    let height = grid.1;
    let w = width as i64;
    let h = height as i64;
    let canvas_width = inner_side.times(9 * w, 0, 1);
    let canvas_height = inner_side.times(9 * h, 0, 1);
    let cells = tile(width, height, Wrap::Neither);
    let mut shapes: Vec<Shape<'a>> = Vec::new();
    push_backdrop(&mut shapes, background_color);
    assert(views(shapes@) =~= seq![backdrop(background_color)] + collect(
        0,
        |k: int| nested_squares_cell(
            inner_side,
            width as int,
            height as int,
            stroke_outer@,
            fill_inner@,
            tiling(width as int, height as int, Wrap::Neither)[k],
        ),
    ));
    let mut j: usize = 0;
    while j < cells.len()
        invariant
            0 <= j <= cells@.len(),
            cells@ == tiling(width as int, height as int, Wrap::Neither),
            forall|k: int|
                0 <= k < cells@.len() ==> (#[trigger] cells@[k]).x < width && cells@[k].y < height,
            width <= GRID_LIMIT,
            height <= GRID_LIMIT,
            w == width,
            h == height,
            inner_side.within(FACTOR_LIMIT as int),
            stroke_outer@.len() == width * height,
            fill_inner@.len() == width * height,
            views(shapes@) == seq![backdrop(background_color)] + collect(
                j as nat,
                |k: int| nested_squares_cell(
                    inner_side,
                    width as int,
                    height as int,
                    stroke_outer@,
                    fill_inner@,
                    tiling(width as int, height as int, Wrap::Neither)[k],
                ),
            ),
        decreases cells@.len() - j,
    {
        let ghost before = views(shapes@);
        let e = cells[j];
        proof {
            lemma_cell_index(e.x as int, e.y as int, width as int, height as int);
        }
        let outer_paint = stroke_outer[e.y * width + e.x];
        let inner_paint = fill_inner[e.y * width + e.x];
        let x = e.x as i64;
        let y = e.y as i64;
        let mut p: Vec<Piece> = Vec::new();
        put_number(&mut p, "x", inner_side.times(18 * x + 1, 0, 2));
        put_number(&mut p, "y", inner_side.times(18 * y + 1, 0, 2));
        put_number(&mut p, "width", inner_side.times(7, 0, 1));
        put_number(&mut p, "height", inner_side.times(7, 0, 1));
        put_text(&mut p, "fill", "none");
        put_text(&mut p, "stroke", outer_paint.0);
        put_number(&mut p, "stroke-width", inner_side);
        put_number(&mut p, "stroke-opacity", outer_paint.1);
        push_shape(&mut shapes, Tag::Rectangle, p);
        let mut p: Vec<Piece> = Vec::new();
        put_number(&mut p, "x", inner_side.times(18 * x + 5, 0, 2));
        put_number(&mut p, "y", inner_side.times(18 * y + 5, 0, 2));
        put_number(&mut p, "width", inner_side.times(3, 0, 1));
        put_number(&mut p, "height", inner_side.times(3, 0, 1));
        put_text(&mut p, "fill", "none");
        put_text(&mut p, "stroke", inner_paint.0);
        put_number(&mut p, "stroke-width", inner_side);
        put_number(&mut p, "stroke-opacity", inner_paint.1);
        push_shape(&mut shapes, Tag::Rectangle, p);
        assert(views(shapes@) =~= before + nested_squares_cell(
            inner_side,
            width as int,
            height as int,
            stroke_outer@,
            fill_inner@,
            e,
        ));
        j = j + 1;
    }
    Drawing { width: canvas_width, height: canvas_height, shapes }
}

} // verus!
