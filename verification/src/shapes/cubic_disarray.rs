//! A grid of squares, each shifted and turned by its own amounts.

use vstd::prelude::*;
use crate::scalar::{FACTOR_LIMIT, Scalar};
use crate::shape::{
    collect, push_shape, put_number, put_text, views, with_number, with_text, Drawing,
    DrawingView, Piece, Shape, ShapeView, Tag,
};
use crate::shapes::{backdrop, lemma_cell_index, push_backdrop, GRID_LIMIT};
use crate::tiling::{tile, tiling, Emission, Wrap};

verus! {

/// The square of a cell, filling its cell, moved to the right by the shift
/// of the cell and turned about the corner of the cell by its angle.
pub open spec fn cubic_disarray_cell<'a>(
    side: Scalar,
    width: int,
    height: int,
    fill: Seq<(&'a str, Scalar)>,
    stroke: (&'a str, Scalar),
    disarray: (Seq<Scalar>, Seq<Scalar>),
    e: Emission,
) -> Seq<ShapeView<'a>> {
    let paint = fill[e.y * width + e.x];
    let shift = disarray.0[e.y * width + e.x];
    let angle = disarray.1[e.y * width + e.x];
    let x = e.x as int;
    let y = e.y as int;
    let p = Seq::<Piece>::empty();
    let p = with_number(p, "x", side.spec_times(x, 0, 1));
    let p = with_number(p, "y", side.spec_times(y, 0, 1));
    let p = with_number(p, "width", side);
    let p = with_number(p, "height", side);
    let p = with_text(p, "fill", paint.0);
    let p = with_number(p, "fill-opacity", paint.1);
    let p = with_text(p, "stroke", stroke.0);
    let p = with_number(p, "stroke-opacity", stroke.1);
    let p = p
        .push(Piece::Key("transform"))
        .push(Piece::Text("translate("))
        .push(Piece::Number(shift))
        .push(Piece::Text(" 0) rotate("))
        .push(Piece::Number(angle))
        .push(Piece::Text(" "))
        .push(Piece::Number(side.spec_times(x, 0, 1)))
        .push(Piece::Text(" "))
        .push(Piece::Number(side.spec_times(y, 0, 1)))
        .push(Piece::Text(")"));
    let square = ShapeView { tag: Tag::Rectangle, pieces: p };
    seq![square]
}

/// The whole drawing: a canvas one side wide for each column and one side
/// high for each row, the background, and the squares of the grid, each
/// drawn once.
pub open spec fn cubic_disarray_drawing<'a>(
    side: Scalar,
    width: int,
    height: int,
    fill: Seq<(&'a str, Scalar)>,
    stroke: (&'a str, Scalar),
    disarray: (Seq<Scalar>, Seq<Scalar>),
    background_color: &'a str,
) -> DrawingView<'a> {
    let w = width;
    let h = height;
    DrawingView {
        width: side.spec_times(w, 0, 1),
        height: side.spec_times(h, 0, 1),
        shapes: seq![backdrop(background_color)] + collect(
            tiling(width, height, Wrap::Neither).len(),
            |k: int| cubic_disarray_cell(
                side,
                width,
                height,
                fill,
                stroke,
                disarray,
                tiling(width, height, Wrap::Neither)[k],
            ),
        ),
    }
}

/// Squares with the side `side` on a grid of `grid.0` columns and `grid.1`
/// rows. Cell `i`, counted row by row, is filled with the colour
/// `fill[i].0` at the opacity `fill[i].1`, shifted by `disarray.0[i]` and
/// turned by `disarray.1[i]` degrees.
pub fn cubic_disarray<'a>(
    side: Scalar,
    grid: (usize, usize),
    fill: &[(&'a str, Scalar)],
    stroke: (&'a str, Scalar),
    disarray: (&[Scalar], &[Scalar]),
    background_color: &'a str,
) -> (r: Drawing<'a>)
    requires
        side.within(FACTOR_LIMIT as int),
        grid.0 <= GRID_LIMIT,
        grid.1 <= GRID_LIMIT,
        fill@.len() == grid.0 * grid.1,
        disarray.0@.len() == grid.0 * grid.1,
        disarray.1@.len() == grid.0 * grid.1,
    ensures
        r@ == cubic_disarray_drawing(
            side,
            grid.0 as int,
            grid.1 as int,
            fill@,
            stroke,
            (disarray.0@, disarray.1@),
            background_color,
        ),
{
    let width = grid.0;
    let height = grid.1;
    let w = width as i64;
    let h = height as i64;
    let canvas_width = side.times(w, 0, 1);
    let canvas_height = side.times(h, 0, 1);
    let cells = tile(width, height, Wrap::Neither);
    let mut shapes: Vec<Shape<'a>> = Vec::new();
    push_backdrop(&mut shapes, background_color);
    assert(views(shapes@) =~= seq![backdrop(background_color)] + collect(
        0,
        |k: int| cubic_disarray_cell(
            side,
            width as int,
            height as int,
            fill@,
            stroke,
            (disarray.0@, disarray.1@),
            tiling(width as int, height as int, Wrap::Neither)[k],
        ),
    ));
    let mut j: usize = 0;
    while j < cells.len()
        invariant
            0 <= j <= cells@.len(),
            cells@ == tiling(width as int, height as int, Wrap::Neither),
            forall|k: int|
                0 <= k < cells@.len() ==> (#[trigger] cells@[k]).x < width && cells@[k].y < height,
            width <= GRID_LIMIT,
            height <= GRID_LIMIT,
            w == width,
            h == height,
            side.within(FACTOR_LIMIT as int),
            fill@.len() == width * height,
            disarray.0@.len() == width * height,
            disarray.1@.len() == width * height,
            views(shapes@) == seq![backdrop(background_color)] + collect(
                j as nat,
                |k: int| cubic_disarray_cell(
                    side,
                    width as int,
                    height as int,
                    fill@,
                    stroke,
                    (disarray.0@, disarray.1@),
                    tiling(width as int, height as int, Wrap::Neither)[k],
                ),
            ),
        decreases cells@.len() - j,
    {
        let ghost before = views(shapes@);
        let e = cells[j];
        proof {
            lemma_cell_index(e.x as int, e.y as int, width as int, height as int);
        }
        let paint = fill[e.y * width + e.x];
        let shift = disarray.0[e.y * width + e.x];
        let angle = disarray.1[e.y * width + e.x];
        let x = e.x as i64;
        let y = e.y as i64;
        let mut p: Vec<Piece> = Vec::new();
        put_number(&mut p, "x", side.times(x, 0, 1));
        put_number(&mut p, "y", side.times(y, 0, 1));
        put_number(&mut p, "width", side);
        put_number(&mut p, "height", side);
        put_text(&mut p, "fill", paint.0);
        put_number(&mut p, "fill-opacity", paint.1);
        put_text(&mut p, "stroke", stroke.0);
        put_number(&mut p, "stroke-opacity", stroke.1);
        p.push(Piece::Key("transform"));
        p.push(Piece::Text("translate("));
        p.push(Piece::Number(shift));
        p.push(Piece::Text(" 0) rotate("));
        p.push(Piece::Number(angle));
        p.push(Piece::Text(" "));
        p.push(Piece::Number(side.times(x, 0, 1)));
        p.push(Piece::Text(" "));
        p.push(Piece::Number(side.times(y, 0, 1)));
        p.push(Piece::Text(")"));
        push_shape(&mut shapes, Tag::Rectangle, p);
        assert(views(shapes@) =~= before + cubic_disarray_cell(
            side,
            width as int,
            height as int,
            fill@,
            stroke,
            (disarray.0@, disarray.1@),
            e,
        ));
        j = j + 1;
    }
    Drawing { width: canvas_width, height: canvas_height, shapes }
}

} // verus!
