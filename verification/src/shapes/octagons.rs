//! A grid of octagons.

use vstd::prelude::*;
use crate::scalar::{FACTOR_LIMIT, Scalar};
use crate::shape::{
    collect, push_shape, put_number, put_text, put_translate, views, with_number, with_text,
    with_translate, Drawing, DrawingView, Piece, Shape, ShapeView, Tag,
};
use crate::shapes::{backdrop, lemma_cell_index, push_backdrop, GRID_LIMIT};
use crate::tiling::{tile, tiling, Emission, Wrap};

verus! {

/// The octagon of a cell: a square of its cell with each corner cut off at
/// 0.33 of the side.
pub open spec fn octagons_cell<'a>(
    side: Scalar,
    width: int,
    height: int,
    fill: Seq<(&'a str, Scalar)>,
    stroke: (&'a str, Scalar),
    e: Emission,
) -> Seq<ShapeView<'a>> {
    let paint = fill[e.y * width + e.x];
    let x = e.x as int;
    let y = e.y as int;
    let p = Seq::<Piece>::empty();
    let p = p
        .push(Piece::Key("points"))
        .push(Piece::Number(side.spec_times(33, 0, 100)))
        .push(Piece::Text(",0,"))
        .push(Piece::Number(side.spec_times(67, 0, 100)))
        .push(Piece::Text(",0,"))
        .push(Piece::Number(side))
        .push(Piece::Text(","))
        .push(Piece::Number(side.spec_times(33, 0, 100)))
        .push(Piece::Text(","))
        .push(Piece::Number(side))
        .push(Piece::Text(","))
        .push(Piece::Number(side.spec_times(67, 0, 100)))
        .push(Piece::Text(","))
        .push(Piece::Number(side.spec_times(67, 0, 100)))
        .push(Piece::Text(","))
        .push(Piece::Number(side))
        .push(Piece::Text(","))
        .push(Piece::Number(side.spec_times(33, 0, 100)))
        .push(Piece::Text(","))
        .push(Piece::Number(side))
        .push(Piece::Text(",0,"))
        .push(Piece::Number(side.spec_times(67, 0, 100)))
        .push(Piece::Text(",0,"))
        .push(Piece::Number(side.spec_times(33, 0, 100)))
        .push(Piece::Text(","))
        .push(Piece::Number(side.spec_times(33, 0, 100)))
        .push(Piece::Text(",0"));
    let p = with_text(p, "fill", paint.0);
    let p = with_number(p, "fill-opacity", paint.1);
    let p = with_text(p, "stroke", stroke.0);
    let p = with_number(p, "stroke-opacity", stroke.1);
    let p = with_translate(p, side.spec_times(x, 0, 1), side.spec_times(y, 0, 1));
    let octagon = ShapeView { tag: Tag::Polyline, pieces: p };
    seq![octagon]
}

/// The whole drawing: a canvas one side wide for each column and one side
/// high for each row, the background, and the octagons of the grid, each
/// drawn once.
pub open spec fn octagons_drawing<'a>(
    side: Scalar,
    width: int,
    height: int,
    fill: Seq<(&'a str, Scalar)>,
    stroke: (&'a str, Scalar),
    background_color: &'a str,
) -> DrawingView<'a> {
    let w = width;
    let h = height;
    DrawingView {
        width: side.spec_times(w, 0, 1),
        height: side.spec_times(h, 0, 1),
        shapes: seq![backdrop(background_color)] + collect(
            tiling(width, height, Wrap::Neither).len(),
            |k: int| octagons_cell(
                side,
                width,
                height,
                fill,
                stroke,
                tiling(width, height, Wrap::Neither)[k],
            ),
        ),
    }
}

/// Octagons `side` wide on a grid of `grid.0` columns and `grid.1` rows.
/// Cell `i`, counted row by row, is filled with the colour `fill[i].0` at
/// the opacity `fill[i].1`.
pub fn octagons<'a>(
    side: Scalar,
    grid: (usize, usize),
    fill: &[(&'a str, Scalar)],
    stroke: (&'a str, Scalar),
    background_color: &'a str,
) -> (r: Drawing<'a>)
    requires
        side.within(FACTOR_LIMIT as int),
        grid.0 <= GRID_LIMIT,
        grid.1 <= GRID_LIMIT,
        fill@.len() == grid.0 * grid.1,
    ensures
        r@ == octagons_drawing(side, grid.0 as int, grid.1 as int, fill@, stroke, background_color),
{
    let width = grid.0;
    let height = grid.1;
    let w = width as i64;
    let h = height as i64;
    let canvas_width = side.times(w, 0, 1);
    let canvas_height = side.times(h, 0, 1);
    let cells = tile(width, height, Wrap::Neither);
    let mut shapes: Vec<Shape<'a>> = Vec::new();
    push_backdrop(&mut shapes, background_color);
    assert(views(shapes@) =~= seq![backdrop(background_color)] + collect(
        0,
        |k: int| octagons_cell(
            side,
            width as int,
            height as int,
            fill@,
            stroke,
            tiling(width as int, height as int, Wrap::Neither)[k],
        ),
    ));
    let mut j: usize = 0;
    while j < cells.len()
        invariant
            0 <= j <= cells@.len(),
            cells@ == tiling(width as int, height as int, Wrap::Neither),
            forall|k: int|
                0 <= k < cells@.len() ==> (#[trigger] cells@[k]).x < width && cells@[k].y < height,
            width <= GRID_LIMIT,
            height <= GRID_LIMIT,
            w == width,
            h == height,
            side.within(FACTOR_LIMIT as int),
            fill@.len() == width * height,
            views(shapes@) == seq![backdrop(background_color)] + collect(
                j as nat,
                |k: int| octagons_cell(
                    side,
                    width as int,
                    height as int,
                    fill@,
                    stroke,
                    tiling(width as int, height as int, Wrap::Neither)[k],
                ),
            ),
        decreases cells@.len() - j,
    {
        let ghost before = views(shapes@);
        let e = cells[j];
        proof {
            lemma_cell_index(e.x as int, e.y as int, width as int, height as int);
        }
        let paint = fill[e.y * width + e.x];
        let x = e.x as i64;
        let y = e.y as i64;
        let mut p: Vec<Piece> = Vec::new();
        p.push(Piece::Key("points"));
        p.push(Piece::Number(side.times(33, 0, 100)));
        p.push(Piece::Text(",0,"));
        p.push(Piece::Number(side.times(67, 0, 100)));
        p.push(Piece::Text(",0,"));
        p.push(Piece::Number(side));
        p.push(Piece::Text(","));
        p.push(Piece::Number(side.times(33, 0, 100)));
        p.push(Piece::Text(","));
        p.push(Piece::Number(side));
        p.push(Piece::Text(","));
        p.push(Piece::Number(side.times(67, 0, 100)));
        p.push(Piece::Text(","));
        p.push(Piece::Number(side.times(67, 0, 100)));
        p.push(Piece::Text(","));
        p.push(Piece::Number(side));
        p.push(Piece::Text(","));
        p.push(Piece::Number(side.times(33, 0, 100)));
        p.push(Piece::Text(","));
        p.push(Piece::Number(side));
        p.push(Piece::Text(",0,"));
        p.push(Piece::Number(side.times(67, 0, 100)));
        p.push(Piece::Text(",0,"));
        p.push(Piece::Number(side.times(33, 0, 100)));
        p.push(Piece::Text(","));
        p.push(Piece::Number(side.times(33, 0, 100)));
        p.push(Piece::Text(",0"));
        put_text(&mut p, "fill", paint.0);
        put_number(&mut p, "fill-opacity", paint.1);
        put_text(&mut p, "stroke", stroke.0);
        put_number(&mut p, "stroke-opacity", stroke.1);
        put_translate(&mut p, side.times(x, 0, 1), side.times(y, 0, 1));
        push_shape(&mut shapes, Tag::Polyline, p);
        assert(views(shapes@) =~= before + octagons_cell(
            side,
            width as int,
            height as int,
            fill@,
            stroke,
            e,
        ));
        j = j + 1;
    }
    Drawing { width: canvas_width, height: canvas_height, shapes }
}

} // verus!
