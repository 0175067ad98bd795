//! A mesh of triangles whose corners are moved by given amounts.

use vstd::prelude::*;
use crate::scalar::{FACTOR_LIMIT, Scalar};
use crate::shape::{
    collect, push_shape, put_number, put_text, views, with_number, with_text, Drawing,
    DrawingView, Piece, Shape, ShapeView, Tag,
};
use crate::shapes::{backdrop, lemma_cell_index, push_backdrop, GRID_LIMIT};
use crate::tiling::{tile, tiling, Emission, Wrap};

verus! {

/// Corner `k` of the strip of triangles in row `y`. The corners zigzag
/// between the line above and the line below the row; every corner occurs
/// twice in a row. A corner stands a quarter or three quarters of a side
/// into its column and half a side below its line, moved by the entropy of
/// its column and line.
pub open spec fn mesh_corner(
    side: Scalar,
    width: int,
    entropy: Seq<(Scalar, Scalar)>,
    y: int,
    k: int,
) -> (Scalar, Scalar) {
    let column = k / 4;
    let late = k % 2;
    let line = if (y % 2 == 0) == (late == 0) {
        y + 1
    } else {
        y
    };
    let moved = entropy[line * width + column];
    (
        Scalar::spec_blend(side, 4 * column + 1 + 2 * late, moved.0, 4, 4),
        Scalar::spec_blend(side, 2 * line + 1, moved.1, 2, 2),
    )
}

/// Triangle `e.x` of the strip in row `e.y`: the three corners of the strip
/// from that place on.
pub open spec fn triangular_mesh_cell<'a>(
    side: Scalar,
    width: int,
    height: int,
    entropy: Seq<(Scalar, Scalar)>,
    fill: Seq<(&'a str, Scalar)>,
    stroke: (Scalar, &'a str, Scalar),
    e: Emission,
) -> Seq<ShapeView<'a>> {
    let strip = 4 * width - 2;
    let paint = fill[e.y * strip + e.x];
    let a = mesh_corner(side, width, entropy, e.y as int, e.x as int);
    let b = mesh_corner(side, width, entropy, e.y as int, e.x + 1);
    let c = mesh_corner(side, width, entropy, e.y as int, e.x + 2);
    let p = Seq::<Piece>::empty();
    let p = p
        .push(Piece::Key("d"))
        .push(Piece::Text("M "))
        .push(Piece::Number(a.0))
        .push(Piece::Text(" "))
        .push(Piece::Number(a.1))
        .push(Piece::Text(" L "))
        .push(Piece::Number(b.0))
        .push(Piece::Text(" "))
        .push(Piece::Number(b.1))
        .push(Piece::Text(" L "))
        .push(Piece::Number(c.0))
        .push(Piece::Text(" "))
        .push(Piece::Number(c.1))
        .push(Piece::Text(" Z"));
    let p = with_text(p, "fill", paint.0);
    let p = with_number(p, "fill-opacity", paint.1);
    let p = with_text(p, "stroke", stroke.1);
    let p = with_number(p, "stroke-width", stroke.0);
    let p = with_number(p, "stroke-opacity", stroke.2);
    let p = with_text(p, "stroke-linejoin", "bevel");
    let triangle = ShapeView { tag: Tag::Path, pieces: p };
    seq![triangle]
}

/// The whole drawing: a canvas one side wide for each column and one side
/// high for each line, the background, and the `4 * width - 2` triangles of
/// each row.
pub open spec fn triangular_mesh_drawing<'a>(
    side: Scalar,
    width: int,
    height: int,
    entropy: Seq<(Scalar, Scalar)>,
    fill: Seq<(&'a str, Scalar)>,
    stroke: (Scalar, &'a str, Scalar),
    background_color: &'a str,
) -> DrawingView<'a> {
    let w = width;
    let h = height;
    DrawingView {
        width: side.spec_times(w, 0, 1),
        height: side.spec_times(h + 1, 0, 1),
        shapes: seq![backdrop(background_color)] + collect(
            tiling(4 * width - 2, height, Wrap::Neither).len(),
            |k: int| triangular_mesh_cell(
                side,
                width,
                height,
                entropy,
                fill,
                stroke,
                tiling(4 * width - 2, height, Wrap::Neither)[k],
            ),
        ),
    }
}

/// Corner `k` of the strip of triangles in row `y`.
fn corner(
    side: Scalar,
    grid: (usize, usize),
    entropy: &[(Scalar, Scalar)],
    y: usize,
    k: usize,
) -> (c: (
    Scalar,
    Scalar,
))
    requires
        side.within(FACTOR_LIMIT as int),
        1 <= grid.0,
        4 * grid.0 - 2 <= GRID_LIMIT,
        grid.1 <= GRID_LIMIT,
        entropy@.len() == grid.0 * (grid.1 + 1),
        forall|i: int|
            0 <= i < entropy@.len() ==> (#[trigger] entropy@[i]).0.within(FACTOR_LIMIT as int)
                && entropy@[i].1.within(FACTOR_LIMIT as int),
        y < grid.1,
        k < 4 * grid.0,
    ensures
        c == mesh_corner(side, grid.0 as int, entropy@, y as int, k as int),
{
    let width = grid.0;
    let column = k / 4;
    let late = k % 2;
    let line = if (y % 2 == 0) == (late == 0) {
        y + 1
    } else {
        y
    };
    proof {
        assert(0 <= line * width <= line * width + column < width * (grid.1 + 1) <= 200_000_000)
            by (nonlinear_arith)
            requires
                0 <= column < width <= 10_000,
                0 <= line <= grid.1 <= 10_000,
        ;
    }
    let moved = entropy[line * width + column];
    (
        Scalar::blend(side, (4 * column + 1 + 2 * late) as i64, moved.0, 4, 4),
        Scalar::blend(side, (2 * line + 1) as i64, moved.1, 2, 2),
    )
}

/// A mesh of `grid.1` rows of triangles over `grid.0` columns of corners
/// that are `side` apart. Corner `(line, column)` is moved by
/// `entropy[line * grid.0 + column]`. Triangle `i`, counted row by row, is
/// filled with the colour `fill[i].0` at the opacity `fill[i].1`; all are
/// stroked with the width `stroke.0`, the colour `stroke.1` and the opacity
/// `stroke.2`.
pub fn triangular_mesh<'a>(
    side: Scalar,
    grid: (usize, usize),
    entropy: &[(Scalar, Scalar)],
    fill: &[(&'a str, Scalar)],
    stroke: (Scalar, &'a str, Scalar),
    background_color: &'a str,
) -> (r: Drawing<'a>)
    requires
        side.within(FACTOR_LIMIT as int),
        1 <= grid.0,
        4 * grid.0 - 2 <= GRID_LIMIT,
        grid.1 <= GRID_LIMIT,
        fill@.len() == (4 * grid.0 - 2) * grid.1,
        entropy@.len() == grid.0 * (grid.1 + 1),
        forall|i: int|
            0 <= i < entropy@.len() ==> (#[trigger] entropy@[i]).0.within(FACTOR_LIMIT as int)
                && entropy@[i].1.within(FACTOR_LIMIT as int),
    ensures
        r@ == triangular_mesh_drawing(
            side,
            grid.0 as int,
            grid.1 as int,
            entropy@,
            fill@,
            stroke,
            background_color,
        ),
{
    let width = grid.0;
    let height = grid.1;
    let w = width as i64;
    let h = height as i64;
    let strip = 4 * width - 2;
    let canvas_width = side.times(w, 0, 1);
    let canvas_height = side.times(h + 1, 0, 1);
    let cells = tile(strip, height, Wrap::Neither);
    let mut shapes: Vec<Shape<'a>> = Vec::new();
    push_backdrop(&mut shapes, background_color);
    assert(views(shapes@) =~= seq![backdrop(background_color)] + collect(
        0,
        |k: int| triangular_mesh_cell(
            side,
            width as int,
            height as int,
            entropy@,
            fill@,
            stroke,
            tiling(strip as int, height as int, Wrap::Neither)[k],
        ),
    ));
    let mut j: usize = 0;
    while j < cells.len()
        invariant
            0 <= j <= cells@.len(),
            cells@ == tiling(strip as int, height as int, Wrap::Neither),
            forall|k: int|
                0 <= k < cells@.len() ==> (#[trigger] cells@[k]).x < strip && cells@[k].y < height,
            grid == (width, height),
            1 <= width,
            strip == 4 * width - 2,
            strip <= GRID_LIMIT,
            height <= GRID_LIMIT,
            w == width,
            h == height,
            side.within(FACTOR_LIMIT as int),
            fill@.len() == strip * height,
            entropy@.len() == width * (height + 1),
            forall|i: int|
                0 <= i < entropy@.len() ==> (#[trigger] entropy@[i]).0.within(FACTOR_LIMIT as int)
                    && entropy@[i].1.within(FACTOR_LIMIT as int),
            views(shapes@) == seq![backdrop(background_color)] + collect(
                j as nat,
                |k: int| triangular_mesh_cell(
                    side,
                    width as int,
                    height as int,
                    entropy@,
                    fill@,
                    stroke,
                    tiling(strip as int, height as int, Wrap::Neither)[k],
                ),
            ),
        decreases cells@.len() - j,
    {
        let ghost before = views(shapes@);
        let e = cells[j];
        proof {
            lemma_cell_index(e.x as int, e.y as int, strip as int, height as int);
        }
        let paint = fill[e.y * strip + e.x];
        let a = corner(side, grid, entropy, e.y, e.x);
        let b = corner(side, grid, entropy, e.y, e.x + 1);
        let c = corner(side, grid, entropy, e.y, e.x + 2);
        let mut p: Vec<Piece> = Vec::new();
        p.push(Piece::Key("d"));
        p.push(Piece::Text("M "));
        p.push(Piece::Number(a.0));
        p.push(Piece::Text(" "));
        p.push(Piece::Number(a.1));
        p.push(Piece::Text(" L "));
        p.push(Piece::Number(b.0));
        p.push(Piece::Text(" "));
        p.push(Piece::Number(b.1));
        p.push(Piece::Text(" L "));
        p.push(Piece::Number(c.0));
        p.push(Piece::Text(" "));
        p.push(Piece::Number(c.1));
        p.push(Piece::Text(" Z"));
        put_text(&mut p, "fill", paint.0);
        put_number(&mut p, "fill-opacity", paint.1);
        put_text(&mut p, "stroke", stroke.1);
        put_number(&mut p, "stroke-width", stroke.0);
        put_number(&mut p, "stroke-opacity", stroke.2);
        put_text(&mut p, "stroke-linejoin", "bevel");
        push_shape(&mut shapes, Tag::Path, p);
        assert(views(shapes@) =~= before + triangular_mesh_cell(
            side,
            width as int,
            height as int,
            entropy@,
            fill@,
            stroke,
            e,
        ));
        j = j + 1;
    }
    Drawing { width: canvas_width, height: canvas_height, shapes }
}

} // verus!
