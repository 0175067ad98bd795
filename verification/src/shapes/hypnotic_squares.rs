//! A grid of squares, each holding smaller squares that drift to one side.

use vstd::prelude::*;
use crate::scalar::{lemma_product_bound, FACTOR_LIMIT, Scalar};
use crate::shape::{
    collect, push_shape, put_number, put_text, views, with_number, with_text, Drawing,
    DrawingView, Piece, Shape, ShapeView, Tag,
};
use crate::shapes::{backdrop, lemma_cell_index, push_backdrop, GRID_LIMIT};
use crate::tiling::{tile, tiling, Emission, Wrap};

verus! {

/// The largest number of squares in a cell, and the largest drift of a cell.
pub const STEP_LIMIT: usize = 1000;

/// `pieces`, then square `i` of a cell. The squares shrink from `side`
/// toward `min_side` in `steps` equal steps; square `i` has lost `2 * i`
/// steps and stands `i` steps inside, moved by half a step for each unit of
/// the drift `direction`.
pub open spec fn with_square<'a>(
    pieces: Seq<Piece<'a>>,
    side: Scalar,
    min_side: Scalar,
    steps: int,
    direction: (int, int),
    paint: (&'a str, Scalar, Scalar),
    i: int,
) -> Seq<Piece<'a>> {
    let p = pieces;
    let p = p.push(Piece::Child(Tag::Rectangle));
    let p = with_number(
        p,
        "x",
        Scalar::spec_blend(
            side,
            i * (2 + direction.0),
            min_side,
            -(i * (2 + direction.0)),
            2 * steps,
        ),
    );
    let p = with_number(
        p,
        "y",
        Scalar::spec_blend(
            side,
            i * (2 + direction.1),
            min_side,
            -(i * (2 + direction.1)),
            2 * steps,
        ),
    );
    let p = with_number(
        p,
        "width",
        Scalar::spec_blend(side, steps - 2 * i, min_side, 2 * i, steps),
    );
    let p = with_number(
        p,
        "height",
        Scalar::spec_blend(side, steps - 2 * i, min_side, 2 * i, steps),
    );
    let p = with_text(p, "fill", "none");
    let p = with_text(p, "stroke", paint.0);
    let p = with_number(p, "stroke-width", paint.1);
    let p = with_number(p, "stroke-opacity", paint.2);
    p
}

/// The group of a cell with its first `n` squares, moved to `(tx, ty)`.
pub open spec fn hypnotic_group<'a>(
    side: Scalar,
    min_side: Scalar,
    steps: int,
    direction: (int, int),
    paint: (&'a str, Scalar, Scalar),
    tx: Scalar,
    ty: Scalar,
    n: int,
) -> Seq<Piece<'a>>
    decreases n,
{
    if n <= 0 {
        Seq::<Piece>::empty().push(Piece::Key("transform")).push(Piece::Text("translate(")).push(
            Piece::Number(tx),
        ).push(Piece::Text(" ")).push(Piece::Number(ty)).push(Piece::Text(")"))
    } else {
        with_square(
            hypnotic_group(side, min_side, steps, direction, paint, tx, ty, n - 1),
            side,
            min_side,
            steps,
            direction,
            paint,
            n - 1,
        )
    }
}

/// The group of a cell: its squares one inside the other, at the place of
/// the cell.
pub open spec fn hypnotic_squares_cell<'a>(
    side: Scalar,
    min_side: Scalar,
    steps: int,
    width: int,
    height: int,
    directions: Seq<(isize, isize)>,
    stroke: Seq<(&'a str, Scalar, Scalar)>,
    e: Emission,
) -> Seq<ShapeView<'a>> {
    let paint = stroke[e.y * width + e.x];
    let drift = directions[e.y * width + e.x];
    let x = e.x as int;
    let y = e.y as int;
    let p = hypnotic_group(
        side,
        min_side,
        steps,
        (drift.0 as int, drift.1 as int),
        paint,
        side.spec_times(x, 0, 1),
        side.spec_times(y, 0, 1),
        steps,
    );
    let group = ShapeView { tag: Tag::Group, pieces: p };
    seq![group]
}

/// The whole drawing: a canvas one side wide for each column and one side
/// high for each row, the background, and the group of each cell.
pub open spec fn hypnotic_squares_drawing<'a>(
    side: Scalar,
    min_side: Scalar,
    steps: int,
    width: int,
    height: int,
    directions: Seq<(isize, isize)>,
    stroke: Seq<(&'a str, Scalar, Scalar)>,
    background_color: &'a str,
) -> DrawingView<'a> {
    let w = width;
    let h = height;
    DrawingView {
        width: side.spec_times(w, 0, 1),
        height: side.spec_times(h, 0, 1),
        shapes: seq![backdrop(background_color)] + collect(
            tiling(width, height, Wrap::Neither).len(),
            |k: int| hypnotic_squares_cell(
                side,
                min_side,
                steps,
                width,
                height,
                directions,
                stroke,
                tiling(width, height, Wrap::Neither)[k],
            ),
        ),
    }
}

/// The group of a cell with all its squares, moved to `(tx, ty)`.
fn group_pieces<'a>(
    side: Scalar,
    min_side: Scalar,
    steps: usize,
    drift: (isize, isize),
    paint: (&'a str, Scalar, Scalar),
    tx: Scalar,
    ty: Scalar,
) -> (p: Vec<Piece<'a>>)
    requires
        side.within(FACTOR_LIMIT as int),
        min_side.within(FACTOR_LIMIT as int),
        1 <= steps <= STEP_LIMIT,
        -(STEP_LIMIT as int) <= drift.0 <= STEP_LIMIT,
        -(STEP_LIMIT as int) <= drift.1 <= STEP_LIMIT,
    ensures
        p@ == hypnotic_group(
            side,
            min_side,
            steps as int,
            (drift.0 as int, drift.1 as int),
            paint,
            tx,
            ty,
            steps as int,
        ),
{
    let direction: (i64, i64) = (drift.0 as i64, drift.1 as i64);
    let mut p: Vec<Piece> = Vec::new();
    p.push(Piece::Key("transform"));
    p.push(Piece::Text("translate("));
    p.push(Piece::Number(tx));
    p.push(Piece::Text(" "));
    p.push(Piece::Number(ty));
    p.push(Piece::Text(")"));
    let mut n: usize = 0;
    while n < steps
        invariant
            0 <= n <= steps,
            side.within(FACTOR_LIMIT as int),
            min_side.within(FACTOR_LIMIT as int),
            1 <= steps <= STEP_LIMIT,
            -(STEP_LIMIT as int) <= drift.0 <= STEP_LIMIT,
            -(STEP_LIMIT as int) <= drift.1 <= STEP_LIMIT,
            direction.0 == drift.0,
            direction.1 == drift.1,
            p@ == hypnotic_group(
                side,
                min_side,
                steps as int,
                (drift.0 as int, drift.1 as int),
                paint,
                tx,
                ty,
                n as int,
            ),
        decreases steps - n,
    {
        let i = n as i64;
        let steps = steps as i64;
        proof {
            lemma_product_bound(i as int, 2 + direction.0, 1000, 1002);
            lemma_product_bound(i as int, 2 + direction.1, 1000, 1002);
        }
        p.push(Piece::Child(Tag::Rectangle));
        put_number(
            &mut p,
            "x",
            Scalar::blend(
                side,
                i * (2 + direction.0),
                min_side,
                -(i * (2 + direction.0)),
                2 * steps,
            ),
        );
        put_number(
            &mut p,
            "y",
            Scalar::blend(
                side,
                i * (2 + direction.1),
                min_side,
                -(i * (2 + direction.1)),
                2 * steps,
            ),
        );
        put_number(&mut p, "width", Scalar::blend(side, steps - 2 * i, min_side, 2 * i, steps));
        put_number(&mut p, "height", Scalar::blend(side, steps - 2 * i, min_side, 2 * i, steps));
        put_text(&mut p, "fill", "none");
        put_text(&mut p, "stroke", paint.0);
        put_number(&mut p, "stroke-width", paint.1);
        put_number(&mut p, "stroke-opacity", paint.2);
        n = n + 1;
    }
    p
}

/// Squares inside squares on a grid of `grid.0` columns and `grid.1` rows.
/// Each cell holds `steps` squares that shrink from `side` toward
/// `min_side`. In cell `i`, counted row by row, they drift by
/// `directions[i]` and are stroked with the colour `stroke[i].0`, the width
/// `stroke[i].1` and the opacity `stroke[i].2`.
pub fn hypnotic_squares<'a>(
    side: Scalar,
    min_side: Scalar,
    steps: usize,
    grid: (usize, usize),
    directions: &[(isize, isize)],
    stroke: &[(&'a str, Scalar, Scalar)],
    background_color: &'a str,
) -> (r: Drawing<'a>)
    requires
        side.within(FACTOR_LIMIT as int),
        min_side.within(FACTOR_LIMIT as int),
        1 <= steps <= STEP_LIMIT,
        grid.0 <= GRID_LIMIT,
        grid.1 <= GRID_LIMIT,
        directions@.len() == grid.0 * grid.1,
        stroke@.len() == grid.0 * grid.1,
        forall|i: int|
            0 <= i < directions@.len() ==> -(STEP_LIMIT as int) <= (#[trigger] directions@[i]).0 <= STEP_LIMIT
                && -(STEP_LIMIT as int) <= directions@[i].1 <= STEP_LIMIT,
    ensures
        r@ == hypnotic_squares_drawing(
            side,
            min_side,
            steps as int,
            grid.0 as int,
            grid.1 as int,
            directions@,
            stroke@,
            background_color,
        ),
{
    let width = grid.0;
    let height = grid.1;
    let w = width as i64;
    let h = height as i64;
    let canvas_width = side.times(w, 0, 1);
    let canvas_height = side.times(h, 0, 1);
    let cells = tile(width, height, Wrap::Neither);
    let mut shapes: Vec<Shape<'a>> = Vec::new();
    push_backdrop(&mut shapes, background_color);
    assert(views(shapes@) =~= seq![backdrop(background_color)] + collect(
        0,
        |k: int| hypnotic_squares_cell(
            side,
            min_side,
            steps as int,
            width as int,
            height as int,
            directions@,
            stroke@,
            tiling(width as int, height as int, Wrap::Neither)[k],
        ),
    ));
    let mut j: usize = 0;
    while j < cells.len()
        invariant
            0 <= j <= cells@.len(),
            cells@ == tiling(width as int, height as int, Wrap::Neither),
            forall|k: int|
                0 <= k < cells@.len() ==> (#[trigger] cells@[k]).x < width && cells@[k].y < height,
            width <= GRID_LIMIT,
            height <= GRID_LIMIT,
            w == width,
            h == height,
            side.within(FACTOR_LIMIT as int),
            min_side.within(FACTOR_LIMIT as int),
            1 <= steps <= STEP_LIMIT,
            directions@.len() == width * height,
            stroke@.len() == width * height,
            forall|i: int|
                0 <= i < directions@.len() ==> -(STEP_LIMIT as int) <= (#[trigger] directions@[i]).0
                    <= STEP_LIMIT && -(STEP_LIMIT as int) <= directions@[i].1 <= STEP_LIMIT,
            views(shapes@) == seq![backdrop(background_color)] + collect(
                j as nat,
                |k: int| hypnotic_squares_cell(
                    side,
                    min_side,
                    steps as int,
                    width as int,
                    height as int,
                    directions@,
                    stroke@,
                    tiling(width as int, height as int, Wrap::Neither)[k],
                ),
            ),
        decreases cells@.len() - j,
    {
        let ghost before = views(shapes@);
        let e = cells[j];
        proof {
            lemma_cell_index(e.x as int, e.y as int, width as int, height as int);
        }
        let paint = stroke[e.y * width + e.x];
        let drift = directions[e.y * width + e.x];
        let x = e.x as i64;
        let y = e.y as i64;
        let mut p: Vec<Piece> = group_pieces(
            side,
            min_side,
            steps,
            drift,
            paint,
            side.times(x, 0, 1),
            side.times(y, 0, 1),
        );
        push_shape(&mut shapes, Tag::Group, p);
        assert(views(shapes@) =~= before + hypnotic_squares_cell(
            side,
            min_side,
            steps as int,
            width as int,
            height as int,
            directions@,
            stroke@,
            e,
        ));
        j = j + 1;
    }
    Drawing { width: canvas_width, height: canvas_height, shapes }
}

} // verus!
