//! Plus signs turned by 45 degrees.

use vstd::prelude::*;
use crate::scalar::{FACTOR_LIMIT, FIELD_LIMIT, Scalar};
use crate::shape::{
    collect, lemma_collect_singles, push_shape, put_number, put_text, views, with_number,
    with_text, Drawing, DrawingView, Piece, Shape, ShapeView, Tag,
};
use crate::shapes::{backdrop, lemma_cell_index, push_backdrop, GRID_LIMIT};
use crate::tiling::{lemma_tiling_len, tile, tiling, Emission, Wrap};

verus! {

/// A cross: a plus sign with arms `side` wide, filled with `paint`, moved
/// by `tx` and `ty` and turned by 45 degrees about the middle of its box.
pub open spec fn x_cross<'a>(
    side: Scalar,
    x_side: Scalar,
    paint: (&'a str, Scalar),
    tx: Scalar,
    ty: Scalar,
) -> Seq<Piece<'a>> {
    let p = Seq::<Piece>::empty();
    let p = with_text(p, "fill", paint.0);
    let p = with_number(p, "fill-opacity", paint.1);
    let p = p
        .push(Piece::Key("transform"))
        .push(Piece::Text("translate("))
        .push(Piece::Number(tx))
        .push(Piece::Text(", "))
        .push(Piece::Number(ty))
        .push(Piece::Text(") rotate(45, "))
        .push(Piece::Number(x_side.spec_times(1, 0, 2)))
        .push(Piece::Text(", "))
        .push(Piece::Number(x_side.spec_times(1, 0, 2)))
        .push(Piece::Text(")"))
        .push(Piece::Child(Tag::Rectangle));
    let p = with_number(p, "x", side);
    let p = with_number(p, "y", Scalar::spec_whole(0));
    let p = with_number(p, "width", side);
    let p = with_number(p, "height", side.spec_times(3, 0, 1));
    let p = p.push(Piece::Child(Tag::Rectangle));
    let p = with_number(p, "x", Scalar::spec_whole(0));
    let p = with_number(p, "y", side);
    let p = with_number(p, "width", side.spec_times(3, 0, 1));
    let p = with_number(p, "height", side);
    p
}

/// The cross of one drawing of a cell: a plus sign, three sides long,
/// turned by 45 degrees about the middle of a box 2.829 sides wide. Columns
/// and rows are half a box apart and start half a box outside the canvas;
/// a cell of an odd column stands a quarter box lower, also where it is
/// drawn a second time.
pub open spec fn xes_cell<'a>(
    side: Scalar,
    width: int,
    height: int,
    fill: Seq<(&'a str, Scalar)>,
    e: Emission,
) -> Seq<ShapeView<'a>> {
    let x_side = side.spec_times(2829, 0, 1000);
    let paint = fill[e.y * width + e.x];
    let col = e.spec_col(width);
    let row = e.spec_row(height);
    let odd = (e.x % 2) as int;
    let p = x_cross(
        side,
        x_side,
        paint,
        x_side.spec_times(col - 1, 0, 2),
        x_side.spec_times(2 * row - 2 + odd, 0, 4),
    );
    let cross = ShapeView { tag: Tag::Group, pieces: p };
    seq![cross]
}

/// The whole drawing: a canvas half a box wide for each column and half a
/// box high for each row, the background, and the crosses of a grid whose
/// borders wrap.
pub open spec fn xes_drawing<'a>(
    side: Scalar,
    width: int,
    height: int,
    fill: Seq<(&'a str, Scalar)>,
    background_color: &'a str,
) -> DrawingView<'a> {
    let w = width;
    let h = height;
    let x_side = side.spec_times(2829, 0, 1000);
    DrawingView {
        width: x_side.spec_times(w, 0, 2),
        height: x_side.spec_times(h, 0, 2),
        shapes: seq![backdrop(background_color)] + collect(
            tiling(width, height, Wrap::Both).len(),
            |k: int| xes_cell(side, width, height, fill, tiling(width, height, Wrap::Both)[k]),
        ),
    }
}

/// The drawing holds the background and then one shape for each drawing of
/// a cell, in the order of the tiling: `(width + 1) * (height + 1)` shapes
/// for the cells. How often the tiling draws a cell, `lemma_edge_duplication`
/// says.
pub proof fn lemma_xes_shapes<'a>(
    side: Scalar,
    width: int,
    height: int,
    fill: Seq<(&'a str, Scalar)>,
    background_color: &'a str,
)
    requires
        1 <= width,
        1 <= height,
    ensures
        ({
            let drawing = xes_drawing(side, width, height, fill, background_color);
            let cells = tiling(width, height, Wrap::Both);
            &&& cells.len() == (width + 1) * (height + 1)
            &&& drawing.shapes.len() == 1 + cells.len()
            &&& forall|k: int|
                1 <= k <= cells.len() ==> #[trigger] drawing.shapes[k] == xes_cell(
                    side,
                    width,
                    height,
                    fill,
                    cells[k - 1],
                )[0]
        }),
{
    lemma_tiling_len(width, height, Wrap::Both);
    let f = |k: int| xes_cell(side, width, height, fill, tiling(width, height, Wrap::Both)[k]);
    let n = tiling(width, height, Wrap::Both).len();
    assert forall|k: int| 0 <= k < n implies (#[trigger] f(k)).len() == 1 by {}
    lemma_collect_singles(n, f);
}

/// A cross: a plus sign with arms `side` wide, filled with `paint`, moved
/// by `tx` and `ty` and turned by 45 degrees about the middle of its box.
fn cross_pieces<'a>(
    side: Scalar,
    x_side: Scalar,
    paint: (&'a str, Scalar),
    tx: Scalar,
    ty: Scalar,
) -> (p: Vec<Piece<'a>>)
    requires
        side.within(FACTOR_LIMIT as int),
        x_side.within(FIELD_LIMIT as int),
    ensures
        p@ == x_cross(side, x_side, paint, tx, ty),
{
    let mut p: Vec<Piece> = Vec::new();
    put_text(&mut p, "fill", paint.0);
    put_number(&mut p, "fill-opacity", paint.1);
    p.push(Piece::Key("transform"));
    p.push(Piece::Text("translate("));
    p.push(Piece::Number(tx));
    p.push(Piece::Text(", "));
    p.push(Piece::Number(ty));
    p.push(Piece::Text(") rotate(45, "));
    p.push(Piece::Number(x_side.times(1, 0, 2)));
    p.push(Piece::Text(", "));
    p.push(Piece::Number(x_side.times(1, 0, 2)));
    p.push(Piece::Text(")"));
    p.push(Piece::Child(Tag::Rectangle));
    put_number(&mut p, "x", side);
    put_number(&mut p, "y", Scalar::whole(0));
    put_number(&mut p, "width", side);
    put_number(&mut p, "height", side.times(3, 0, 1));
    p.push(Piece::Child(Tag::Rectangle));
    put_number(&mut p, "x", Scalar::whole(0));
    put_number(&mut p, "y", side);
    put_number(&mut p, "width", side.times(3, 0, 1));
    put_number(&mut p, "height", side);
    p
}

/// Crosses with arms `side` wide on a grid of `grid.0` columns and `grid.1`
/// rows. Cell `i`, counted row by row, is filled with the colour
/// `fill[i].0` at the opacity `fill[i].1`.
pub fn xes<'a>(
    side: Scalar,
    grid: (usize, usize),
    fill: &[(&'a str, Scalar)],
    background_color: &'a str,
) -> (r: Drawing<'a>)
    requires
        side.within(FACTOR_LIMIT as int),
        grid.0 <= GRID_LIMIT,
        grid.1 <= GRID_LIMIT,
        fill@.len() == grid.0 * grid.1,
    ensures
        r@ == xes_drawing(side, grid.0 as int, grid.1 as int, fill@, background_color),
{
    let width = grid.0;
    let height = grid.1;
    let w = width as i64;
    let h = height as i64;
    let x_side = side.times(2829, 0, 1000);
    let canvas_width = x_side.times(w, 0, 2);
    let canvas_height = x_side.times(h, 0, 2);
    let cells = tile(width, height, Wrap::Both);
    let mut shapes: Vec<Shape<'a>> = Vec::new();
    push_backdrop(&mut shapes, background_color);
    assert(views(shapes@) =~= seq![backdrop(background_color)] + collect(
        0,
        |k: int| xes_cell(
            side,
            width as int,
            height as int,
            fill@,
            tiling(width as int, height as int, Wrap::Both)[k],
        ),
    ));
    let mut j: usize = 0;
    while j < cells.len()
        invariant
            0 <= j <= cells@.len(),
            cells@ == tiling(width as int, height as int, Wrap::Both),
            forall|k: int|
                0 <= k < cells@.len() ==> (#[trigger] cells@[k]).x < width && cells@[k].y < height,
            width <= GRID_LIMIT,
            height <= GRID_LIMIT,
            w == width,
            h == height,
            side.within(FACTOR_LIMIT as int),
            fill@.len() == width * height,
            x_side == side.spec_times(2829, 0, 1000),
            x_side.within(FIELD_LIMIT as int),
            views(shapes@) == seq![backdrop(background_color)] + collect(
                j as nat,
                |k: int| xes_cell(
                    side,
                    width as int,
                    height as int,
                    fill@,
                    tiling(width as int, height as int, Wrap::Both)[k],
                ),
            ),
        decreases cells@.len() - j,
    {
        let ghost before = views(shapes@);
        let e = cells[j];
        proof {
            lemma_cell_index(e.x as int, e.y as int, width as int, height as int);
        }
        let paint = fill[e.y * width + e.x];
        let col = e.col(width) as i64;
        let row = e.row(height) as i64;
        let odd = (e.x % 2) as i64;
        let mut p: Vec<Piece> = cross_pieces(
            side,
            x_side,
            paint,
            x_side.times(col - 1, 0, 2),
            x_side.times(2 * row - 2 + odd, 0, 4),
        );
        push_shape(&mut shapes, Tag::Group, p);
        assert(views(shapes@) =~= before + xes_cell(side, width as int, height as int, fill@, e));
        j = j + 1;
    }
    Drawing { width: canvas_width, height: canvas_height, shapes }
}

} // verus!
