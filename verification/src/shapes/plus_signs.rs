//! Plus signs that interlock.

use vstd::prelude::*;
use crate::scalar::{FACTOR_LIMIT, Scalar};
use crate::shape::{
    collect, lemma_collect_singles, push_shape, put_number, put_text, put_translate, views,
    with_number, with_text, with_translate, Drawing, DrawingView, Piece, Shape, ShapeView, Tag,
};
use crate::shapes::{backdrop, lemma_cell_index, push_backdrop, GRID_LIMIT};
use crate::tiling::{lemma_tiling_len, tile, tiling, Emission, Wrap};

verus! {

/// The plus sign of one drawing of a cell: two bars, one side wide and
/// three long, that cross. Columns and rows are two sides apart and start
/// one side left of and one and a half sides above the canvas; a cell of an
/// odd row stands one side further right, also where it is drawn a second
/// time.
pub open spec fn plus_signs_cell<'a>(
    side: Scalar,
    width: int,
    height: int,
    fill: Seq<(&'a str, Scalar)>,
    stroke: (&'a str, Scalar),
    e: Emission,
) -> Seq<ShapeView<'a>> {
    let paint = fill[e.y * width + e.x];
    let col = e.spec_col(width);
    let row = e.spec_row(height);
    let odd = (e.y % 2) as int;
    let p = Seq::<Piece>::empty();
    let p = with_text(p, "fill", paint.0);
    let p = with_text(p, "stroke", stroke.0);
    let p = with_number(p, "stroke-opacity", stroke.1);
    let p = with_number(p, "fill-opacity", paint.1);
    let p = with_translate(
        p,
        side.spec_times(2 * col + odd - 1, 0, 1),
        side.spec_times(4 * row - 3, 0, 2),
    );
    let p = p.push(Piece::Child(Tag::Rectangle));
    let p = with_number(p, "x", side);
    let p = with_number(p, "y", Scalar::spec_whole(0));
    let p = with_number(p, "width", side);
    let p = with_number(p, "height", side.spec_times(3, 0, 1));
    let p = p.push(Piece::Child(Tag::Rectangle));
    let p = with_number(p, "x", Scalar::spec_whole(0));
    let p = with_number(p, "y", side);
    let p = with_number(p, "width", side.spec_times(3, 0, 1));
    let p = with_number(p, "height", side);
    let sign = ShapeView { tag: Tag::Group, pieces: p };
    seq![sign]
}

/// The whole drawing: a canvas two sides wide for each column and two sides
/// high for each row, the background, and the plus signs of a grid whose
/// borders wrap.
pub open spec fn plus_signs_drawing<'a>(
    side: Scalar,
    width: int,
    height: int,
    fill: Seq<(&'a str, Scalar)>,
    stroke: (&'a str, Scalar),
    background_color: &'a str,
) -> DrawingView<'a> {
    let w = width;
    let h = height;
    DrawingView {
        width: side.spec_times(2 * w, 0, 1),
        height: side.spec_times(2 * h, 0, 1),
        shapes: seq![backdrop(background_color)] + collect(
            tiling(width, height, Wrap::Both).len(),
            |k: int| plus_signs_cell(
                side,
                width,
                height,
                fill,
                stroke,
                tiling(width, height, Wrap::Both)[k],
            ),
        ),
    }
}

/// The drawing holds the background and then one shape for each drawing of
/// a cell, in the order of the tiling: `(width + 1) * (height + 1)` shapes
/// for the cells. How often the tiling draws a cell, `lemma_edge_duplication`
/// says.
pub proof fn lemma_plus_signs_shapes<'a>(
    side: Scalar,
    width: int,
    height: int,
    fill: Seq<(&'a str, Scalar)>,
    stroke: (&'a str, Scalar),
    background_color: &'a str,
)
    requires
        1 <= width,
        1 <= height,
    ensures
        ({
            let drawing = plus_signs_drawing(side, width, height, fill, stroke, background_color);
            let cells = tiling(width, height, Wrap::Both);
            &&& cells.len() == (width + 1) * (height + 1)
            &&& drawing.shapes.len() == 1 + cells.len()
            &&& forall|k: int|
                1 <= k <= cells.len() ==> #[trigger] drawing.shapes[k] == plus_signs_cell(
                    side,
                    width,
                    height,
                    fill,
                    stroke,
                    cells[k - 1],
                )[0]
        }),
{
    lemma_tiling_len(width, height, Wrap::Both);
    let f = |k: int| plus_signs_cell(
        side,
        width,
        height,
        fill,
        stroke,
        tiling(width, height, Wrap::Both)[k],
    );
    let n = tiling(width, height, Wrap::Both).len();
    assert forall|k: int| 0 <= k < n implies (#[trigger] f(k)).len() == 1 by {}
    lemma_collect_singles(n, f);
}

/// Plus signs with arms `side` wide on a grid of `grid.0` columns and
/// `grid.1` rows. Cell `i`, counted row by row, is filled with the colour
/// `fill[i].0` at the opacity `fill[i].1`.
pub fn plus_signs<'a>(
    side: Scalar,
    grid: (usize, usize),
    fill: &[(&'a str, Scalar)],
    stroke: (&'a str, Scalar),
    background_color: &'a str,
) -> (r: Drawing<'a>)
    requires
        side.within(FACTOR_LIMIT as int),
        grid.0 <= GRID_LIMIT,
        grid.1 <= GRID_LIMIT,
        fill@.len() == grid.0 * grid.1,
    ensures
        r@ == plus_signs_drawing(
            side,
            grid.0 as int,
            grid.1 as int,
            fill@,
            stroke,
            background_color,
        ),
{
    let width = grid.0;
    let height = grid.1;
    let w = width as i64;
    let h = height as i64;
    let canvas_width = side.times(2 * w, 0, 1);
    let canvas_height = side.times(2 * h, 0, 1);
    let cells = tile(width, height, Wrap::Both);
    let mut shapes: Vec<Shape<'a>> = Vec::new();
    push_backdrop(&mut shapes, background_color);
    assert(views(shapes@) =~= seq![backdrop(background_color)] + collect(
        0,
        |k: int| plus_signs_cell(
            side,
            width as int,
            height as int,
            fill@,
            stroke,
            tiling(width as int, height as int, Wrap::Both)[k],
        ),
    ));
    let mut j: usize = 0;
    while j < cells.len()
        invariant
            0 <= j <= cells@.len(),
            cells@ == tiling(width as int, height as int, Wrap::Both),
            forall|k: int|
                0 <= k < cells@.len() ==> (#[trigger] cells@[k]).x < width && cells@[k].y < height,
            width <= GRID_LIMIT,
            height <= GRID_LIMIT,
            w == width,
            h == height,
            side.within(FACTOR_LIMIT as int),
            fill@.len() == width * height,
            views(shapes@) == seq![backdrop(background_color)] + collect(
                j as nat,
                |k: int| plus_signs_cell(
                    side,
                    width as int,
                    height as int,
                    fill@,
                    stroke,
                    tiling(width as int, height as int, Wrap::Both)[k],
                ),
            ),
        decreases cells@.len() - j,
    {
        let ghost before = views(shapes@);
        let e = cells[j];
        proof {
            lemma_cell_index(e.x as int, e.y as int, width as int, height as int);
        }
        let paint = fill[e.y * width + e.x];
        let col = e.col(width) as i64;
        let row = e.row(height) as i64;
        let odd = (e.y % 2) as i64;
        let mut p: Vec<Piece> = Vec::new();
        put_text(&mut p, "fill", paint.0);
        put_text(&mut p, "stroke", stroke.0);
        put_number(&mut p, "stroke-opacity", stroke.1);
        put_number(&mut p, "fill-opacity", paint.1);
        put_translate(&mut p, side.times(2 * col + odd - 1, 0, 1), side.times(4 * row - 3, 0, 2));
        p.push(Piece::Child(Tag::Rectangle));
        put_number(&mut p, "x", side);
        put_number(&mut p, "y", Scalar::whole(0));
        put_number(&mut p, "width", side);
        put_number(&mut p, "height", side.times(3, 0, 1));
        p.push(Piece::Child(Tag::Rectangle));
        put_number(&mut p, "x", Scalar::whole(0));
        put_number(&mut p, "y", side);
        put_number(&mut p, "width", side.times(3, 0, 1));
        put_number(&mut p, "height", side);
        push_shape(&mut shapes, Tag::Group, p);
        assert(views(shapes@) =~= before + plus_signs_cell(
            side,
            width as int,
            height as int,
            fill@,
            stroke,
            e,
        ));
        j = j + 1;
    }
    Drawing { width: canvas_width, height: canvas_height, shapes }
}

} // verus!
