//! Rhombuses in staggered rows.

use vstd::prelude::*;
use crate::scalar::{FACTOR_LIMIT, Scalar};
use crate::shape::{
    collect, lemma_collect_singles, push_shape, put_number, put_text, put_translate, views,
    with_number, with_text, with_translate, Drawing, DrawingView, Piece, Shape, ShapeView, Tag,
};
use crate::shapes::{backdrop, lemma_cell_index, push_backdrop, GRID_LIMIT};
use crate::tiling::{lemma_tiling_len, tile, tiling, Emission, Wrap};

verus! {

/// The rhombus of one drawing of a cell, `size.0` wide and `size.1` high.
/// It stands half a width to the left of its column and half a height
/// above its row, rows being half a height apart; a cell of an odd row
/// stands half a width further right, also where it is drawn a second time.
pub open spec fn diamonds_cell<'a>(
    size: (Scalar, Scalar),
    width: int,
    height: int,
    fill: Seq<(&'a str, Scalar)>,
    stroke: (&'a str, Scalar),
    e: Emission,
) -> Seq<ShapeView<'a>> {
    let dw = size.0;
    let dh = size.1;
    let paint = fill[e.y * width + e.x];
    let col = e.spec_col(width);
    let row = e.spec_row(height);
    let odd = (e.y % 2) as int;
    let p = Seq::<Piece>::empty();
    let p = p
        .push(Piece::Key("points"))
        .push(Piece::Number(dw.spec_times(1, 0, 2)))
        .push(Piece::Text(",0,"))
        .push(Piece::Number(dw))
        .push(Piece::Text(","))
        .push(Piece::Number(dh.spec_times(1, 0, 2)))
        .push(Piece::Text(","))
        .push(Piece::Number(dw.spec_times(1, 0, 2)))
        .push(Piece::Text(","))
        .push(Piece::Number(dh))
        .push(Piece::Text(",0,"))
        .push(Piece::Number(dh.spec_times(1, 0, 2)));
    let p = with_text(p, "fill", paint.0);
    let p = with_number(p, "fill-opacity", paint.1);
    let p = with_text(p, "stroke", stroke.0);
    let p = with_number(p, "stroke-opacity", stroke.1);
    let p = with_translate(p, dw.spec_times(2 * col + odd - 1, 0, 2), dh.spec_times(row - 1, 0, 2));
    let rhombus = ShapeView { tag: Tag::Polyline, pieces: p };
    seq![rhombus]
}

/// The whole drawing: a canvas `width` rhombuses wide and `height` half
/// rhombuses high, the background, and the rhombuses of a grid whose borders
/// wrap.
pub open spec fn diamonds_drawing<'a>(
    size: (Scalar, Scalar),
    width: int,
    height: int,
    fill: Seq<(&'a str, Scalar)>,
    stroke: (&'a str, Scalar),
    background_color: &'a str,
) -> DrawingView<'a> {
    let w = width;
    let h = height;
    let dw = size.0;
    let dh = size.1;
    DrawingView {
        width: dw.spec_times(w, 0, 1),
        height: dh.spec_times(h, 0, 2),
        shapes: seq![backdrop(background_color)] + collect(
            tiling(width, height, Wrap::Both).len(),
            |k: int| diamonds_cell(
                size,
                width,
                height,
                fill,
                stroke,
                tiling(width, height, Wrap::Both)[k],
            ),
        ),
    }
}

/// The drawing holds the background and then one shape for each drawing of
/// a cell, in the order of the tiling: `(width + 1) * (height + 1)` shapes
/// for the cells. How often the tiling draws a cell, `lemma_edge_duplication`
/// says.
pub proof fn lemma_diamonds_shapes<'a>(
    size: (Scalar, Scalar),
    width: int,
    height: int,
    fill: Seq<(&'a str, Scalar)>,
    stroke: (&'a str, Scalar),
    background_color: &'a str,
)
    requires
        1 <= width,
        1 <= height,
    ensures
        ({
            let drawing = diamonds_drawing(size, width, height, fill, stroke, background_color);
            let cells = tiling(width, height, Wrap::Both);
            &&& cells.len() == (width + 1) * (height + 1)
            &&& drawing.shapes.len() == 1 + cells.len()
            &&& forall|k: int|
                1 <= k <= cells.len() ==> #[trigger] drawing.shapes[k] == diamonds_cell(
                    size,
                    width,
                    height,
                    fill,
                    stroke,
                    cells[k - 1],
                )[0]
        }),
{
    lemma_tiling_len(width, height, Wrap::Both);
    let f = |k: int| diamonds_cell(
        size,
        width,
        height,
        fill,
        stroke,
        tiling(width, height, Wrap::Both)[k],
    );
    let n = tiling(width, height, Wrap::Both).len();
    assert forall|k: int| 0 <= k < n implies (#[trigger] f(k)).len() == 1 by {}
    lemma_collect_singles(n, f);
}

/// Rhombuses `size.0` wide and `size.1` high on a grid of `grid.0` columns
/// and `grid.1` rows. Cell `i`, counted row by row, is filled with the
/// colour `fill[i].0` at the opacity `fill[i].1`.
pub fn diamonds<'a>(
    size: (Scalar, Scalar),
    grid: (usize, usize),
    fill: &[(&'a str, Scalar)],
    stroke: (&'a str, Scalar),
    background_color: &'a str,
) -> (r: Drawing<'a>)
    requires
        size.0.within(FACTOR_LIMIT as int),
        size.1.within(FACTOR_LIMIT as int),
        grid.0 <= GRID_LIMIT,
        grid.1 <= GRID_LIMIT,
        fill@.len() == grid.0 * grid.1,
    ensures
        r@ == diamonds_drawing(size, grid.0 as int, grid.1 as int, fill@, stroke, background_color),
{
    let width = grid.0;
    let height = grid.1;
    let w = width as i64;
    let h = height as i64;
    let dw = size.0;
    let dh = size.1;
    let canvas_width = dw.times(w, 0, 1);
    let canvas_height = dh.times(h, 0, 2);
    let cells = tile(width, height, Wrap::Both);
    let mut shapes: Vec<Shape<'a>> = Vec::new();
    push_backdrop(&mut shapes, background_color);
    assert(views(shapes@) =~= seq![backdrop(background_color)] + collect(
        0,
        |k: int| diamonds_cell(
            size,
            width as int,
            height as int,
            fill@,
            stroke,
            tiling(width as int, height as int, Wrap::Both)[k],
        ),
    ));
    let mut j: usize = 0;
    while j < cells.len()
        invariant
            0 <= j <= cells@.len(),
            cells@ == tiling(width as int, height as int, Wrap::Both),
            forall|k: int|
                0 <= k < cells@.len() ==> (#[trigger] cells@[k]).x < width && cells@[k].y < height,
            width <= GRID_LIMIT,
            height <= GRID_LIMIT,
            w == width,
            h == height,
            dw == size.0,
            dh == size.1,
            dw.within(FACTOR_LIMIT as int),
            dh.within(FACTOR_LIMIT as int),
            fill@.len() == width * height,
            views(shapes@) == seq![backdrop(background_color)] + collect(
                j as nat,
                |k: int| diamonds_cell(
                    size,
                    width as int,
                    height as int,
                    fill@,
                    stroke,
                    tiling(width as int, height as int, Wrap::Both)[k],
                ),
            ),
        decreases cells@.len() - j,
    {
        let ghost before = views(shapes@);
        let e = cells[j];
        proof {
            lemma_cell_index(e.x as int, e.y as int, width as int, height as int);
        }
        let paint = fill[e.y * width + e.x];
        let col = e.col(width) as i64;
        let row = e.row(height) as i64;
        let odd = (e.y % 2) as i64;
        let mut p: Vec<Piece> = Vec::new();
        p.push(Piece::Key("points"));
        p.push(Piece::Number(dw.times(1, 0, 2)));
        p.push(Piece::Text(",0,"));
        p.push(Piece::Number(dw));
        p.push(Piece::Text(","));
        p.push(Piece::Number(dh.times(1, 0, 2)));
        p.push(Piece::Text(","));
        p.push(Piece::Number(dw.times(1, 0, 2)));
        p.push(Piece::Text(","));
        p.push(Piece::Number(dh));
        p.push(Piece::Text(",0,"));
        p.push(Piece::Number(dh.times(1, 0, 2)));
        put_text(&mut p, "fill", paint.0);
        put_number(&mut p, "fill-opacity", paint.1);
        put_text(&mut p, "stroke", stroke.0);
        put_number(&mut p, "stroke-opacity", stroke.1);
        put_translate(&mut p, dw.times(2 * col + odd - 1, 0, 2), dh.times(row - 1, 0, 2));
        push_shape(&mut shapes, Tag::Polyline, p);
        assert(views(shapes@) =~= before + diamonds_cell(
            size,
            width as int,
            height as int,
            fill@,
            stroke,
            e,
        ));
        j = j + 1;
    }
    Drawing { width: canvas_width, height: canvas_height, shapes }
}

} // verus!
