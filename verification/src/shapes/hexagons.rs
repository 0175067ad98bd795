//! A honeycomb of regular hexagons.

use vstd::prelude::*;
use crate::scalar::{FACTOR_LIMIT, Scalar};
use crate::shape::{
    collect, lemma_collect_singles, push_shape, put_number, put_text, put_translate, views,
    with_number, with_text, with_translate, Drawing, DrawingView, Piece, Shape, ShapeView, Tag,
};
use crate::shapes::{backdrop, lemma_cell_index, push_backdrop, GRID_LIMIT};
use crate::tiling::{lemma_tiling_len, tile, tiling, Emission, Wrap};

verus! {

/// The hexagon of one drawing of a cell, two sides wide and `sqrt(3)` sides
/// high. Columns are one and a half sides apart and rows one hexagon
/// height; a cell of an odd column stands half a height lower, also where
/// it is drawn a second time.
pub open spec fn hexagons_cell<'a>(
    side: Scalar,
    width: int,
    height: int,
    fill: Seq<(&'a str, Scalar)>,
    stroke: (&'a str, Scalar),
    e: Emission,
) -> Seq<ShapeView<'a>> {
    let paint = fill[e.y * width + e.x];
    let col = e.spec_col(width);
    let row = e.spec_row(height);
    let odd = (e.x % 2) as int;
    let p = Seq::<Piece>::empty();
    let p = p
        .push(Piece::Key("points"))
        .push(Piece::Text("0,"))
        .push(Piece::Number(side.spec_times(0, 1, 2)))
        .push(Piece::Text(","))
        .push(Piece::Number(side.spec_times(1, 0, 2)))
        .push(Piece::Text(",0,"))
        .push(Piece::Number(side.spec_times(3, 0, 2)))
        .push(Piece::Text(",0,"))
        .push(Piece::Number(side.spec_times(2, 0, 1)))
        .push(Piece::Text(","))
        .push(Piece::Number(side.spec_times(0, 1, 2)))
        .push(Piece::Text(","))
        .push(Piece::Number(side.spec_times(3, 0, 2)))
        .push(Piece::Text(","))
        .push(Piece::Number(side.spec_times(0, 1, 1)))
        .push(Piece::Text(","))
        .push(Piece::Number(side.spec_times(1, 0, 2)))
        .push(Piece::Text(","))
        .push(Piece::Number(side.spec_times(0, 1, 1)))
        .push(Piece::Text(",0,"))
        .push(Piece::Number(side.spec_times(0, 1, 2)));
    let p = with_text(p, "fill", paint.0);
    let p = with_number(p, "fill-opacity", paint.1);
    let p = with_text(p, "stroke", stroke.0);
    let p = with_number(p, "stroke-opacity", stroke.1);
    let p = with_translate(
        p,
        side.spec_times(3 * col - 2, 0, 2),
        side.spec_times(0, 2 * row + odd - 1, 2),
    );
    let hexagon = ShapeView { tag: Tag::Polyline, pieces: p };
    seq![hexagon]
}

/// The whole drawing: a canvas one and a half sides wide for each column
/// and one hexagon high for each row, the background, and the hexagons of a
/// grid whose borders wrap.
pub open spec fn hexagons_drawing<'a>(
    side: Scalar,
    width: int,
    height: int,
    fill: Seq<(&'a str, Scalar)>,
    stroke: (&'a str, Scalar),
    background_color: &'a str,
) -> DrawingView<'a> {
    let w = width;
    let h = height;
    DrawingView {
        width: side.spec_times(3 * w, 0, 2),
        height: side.spec_times(0, h, 1),
        shapes: seq![backdrop(background_color)] + collect(
            tiling(width, height, Wrap::Both).len(),
            |k: int| hexagons_cell(
                side,
                width,
                height,
                fill,
                stroke,
                tiling(width, height, Wrap::Both)[k],
            ),
        ),
    }
}

/// The drawing holds the background and then one shape for each drawing of
/// a cell, in the order of the tiling: `(width + 1) * (height + 1)` shapes
/// for the cells. How often the tiling draws a cell, `lemma_edge_duplication`
/// says.
pub proof fn lemma_hexagons_shapes<'a>(
    side: Scalar,
    width: int,
    height: int,
    fill: Seq<(&'a str, Scalar)>,
    stroke: (&'a str, Scalar),
    background_color: &'a str,
)
    requires
        1 <= width,
        1 <= height,
    ensures
        ({
            let drawing = hexagons_drawing(side, width, height, fill, stroke, background_color);
            let cells = tiling(width, height, Wrap::Both);
            &&& cells.len() == (width + 1) * (height + 1)
            &&& drawing.shapes.len() == 1 + cells.len()
            &&& forall|k: int|
                1 <= k <= cells.len() ==> #[trigger] drawing.shapes[k] == hexagons_cell(
                    side,
                    width,
                    height,
                    fill,
                    stroke,
                    cells[k - 1],
                )[0]
        }),
{
    lemma_tiling_len(width, height, Wrap::Both);
    let f = |k: int| hexagons_cell(
        side,
        width,
        height,
        fill,
        stroke,
        tiling(width, height, Wrap::Both)[k],
    );
    let n = tiling(width, height, Wrap::Both).len();
    assert forall|k: int| 0 <= k < n implies (#[trigger] f(k)).len() == 1 by {}
    lemma_collect_singles(n, f);
}

/// Hexagons with the side `side` on a grid of `grid.0` columns and `grid.1`
/// rows. Cell `i`, counted row by row, is filled with the colour
/// `fill[i].0` at the opacity `fill[i].1`.
pub fn hexagons<'a>(
    side: Scalar,
    grid: (usize, usize),
    fill: &[(&'a str, Scalar)],
    stroke: (&'a str, Scalar),
    background_color: &'a str,
) -> (r: Drawing<'a>)
    requires
        side.within(FACTOR_LIMIT as int),
        grid.0 <= GRID_LIMIT,
        grid.1 <= GRID_LIMIT,
        fill@.len() == grid.0 * grid.1,
    ensures
        r@ == hexagons_drawing(side, grid.0 as int, grid.1 as int, fill@, stroke, background_color),
{
    let width = grid.0;
    let height = grid.1;
    let w = width as i64;
    let h = height as i64;
    let canvas_width = side.times(3 * w, 0, 2);
    let canvas_height = side.times(0, h, 1);
    let cells = tile(width, height, Wrap::Both);
    let mut shapes: Vec<Shape<'a>> = Vec::new();
    push_backdrop(&mut shapes, background_color);
    assert(views(shapes@) =~= seq![backdrop(background_color)] + collect(
        0,
        |k: int| hexagons_cell(
            side,
            width as int,
            height as int,
            fill@,
            stroke,
            tiling(width as int, height as int, Wrap::Both)[k],
        ),
    ));
    let mut j: usize = 0;
    while j < cells.len()
        invariant
            0 <= j <= cells@.len(),
            cells@ == tiling(width as int, height as int, Wrap::Both),
            forall|k: int|
                0 <= k < cells@.len() ==> (#[trigger] cells@[k]).x < width && cells@[k].y < height,
            width <= GRID_LIMIT,
            height <= GRID_LIMIT,
            w == width,
            h == height,
            side.within(FACTOR_LIMIT as int),
            fill@.len() == width * height,
            views(shapes@) == seq![backdrop(background_color)] + collect(
                j as nat,
                |k: int| hexagons_cell(
                    side,
                    width as int,
                    height as int,
                    fill@,
                    stroke,
                    tiling(width as int, height as int, Wrap::Both)[k],
                ),
            ),
        decreases cells@.len() - j,
    {
        let ghost before = views(shapes@);
        let e = cells[j];
        proof {
            lemma_cell_index(e.x as int, e.y as int, width as int, height as int);
        }
        let paint = fill[e.y * width + e.x];
        let col = e.col(width) as i64;
        let row = e.row(height) as i64;
        let odd = (e.x % 2) as i64;
        let mut p: Vec<Piece> = Vec::new();
        p.push(Piece::Key("points"));
        p.push(Piece::Text("0,"));
        p.push(Piece::Number(side.times(0, 1, 2)));
        p.push(Piece::Text(","));
        p.push(Piece::Number(side.times(1, 0, 2)));
        p.push(Piece::Text(",0,"));
        p.push(Piece::Number(side.times(3, 0, 2)));
        p.push(Piece::Text(",0,"));
        p.push(Piece::Number(side.times(2, 0, 1)));
        p.push(Piece::Text(","));
        p.push(Piece::Number(side.times(0, 1, 2)));
        p.push(Piece::Text(","));
        p.push(Piece::Number(side.times(3, 0, 2)));
        p.push(Piece::Text(","));
        p.push(Piece::Number(side.times(0, 1, 1)));
        p.push(Piece::Text(","));
        p.push(Piece::Number(side.times(1, 0, 2)));
        p.push(Piece::Text(","));
        p.push(Piece::Number(side.times(0, 1, 1)));
        p.push(Piece::Text(",0,"));
        p.push(Piece::Number(side.times(0, 1, 2)));
        put_text(&mut p, "fill", paint.0);
        put_number(&mut p, "fill-opacity", paint.1);
        put_text(&mut p, "stroke", stroke.0);
        put_number(&mut p, "stroke-opacity", stroke.1);
        put_translate(&mut p, side.times(3 * col - 2, 0, 2), side.times(0, 2 * row + odd - 1, 2));
        push_shape(&mut shapes, Tag::Polyline, p);
        assert(views(shapes@) =~= before + hexagons_cell(
            side,
            width as int,
            height as int,
            fill@,
            stroke,
            e,
        ));
        j = j + 1;
    }
    Drawing { width: canvas_width, height: canvas_height, shapes }
}

} // verus!
