//! Rows of equilateral triangles, alternately pointing up and down.

use vstd::prelude::*;
use crate::scalar::{FACTOR_LIMIT, Scalar};
use crate::shape::{
    collect, lemma_collect_singles, push_shape, put_number, put_text, views, with_number,
    with_text, Drawing, DrawingView, Piece, Shape, ShapeView, Tag,
};
use crate::shapes::{backdrop, lemma_cell_index, push_backdrop, GRID_LIMIT};
use crate::tiling::{lemma_tiling_len, tile, tiling, Emission, Wrap};

verus! {

/// The triangle of one drawing of a cell, `sqrt(3) / 2` sides high. Columns
/// are half a side apart and start half a side left of the canvas; rows
/// are one triangle height apart. Where column and row are both even or
/// both odd the triangle is turned upside down about its centre, also
/// where it is drawn a second time.
pub open spec fn triangles_cell<'a>(
    side: Scalar,
    width: int,
    height: int,
    fill: Seq<(&'a str, Scalar)>,
    stroke: (&'a str, Scalar),
    e: Emission,
) -> Seq<ShapeView<'a>> {
    let paint = fill[e.y * width + e.x];
    let col = e.spec_col(width);
    let row = e.spec_row(height);
    let turn = if e.x % 2 == e.y % 2 { 180int } else { 0int };
    let p = Seq::<Piece>::empty();
    let p = p
        .push(Piece::Key("points"))
        .push(Piece::Number(side.spec_times(1, 0, 2)))
        .push(Piece::Text(",0,"))
        .push(Piece::Number(side))
        .push(Piece::Text(","))
        .push(Piece::Number(side.spec_times(0, 1, 2)))
        .push(Piece::Text(",0,"))
        .push(Piece::Number(side.spec_times(0, 1, 2)))
        .push(Piece::Text(","))
        .push(Piece::Number(side.spec_times(1, 0, 2)))
        .push(Piece::Text(",0"));
    let p = with_text(p, "fill", paint.0);
    let p = with_number(p, "fill-opacity", paint.1);
    let p = with_text(p, "stroke", stroke.0);
    let p = with_number(p, "stroke-opacity", stroke.1);
    let p = p
        .push(Piece::Key("transform"))
        .push(Piece::Text("translate("))
        .push(Piece::Number(side.spec_times(col - 1, 0, 2)))
        .push(Piece::Text(", "))
        .push(Piece::Number(side.spec_times(0, row, 2)))
        .push(Piece::Text(") rotate("))
        .push(Piece::Number(Scalar::spec_whole(turn)))
        .push(Piece::Text(", "))
        .push(Piece::Number(side.spec_times(1, 0, 2)))
        .push(Piece::Text(", "))
        .push(Piece::Number(side.spec_times(0, 1, 4)))
        .push(Piece::Text(")"));
    let triangle = ShapeView { tag: Tag::Polyline, pieces: p };
    seq![triangle]
}

/// The whole drawing: a canvas half a side wide for each column and one
/// triangle high for each row, the background, and the triangles of a grid
/// whose borders wrap.
pub open spec fn triangles_drawing<'a>(
    side: Scalar,
    width: int,
    height: int,
    fill: Seq<(&'a str, Scalar)>,
    stroke: (&'a str, Scalar),
    background_color: &'a str,
) -> DrawingView<'a> {
    let w = width;
    let h = height;
    DrawingView {
        width: side.spec_times(w, 0, 2),
        height: side.spec_times(0, h, 2),
        shapes: seq![backdrop(background_color)] + collect(
            tiling(width, height, Wrap::Both).len(),
            |k: int| triangles_cell(
                side,
                width,
                height,
                fill,
                stroke,
                tiling(width, height, Wrap::Both)[k],
            ),
        ),
    }
}

/// The drawing holds the background and then one shape for each drawing of
/// a cell, in the order of the tiling: `(width + 1) * (height + 1)` shapes
/// for the cells. How often the tiling draws a cell, `lemma_edge_duplication`
/// says.
pub proof fn lemma_triangles_shapes<'a>(
    side: Scalar,
    width: int,
    height: int,
    fill: Seq<(&'a str, Scalar)>,
    stroke: (&'a str, Scalar),
    background_color: &'a str,
)
    requires
        1 <= width,
        1 <= height,
    ensures
        ({
            let drawing = triangles_drawing(side, width, height, fill, stroke, background_color);
            let cells = tiling(width, height, Wrap::Both);
            &&& cells.len() == (width + 1) * (height + 1)
            &&& drawing.shapes.len() == 1 + cells.len()
            &&& forall|k: int|
                1 <= k <= cells.len() ==> #[trigger] drawing.shapes[k] == triangles_cell(
                    side,
                    width,
                    height,
                    fill,
                    stroke,
                    cells[k - 1],
                )[0]
        }),
{
    lemma_tiling_len(width, height, Wrap::Both);
    let f = |k: int| triangles_cell(
        side,
        width,
        height,
        fill,
        stroke,
        tiling(width, height, Wrap::Both)[k],
    );
    let n = tiling(width, height, Wrap::Both).len();
    assert forall|k: int| 0 <= k < n implies (#[trigger] f(k)).len() == 1 by {}
    lemma_collect_singles(n, f);
}

/// Triangles with the side `side` on a grid of `grid.0` columns and
/// `grid.1` rows. Cell `i`, counted row by row, is filled with the colour
/// `fill[i].0` at the opacity `fill[i].1`.
pub fn triangles<'a>(
    side: Scalar,
    grid: (usize, usize),
    fill: &[(&'a str, Scalar)],
    stroke: (&'a str, Scalar),
    background_color: &'a str,
) -> (r: Drawing<'a>)
    requires
        side.within(FACTOR_LIMIT as int),
        grid.0 <= GRID_LIMIT,
        grid.1 <= GRID_LIMIT,
        fill@.len() == grid.0 * grid.1,
    ensures
        r@ == triangles_drawing(
            side,
            grid.0 as int,
            grid.1 as int,
            fill@,
            stroke,
            background_color,
        ),
{
    let width = grid.0;
    let height = grid.1;
    let w = width as i64;
    let h = height as i64;
    let canvas_width = side.times(w, 0, 2);
    let canvas_height = side.times(0, h, 2);
    let cells = tile(width, height, Wrap::Both);
    let mut shapes: Vec<Shape<'a>> = Vec::new();
    push_backdrop(&mut shapes, background_color);
    assert(views(shapes@) =~= seq![backdrop(background_color)] + collect(
        0,
        |k: int| triangles_cell(
            side,
            width as int,
            height as int,
            fill@,
            stroke,
            tiling(width as int, height as int, Wrap::Both)[k],
        ),
    ));
    let mut j: usize = 0;
    while j < cells.len()
        invariant
            0 <= j <= cells@.len(),
            cells@ == tiling(width as int, height as int, Wrap::Both),
            forall|k: int|
                0 <= k < cells@.len() ==> (#[trigger] cells@[k]).x < width && cells@[k].y < height,
            width <= GRID_LIMIT,
            height <= GRID_LIMIT,
            w == width,
            h == height,
            side.within(FACTOR_LIMIT as int),
            fill@.len() == width * height,
            views(shapes@) == seq![backdrop(background_color)] + collect(
                j as nat,
                |k: int| triangles_cell(
                    side,
                    width as int,
                    height as int,
                    fill@,
                    stroke,
                    tiling(width as int, height as int, Wrap::Both)[k],
                ),
            ),
        decreases cells@.len() - j,
    {
        let ghost before = views(shapes@);
        let e = cells[j];
        proof {
            lemma_cell_index(e.x as int, e.y as int, width as int, height as int);
        }
        let paint = fill[e.y * width + e.x];
        let col = e.col(width) as i64;
        let row = e.row(height) as i64;
        let turn = if e.x % 2 == e.y % 2 { 180i64 } else { 0i64 };
        let mut p: Vec<Piece> = Vec::new();
        p.push(Piece::Key("points"));
        p.push(Piece::Number(side.times(1, 0, 2)));
        p.push(Piece::Text(",0,"));
        p.push(Piece::Number(side));
        p.push(Piece::Text(","));
        p.push(Piece::Number(side.times(0, 1, 2)));
        p.push(Piece::Text(",0,"));
        p.push(Piece::Number(side.times(0, 1, 2)));
        p.push(Piece::Text(","));
        p.push(Piece::Number(side.times(1, 0, 2)));
        p.push(Piece::Text(",0"));
        put_text(&mut p, "fill", paint.0);
        put_number(&mut p, "fill-opacity", paint.1);
        put_text(&mut p, "stroke", stroke.0);
        put_number(&mut p, "stroke-opacity", stroke.1);
        p.push(Piece::Key("transform"));
        p.push(Piece::Text("translate("));
        p.push(Piece::Number(side.times(col - 1, 0, 2)));
        p.push(Piece::Text(", "));
        p.push(Piece::Number(side.times(0, row, 2)));
        p.push(Piece::Text(") rotate("));
        p.push(Piece::Number(Scalar::whole(turn)));
        p.push(Piece::Text(", "));
        p.push(Piece::Number(side.times(1, 0, 2)));
        p.push(Piece::Text(", "));
        p.push(Piece::Number(side.times(0, 1, 4)));
        p.push(Piece::Text(")"));
        push_shape(&mut shapes, Tag::Polyline, p);
        assert(views(shapes@) =~= before + triangles_cell(
            side,
            width as int,
            height as int,
            fill@,
            stroke,
            e,
        ));
        j = j + 1;
    }
    Drawing { width: canvas_width, height: canvas_height, shapes }
}

} // verus!
