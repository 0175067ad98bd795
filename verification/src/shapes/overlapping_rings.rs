//! Rings that overlap their neighbours.

use vstd::prelude::*;
use crate::scalar::{FACTOR_LIMIT, Scalar};
use crate::shape::{
    collect, lemma_collect_singles, push_shape, put_number, put_text, views, with_number,
    with_text, Drawing, DrawingView, Piece, Shape, ShapeView, Tag,
};
use crate::shapes::{backdrop, lemma_cell_index, push_backdrop, GRID_LIMIT};
use crate::tiling::{lemma_tiling_len, tile, tiling, Emission, Wrap};

verus! {

/// The ring of one drawing of a cell, centred on the corner of its cell;
/// cells are one radius wide and high. The ring itself has seven eighths of
/// the radius, and its stroke is a quarter of the radius wide.
pub open spec fn overlapping_rings_cell<'a>(
    radius: Scalar,
    width: int,
    height: int,
    stroke: Seq<(&'a str, Scalar)>,
    e: Emission,
) -> Seq<ShapeView<'a>> {
    let paint = stroke[e.y * width + e.x];
    let col = e.spec_col(width);
    let row = e.spec_row(height);
    let p = Seq::<Piece>::empty();
    let p = with_number(p, "cx", radius.spec_times(col, 0, 1));
    let p = with_number(p, "cy", radius.spec_times(row, 0, 1));
    let p = with_number(p, "r", radius.spec_times(7, 0, 8));
    let p = with_text(p, "fill", "none");
    let p = with_text(p, "stroke", paint.0);
    let p = with_number(p, "stroke-opacity", paint.1);
    let p = with_number(p, "stroke-width", radius.spec_times(1, 0, 4));
    let ring = ShapeView { tag: Tag::Circle, pieces: p };
    seq![ring]
}

/// The whole drawing: a canvas one radius wide for each column and one
/// radius high for each row, the background, and the rings of a grid whose
/// borders wrap.
pub open spec fn overlapping_rings_drawing<'a>(
    radius: Scalar,
    width: int,
    height: int,
    stroke: Seq<(&'a str, Scalar)>,
    background_color: &'a str,
) -> DrawingView<'a> {
    let w = width;
    let h = height;
    DrawingView {
        width: radius.spec_times(w, 0, 1),
        height: radius.spec_times(h, 0, 1),
        shapes: seq![backdrop(background_color)] + collect(
            tiling(width, height, Wrap::Both).len(),
            |k: int| overlapping_rings_cell(
                radius,
                width,
                height,
                stroke,
                tiling(width, height, Wrap::Both)[k],
            ),
        ),
    }
}

/// The drawing holds the background and then one shape for each drawing of
/// a cell, in the order of the tiling: `(width + 1) * (height + 1)` shapes
/// for the cells. How often the tiling draws a cell, `lemma_edge_duplication`
/// says.
pub proof fn lemma_overlapping_rings_shapes<'a>(
    radius: Scalar,
    width: int,
    height: int,
    stroke: Seq<(&'a str, Scalar)>,
    background_color: &'a str,
)
    requires
        1 <= width,
        1 <= height,
    ensures
        ({
            let drawing = overlapping_rings_drawing(
                radius,
                width,
                height,
                stroke,
                background_color,
            );
            let cells = tiling(width, height, Wrap::Both);
            &&& cells.len() == (width + 1) * (height + 1)
            &&& drawing.shapes.len() == 1 + cells.len()
            &&& forall|k: int|
                1 <= k <= cells.len() ==> #[trigger] drawing.shapes[k] == overlapping_rings_cell(
                    radius,
                    width,
                    height,
                    stroke,
                    cells[k - 1],
                )[0]
        }),
{
    lemma_tiling_len(width, height, Wrap::Both);
    let f = |k: int| overlapping_rings_cell(
        radius,
        width,
        height,
        stroke,
        tiling(width, height, Wrap::Both)[k],
    );
    let n = tiling(width, height, Wrap::Both).len();
    assert forall|k: int| 0 <= k < n implies (#[trigger] f(k)).len() == 1 by {}
    lemma_collect_singles(n, f);
}

/// Rings with the radius `radius` on a grid of `grid.0` columns and
/// `grid.1` rows. Cell `i`, counted row by row, is stroked with the colour
/// `stroke[i].0` at the opacity `stroke[i].1`.
pub fn overlapping_rings<'a>(
    radius: Scalar,
    grid: (usize, usize),
    stroke: &[(&'a str, Scalar)],
    background_color: &'a str,
) -> (r: Drawing<'a>)
    requires
        radius.within(FACTOR_LIMIT as int),
        grid.0 <= GRID_LIMIT,
        grid.1 <= GRID_LIMIT,
        stroke@.len() == grid.0 * grid.1,
    ensures
        r@ == overlapping_rings_drawing(
            radius,
            grid.0 as int,
            grid.1 as int,
            stroke@,
            background_color,
        ),
{
    let width = grid.0;
    let height = grid.1;
    let w = width as i64;
    let h = height as i64;
    let canvas_width = radius.times(w, 0, 1);
    let canvas_height = radius.times(h, 0, 1);
    let cells = tile(width, height, Wrap::Both);
    let mut shapes: Vec<Shape<'a>> = Vec::new();
    push_backdrop(&mut shapes, background_color);
    assert(views(shapes@) =~= seq![backdrop(background_color)] + collect(
        0,
        |k: int| overlapping_rings_cell(
            radius,
            width as int,
            height as int,
            stroke@,
            tiling(width as int, height as int, Wrap::Both)[k],
        ),
    ));
    let mut j: usize = 0;
    while j < cells.len()
        invariant
            0 <= j <= cells@.len(),
            cells@ == tiling(width as int, height as int, Wrap::Both),
            forall|k: int|
                0 <= k < cells@.len() ==> (#[trigger] cells@[k]).x < width && cells@[k].y < height,
            width <= GRID_LIMIT,
            height <= GRID_LIMIT,
            w == width,
            h == height,
            radius.within(FACTOR_LIMIT as int),
            stroke@.len() == width * height,
            views(shapes@) == seq![backdrop(background_color)] + collect(
                j as nat,
                |k: int| overlapping_rings_cell(
                    radius,
                    width as int,
                    height as int,
                    stroke@,
                    tiling(width as int, height as int, Wrap::Both)[k],
                ),
            ),
        decreases cells@.len() - j,
    {
        let ghost before = views(shapes@);
        let e = cells[j];
        proof {
            lemma_cell_index(e.x as int, e.y as int, width as int, height as int);
        }
        let paint = stroke[e.y * width + e.x];
        let col = e.col(width) as i64;
        let row = e.row(height) as i64;
        let mut p: Vec<Piece> = Vec::new();
        put_number(&mut p, "cx", radius.times(col, 0, 1));
        put_number(&mut p, "cy", radius.times(row, 0, 1));
        put_number(&mut p, "r", radius.times(7, 0, 8));
        put_text(&mut p, "fill", "none");
        put_text(&mut p, "stroke", paint.0);
        put_number(&mut p, "stroke-opacity", paint.1);
        put_number(&mut p, "stroke-width", radius.times(1, 0, 4));
        push_shape(&mut shapes, Tag::Circle, p);
        assert(views(shapes@) =~= before + overlapping_rings_cell(
            radius,
            width as int,
            height as int,
            stroke@,
            e,
        ));
        j = j + 1;
    }
    Drawing { width: canvas_width, height: canvas_height, shapes }
}

} // verus!
