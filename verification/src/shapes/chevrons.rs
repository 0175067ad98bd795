//! Rows of chevrons.

use vstd::prelude::*;
use crate::scalar::{FACTOR_LIMIT, Scalar};
use crate::shape::{
    collect, lemma_collect_singles, push_shape, put_number, put_text, put_translate, views,
    with_number, with_text, with_translate, Drawing, DrawingView, Piece, Shape, ShapeView, Tag,
};
use crate::shapes::{backdrop, lemma_cell_index, push_backdrop, GRID_LIMIT};
use crate::tiling::{lemma_tiling_len, tile, tiling, Emission, Wrap};

verus! {

/// The chevron of one drawing of a cell: a left and a right half, each a
/// parallelogram that drops by 0.34 of the width toward the middle. Rows
/// are 0.66 of the width apart and start half a width above the canvas.
pub open spec fn chevrons_cell<'a>(
    chevron_width: Scalar,
    width: int,
    height: int,
    fill: Seq<(&'a str, Scalar)>,
    stroke: (&'a str, Scalar),
    e: Emission,
) -> Seq<ShapeView<'a>> {
    let paint = fill[e.y * width + e.x];
    let col = e.spec_col(width);
    let row = e.spec_row(height);
    let p = Seq::<Piece>::empty();
    let p = with_text(p, "fill", paint.0);
    let p = with_number(p, "fill-opacity", paint.1);
    let p = with_text(p, "stroke", stroke.0);
    let p = with_number(p, "stroke-opacity", stroke.1);
    let p = with_number(p, "stroke-width", Scalar::spec_whole(1));
    let p = with_translate(
        p,
        chevron_width.spec_times(col, 0, 1),
        chevron_width.spec_times(66 * row - 50, 0, 100),
    );
    let p = p
        .push(Piece::Child(Tag::Polyline))
        .push(Piece::Key("points"))
        .push(Piece::Text("0,0,"))
        .push(Piece::Number(chevron_width.spec_times(1, 0, 2)))
        .push(Piece::Text(","))
        .push(Piece::Number(chevron_width.spec_times(34, 0, 100)))
        .push(Piece::Text(","))
        .push(Piece::Number(chevron_width.spec_times(1, 0, 2)))
        .push(Piece::Text(","))
        .push(Piece::Number(chevron_width))
        .push(Piece::Text(",0,"))
        .push(Piece::Number(chevron_width.spec_times(66, 0, 100)))
        .push(Piece::Text(",0,0"))
        .push(Piece::Child(Tag::Polyline))
        .push(Piece::Key("points"))
        .push(Piece::Number(chevron_width.spec_times(1, 0, 2)))
        .push(Piece::Text(","))
        .push(Piece::Number(chevron_width.spec_times(34, 0, 100)))
        .push(Piece::Text(","))
        .push(Piece::Number(chevron_width))
        .push(Piece::Text(",0,"))
        .push(Piece::Number(chevron_width))
        .push(Piece::Text(","))
        .push(Piece::Number(chevron_width.spec_times(66, 0, 100)))
        .push(Piece::Text(","))
        .push(Piece::Number(chevron_width.spec_times(1, 0, 2)))
        .push(Piece::Text(","))
        .push(Piece::Number(chevron_width))
        .push(Piece::Text(","))
        .push(Piece::Number(chevron_width.spec_times(1, 0, 2)))
        .push(Piece::Text(","))
        .push(Piece::Number(chevron_width.spec_times(34, 0, 100)));
    let chevron = ShapeView { tag: Tag::Group, pieces: p };
    seq![chevron]
}

/// The whole drawing: a canvas `width` chevrons wide and 0.66 `height`
/// chevrons high, the background, and the chevrons of a grid whose borders
/// wrap.
pub open spec fn chevrons_drawing<'a>(
    chevron_width: Scalar,
    width: int,
    height: int,
    fill: Seq<(&'a str, Scalar)>,
    stroke: (&'a str, Scalar),
    background_color: &'a str,
) -> DrawingView<'a> {
    let w = width;
    let h = height;
    DrawingView {
        width: chevron_width.spec_times(w, 0, 1),
        height: chevron_width.spec_times(66 * h, 0, 100),
        shapes: seq![backdrop(background_color)] + collect(
            tiling(width, height, Wrap::Both).len(),
            |k: int| chevrons_cell(
                chevron_width,
                width,
                height,
                fill,
                stroke,
                tiling(width, height, Wrap::Both)[k],
            ),
        ),
    }
}

/// The drawing holds the background and then one shape for each drawing of
/// a cell, in the order of the tiling: `(width + 1) * (height + 1)` shapes
/// for the cells. How often the tiling draws a cell, `lemma_edge_duplication`
/// says.
pub proof fn lemma_chevrons_shapes<'a>(
    chevron_width: Scalar,
    width: int,
    height: int,
    fill: Seq<(&'a str, Scalar)>,
    stroke: (&'a str, Scalar),
    background_color: &'a str,
)
    requires
        1 <= width,
        1 <= height,
    ensures
        ({
            let drawing = chevrons_drawing(
                chevron_width,
                width,
                height,
                fill,
                stroke,
                background_color,
            );
            let cells = tiling(width, height, Wrap::Both);
            &&& cells.len() == (width + 1) * (height + 1)
            &&& drawing.shapes.len() == 1 + cells.len()
            &&& forall|k: int|
                1 <= k <= cells.len() ==> #[trigger] drawing.shapes[k] == chevrons_cell(
                    chevron_width,
                    width,
                    height,
                    fill,
                    stroke,
                    cells[k - 1],
                )[0]
        }),
{
    lemma_tiling_len(width, height, Wrap::Both);
    let f = |k: int| chevrons_cell(
        chevron_width,
        width,
        height,
        fill,
        stroke,
        tiling(width, height, Wrap::Both)[k],
    );
    let n = tiling(width, height, Wrap::Both).len();
    assert forall|k: int| 0 <= k < n implies (#[trigger] f(k)).len() == 1 by {}
    lemma_collect_singles(n, f);
}

/// Chevrons `chevron_width` wide on a grid of `grid.0` columns and `grid.1`
/// rows. Cell `i`, counted row by row, is filled with the colour
/// `fill[i].0` at the opacity `fill[i].1`.
pub fn chevrons<'a>(
    chevron_width: Scalar,
    grid: (usize, usize),
    fill: &[(&'a str, Scalar)],
    stroke: (&'a str, Scalar),
    background_color: &'a str,
) -> (r: Drawing<'a>)
    requires
        chevron_width.within(FACTOR_LIMIT as int),
        grid.0 <= GRID_LIMIT,
        grid.1 <= GRID_LIMIT,
        fill@.len() == grid.0 * grid.1,
    ensures
        r@ == chevrons_drawing(
            chevron_width,
            grid.0 as int,
            grid.1 as int,
            fill@,
            stroke,
            background_color,
        ),
{
    let width = grid.0;
    let height = grid.1;
    let w = width as i64;
    let h = height as i64;
    let canvas_width = chevron_width.times(w, 0, 1);
    let canvas_height = chevron_width.times(66 * h, 0, 100);
    let cells = tile(width, height, Wrap::Both);
    let mut shapes: Vec<Shape<'a>> = Vec::new();
    push_backdrop(&mut shapes, background_color);
    assert(views(shapes@) =~= seq![backdrop(background_color)] + collect(
        0,
        |k: int| chevrons_cell(
            chevron_width,
            width as int,
            height as int,
            fill@,
            stroke,
            tiling(width as int, height as int, Wrap::Both)[k],
        ),
    ));
    let mut j: usize = 0;
    while j < cells.len()
        invariant
            0 <= j <= cells@.len(),
            cells@ == tiling(width as int, height as int, Wrap::Both),
            forall|k: int|
                0 <= k < cells@.len() ==> (#[trigger] cells@[k]).x < width && cells@[k].y < height,
            width <= GRID_LIMIT,
            height <= GRID_LIMIT,
            w == width,
            h == height,
            chevron_width.within(FACTOR_LIMIT as int),
            fill@.len() == width * height,
            views(shapes@) == seq![backdrop(background_color)] + collect(
                j as nat,
                |k: int| chevrons_cell(
                    chevron_width,
                    width as int,
                    height as int,
                    fill@,
                    stroke,
                    tiling(width as int, height as int, Wrap::Both)[k],
                ),
            ),
        decreases cells@.len() - j,
    {
        let ghost before = views(shapes@);
        let e = cells[j];
        proof {
            lemma_cell_index(e.x as int, e.y as int, width as int, height as int);
        }
        let paint = fill[e.y * width + e.x];
        let col = e.col(width) as i64;
        let row = e.row(height) as i64;
        let mut p: Vec<Piece> = Vec::new();
        put_text(&mut p, "fill", paint.0);
        put_number(&mut p, "fill-opacity", paint.1);
        put_text(&mut p, "stroke", stroke.0);
        put_number(&mut p, "stroke-opacity", stroke.1);
        put_number(&mut p, "stroke-width", Scalar::whole(1));
        put_translate(
            &mut p,
            chevron_width.times(col, 0, 1),
            chevron_width.times(66 * row - 50, 0, 100),
        );
        p.push(Piece::Child(Tag::Polyline));
        p.push(Piece::Key("points"));
        p.push(Piece::Text("0,0,"));
        p.push(Piece::Number(chevron_width.times(1, 0, 2)));
        p.push(Piece::Text(","));
        p.push(Piece::Number(chevron_width.times(34, 0, 100)));
        p.push(Piece::Text(","));
        p.push(Piece::Number(chevron_width.times(1, 0, 2)));
        p.push(Piece::Text(","));
        p.push(Piece::Number(chevron_width));
        p.push(Piece::Text(",0,"));
        p.push(Piece::Number(chevron_width.times(66, 0, 100)));
        p.push(Piece::Text(",0,0"));
        p.push(Piece::Child(Tag::Polyline));
        p.push(Piece::Key("points"));
        p.push(Piece::Number(chevron_width.times(1, 0, 2)));
        p.push(Piece::Text(","));
        p.push(Piece::Number(chevron_width.times(34, 0, 100)));
        p.push(Piece::Text(","));
        p.push(Piece::Number(chevron_width));
        p.push(Piece::Text(",0,"));
        p.push(Piece::Number(chevron_width));
        p.push(Piece::Text(","));
        p.push(Piece::Number(chevron_width.times(66, 0, 100)));
        p.push(Piece::Text(","));
        p.push(Piece::Number(chevron_width.times(1, 0, 2)));
        p.push(Piece::Text(","));
        p.push(Piece::Number(chevron_width));
        p.push(Piece::Text(","));
        p.push(Piece::Number(chevron_width.times(1, 0, 2)));
        p.push(Piece::Text(","));
        p.push(Piece::Number(chevron_width.times(34, 0, 100)));
        push_shape(&mut shapes, Tag::Group, p);
        assert(views(shapes@) =~= before + chevrons_cell(
            chevron_width,
            width as int,
            height as int,
            fill@,
            stroke,
            e,
        ));
        j = j + 1;
    }
    Drawing { width: canvas_width, height: canvas_height, shapes }
}

} // verus!
