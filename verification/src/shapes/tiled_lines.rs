//! A grid of diagonal lines, each leaning left or right.

use vstd::prelude::*;
use crate::scalar::{FACTOR_LIMIT, Scalar};
use crate::shape::{
    collect, push_shape, put_number, put_text, views, with_number, with_text, Drawing,
    DrawingView, Piece, Shape, ShapeView, Tag,
};
use crate::shapes::{backdrop, lemma_cell_index, push_backdrop, GRID_LIMIT};
use crate::tiling::{tile, tiling, Emission, Wrap};

verus! {

/// The line of a cell: from the upper left to the lower right corner of
/// the cell where the cell leans right, from the upper right to the lower
/// left corner where it leans left.
pub open spec fn tiled_lines_cell<'a>(
    step_size: int,
    width: int,
    height: int,
    ltr: Seq<bool>,
    stroke: Seq<(&'a str, Scalar)>,
    stroke_width: Scalar,
    e: Emission,
) -> Seq<ShapeView<'a>> {
    let step = Scalar::spec_whole(step_size);
    let leans_right = ltr[e.y * height + e.x];
    let paint = stroke[e.y * height + e.x];
    let x = e.y as int;
    let y = e.x as int;
    if leans_right {
        let p = Seq::<Piece>::empty();
        let p = p
            .push(Piece::Key("d"))
            .push(Piece::Text("M "))
            .push(Piece::Number(step.spec_times(x, 0, 1)))
            .push(Piece::Text(" "))
            .push(Piece::Number(step.spec_times(y, 0, 1)))
            .push(Piece::Text(" L "))
            .push(Piece::Number(step.spec_times(x + 1, 0, 1)))
            .push(Piece::Text(" "))
            .push(Piece::Number(step.spec_times(y + 1, 0, 1)));
        let p = with_text(p, "fill", "none");
        let p = with_text(p, "stroke", paint.0);
        let p = with_number(p, "stroke-opacity", paint.1);
        let p = with_number(p, "stroke-width", stroke_width);
        let p = with_text(p, "stroke-linecap", "square");
        let falling = ShapeView { tag: Tag::Path, pieces: p };
        seq![falling]
    } else {
        let p = Seq::<Piece>::empty();
        let p = p
            .push(Piece::Key("d"))
            .push(Piece::Text("M "))
            .push(Piece::Number(step.spec_times(x + 1, 0, 1)))
            .push(Piece::Text(" "))
            .push(Piece::Number(step.spec_times(y, 0, 1)))
            .push(Piece::Text(" L "))
            .push(Piece::Number(step.spec_times(x, 0, 1)))
            .push(Piece::Text(" "))
            .push(Piece::Number(step.spec_times(y + 1, 0, 1)));
        let p = with_text(p, "fill", "none");
        let p = with_text(p, "stroke", paint.0);
        let p = with_number(p, "stroke-opacity", paint.1);
        let p = with_number(p, "stroke-width", stroke_width);
        let p = with_text(p, "stroke-linecap", "square");
        let rising = ShapeView { tag: Tag::Path, pieces: p };
        seq![rising]
    }
}

/// The whole drawing: a canvas one step wide for each column and one step
/// high for each row, the background, and the lines of the cells, column by
/// column.
pub open spec fn tiled_lines_drawing<'a>(
    step_size: int,
    width: int,
    height: int,
    ltr: Seq<bool>,
    stroke: Seq<(&'a str, Scalar)>,
    stroke_width: Scalar,
    background_color: &'a str,
) -> DrawingView<'a> {
    let w = width;
    let h = height;
    let step = Scalar::spec_whole(step_size);
    DrawingView {
        width: step.spec_times(w, 0, 1),
        height: step.spec_times(h, 0, 1),
        shapes: seq![backdrop(background_color)] + collect(
            tiling(height, width, Wrap::Neither).len(),
            |k: int| tiled_lines_cell(
                step_size,
                width,
                height,
                ltr,
                stroke,
                stroke_width,
                tiling(height, width, Wrap::Neither)[k],
            ),
        ),
    }
}

/// Diagonal lines in cells `step_size` wide and high on a grid of `grid.0`
/// columns and `grid.1` rows. Cell `i`, counted column by column, leans
/// right where `ltr[i]` holds and is stroked with the colour `stroke[i].0`
/// at the opacity `stroke[i].1`.
pub fn tiled_lines<'a>(
    step_size: usize,
    grid: (usize, usize),
    ltr: &[bool],
    stroke: &[(&'a str, Scalar)],
    stroke_width: Scalar,
    background_color: &'a str,
) -> (r: Drawing<'a>)
    requires
        step_size <= FACTOR_LIMIT,
        grid.0 <= GRID_LIMIT,
        grid.1 <= GRID_LIMIT,
        ltr@.len() == grid.0 * grid.1,
        stroke@.len() == grid.0 * grid.1,
    ensures
        r@ == tiled_lines_drawing(
            step_size as int,
            grid.0 as int,
            grid.1 as int,
            ltr@,
            stroke@,
            stroke_width,
            background_color,
        ),
{
    let width = grid.0;
    let height = grid.1;
    let w = width as i64;
    let h = height as i64;
    let step = Scalar::whole(step_size as i64);
    let canvas_width = step.times(w, 0, 1);
    let canvas_height = step.times(h, 0, 1);
    let cells = tile(height, width, Wrap::Neither);
    let mut shapes: Vec<Shape<'a>> = Vec::new();
    push_backdrop(&mut shapes, background_color);
    assert(views(shapes@) =~= seq![backdrop(background_color)] + collect(
        0,
        |k: int| tiled_lines_cell(
            step_size as int,
            width as int,
            height as int,
            ltr@,
            stroke@,
            stroke_width,
            tiling(height as int, width as int, Wrap::Neither)[k],
        ),
    ));
    let mut j: usize = 0;
    while j < cells.len()
        invariant
            0 <= j <= cells@.len(),
            cells@ == tiling(height as int, width as int, Wrap::Neither),
            forall|k: int|
                0 <= k < cells@.len() ==> (#[trigger] cells@[k]).x < height && cells@[k].y < width,
            width <= GRID_LIMIT,
            height <= GRID_LIMIT,
            w == width,
            h == height,
            step_size <= FACTOR_LIMIT,
            step == Scalar::spec_whole(step_size as int),
            ltr@.len() == width * height,
            stroke@.len() == width * height,
            views(shapes@) == seq![backdrop(background_color)] + collect(
                j as nat,
                |k: int| tiled_lines_cell(
                    step_size as int,
                    width as int,
                    height as int,
                    ltr@,
                    stroke@,
                    stroke_width,
                    tiling(height as int, width as int, Wrap::Neither)[k],
                ),
            ),
        decreases cells@.len() - j,
    {
        let ghost before = views(shapes@);
        let e = cells[j];
        proof {
            lemma_cell_index(e.x as int, e.y as int, height as int, width as int);
            assert(height * width == width * height) by (nonlinear_arith);
        }
        let leans_right = ltr[e.y * height + e.x];
        let paint = stroke[e.y * height + e.x];
        let x = e.y as i64;
        let y = e.x as i64;
        if leans_right {
            let mut p: Vec<Piece> = Vec::new();
            p.push(Piece::Key("d"));
            p.push(Piece::Text("M "));
            p.push(Piece::Number(step.times(x, 0, 1)));
            p.push(Piece::Text(" "));
            p.push(Piece::Number(step.times(y, 0, 1)));
            p.push(Piece::Text(" L "));
            p.push(Piece::Number(step.times(x + 1, 0, 1)));
            p.push(Piece::Text(" "));
            p.push(Piece::Number(step.times(y + 1, 0, 1)));
            put_text(&mut p, "fill", "none");
            put_text(&mut p, "stroke", paint.0);
            put_number(&mut p, "stroke-opacity", paint.1);
            put_number(&mut p, "stroke-width", stroke_width);
            put_text(&mut p, "stroke-linecap", "square");
            push_shape(&mut shapes, Tag::Path, p);
        } else {
            let mut p: Vec<Piece> = Vec::new();
            p.push(Piece::Key("d"));
            p.push(Piece::Text("M "));
            p.push(Piece::Number(step.times(x + 1, 0, 1)));
            p.push(Piece::Text(" "));
            p.push(Piece::Number(step.times(y, 0, 1)));
            p.push(Piece::Text(" L "));
            p.push(Piece::Number(step.times(x, 0, 1)));
            p.push(Piece::Text(" "));
            p.push(Piece::Number(step.times(y + 1, 0, 1)));
            put_text(&mut p, "fill", "none");
            put_text(&mut p, "stroke", paint.0);
            put_number(&mut p, "stroke-opacity", paint.1);
            put_number(&mut p, "stroke-width", stroke_width);
            put_text(&mut p, "stroke-linecap", "square");
            push_shape(&mut shapes, Tag::Path, p);
        }
        assert(views(shapes@) =~= before + tiled_lines_cell(
            step_size as int,
            width as int,
            height as int,
            ltr@,
            stroke@,
            stroke_width,
            e,
        ));
        j = j + 1;
    }
    Drawing { width: canvas_width, height: canvas_height, shapes }
}

} // verus!
