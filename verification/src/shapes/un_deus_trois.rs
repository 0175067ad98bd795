//! Three bands of cells with one, two and three turned lines each.

use vstd::prelude::*;
use crate::scalar::{FACTOR_LIMIT, Scalar};
use crate::shape::{
    collect, push_shape, put_number, put_text, views, with_number, with_text, Drawing,
    DrawingView, Piece, Shape, ShapeView, Tag,
};
use crate::shapes::{backdrop, lemma_cell_index, push_backdrop, GRID_LIMIT};
use crate::tiling::{tile, tiling, Emission, Wrap};

verus! {

/// The lines of a cell, turned about the middle of the cell by the angle
/// of the cell. A cell of the upper band has one upright line through its
/// middle, a cell of the middle band two, at 0.2 and 0.8 of its width, and
/// a cell of the lower band three, at 0.1, 0.5 and 0.9.
pub open spec fn un_deus_trois_cell<'a>(
    step_size: Scalar,
    width: int,
    height: int,
    stroke: Seq<(&'a str, Scalar, Scalar)>,
    rotation: Seq<Scalar>,
    e: Emission,
) -> Seq<ShapeView<'a>> {
    let paint = stroke[e.y * width + e.x];
    let angle = rotation[e.y * width + e.x];
    let x = e.x as int;
    let y = e.y as int;
    if e.y < height {
        let p = Seq::<Piece>::empty();
        let p = p
            .push(Piece::Key("d"))
            .push(Piece::Text("M "))
            .push(Piece::Number(step_size.spec_times(2 * x + 1, 0, 2)))
            .push(Piece::Text(" "))
            .push(Piece::Number(step_size.spec_times(y, 0, 1)))
            .push(Piece::Text(" L "))
            .push(Piece::Number(step_size.spec_times(2 * x + 1, 0, 2)))
            .push(Piece::Text(" "))
            .push(Piece::Number(step_size.spec_times(y + 1, 0, 1)));
        let p = with_text(p, "stroke", paint.0);
        let p = with_number(p, "stroke-width", paint.1);
        let p = with_number(p, "stroke-opacity", paint.2);
        let p = p
            .push(Piece::Key("transform"))
            .push(Piece::Text("rotate("))
            .push(Piece::Number(angle))
            .push(Piece::Text(" "))
            .push(Piece::Number(step_size.spec_times(2 * x + 1, 0, 2)))
            .push(Piece::Text(" "))
            .push(Piece::Number(step_size.spec_times(2 * y + 1, 0, 2)))
            .push(Piece::Text(")"));
        let un = ShapeView { tag: Tag::Path, pieces: p };
        seq![un]
    } else if e.y < 2 * height {
        let p = Seq::<Piece>::empty();
        let p = p
            .push(Piece::Key("d"))
            .push(Piece::Text("M "))
            .push(Piece::Number(step_size.spec_times(5 * x + 1, 0, 5)))
            .push(Piece::Text(" "))
            .push(Piece::Number(step_size.spec_times(y, 0, 1)))
            .push(Piece::Text(" L "))
            .push(Piece::Number(step_size.spec_times(5 * x + 1, 0, 5)))
            .push(Piece::Text(" "))
            .push(Piece::Number(step_size.spec_times(y + 1, 0, 1)))
            .push(Piece::Text(" M "))
            .push(Piece::Number(step_size.spec_times(5 * x + 4, 0, 5)))
            .push(Piece::Text(" "))
            .push(Piece::Number(step_size.spec_times(y, 0, 1)))
            .push(Piece::Text(" L "))
            .push(Piece::Number(step_size.spec_times(5 * x + 4, 0, 5)))
            .push(Piece::Text(" "))
            .push(Piece::Number(step_size.spec_times(y + 1, 0, 1)));
        let p = with_text(p, "stroke", paint.0);
        let p = with_number(p, "stroke-width", paint.1);
        let p = with_number(p, "stroke-opacity", paint.2);
        let p = p
            .push(Piece::Key("transform"))
            .push(Piece::Text("rotate("))
            .push(Piece::Number(angle))
            .push(Piece::Text(" "))
            .push(Piece::Number(step_size.spec_times(2 * x + 1, 0, 2)))
            .push(Piece::Text(" "))
            .push(Piece::Number(step_size.spec_times(2 * y + 1, 0, 2)))
            .push(Piece::Text(")"));
        let deux = ShapeView { tag: Tag::Path, pieces: p };
        seq![deux]
    } else {
        let p = Seq::<Piece>::empty();
        let p = p
            .push(Piece::Key("d"))
            .push(Piece::Text("M "))
            .push(Piece::Number(step_size.spec_times(10 * x + 1, 0, 10)))
            .push(Piece::Text(" "))
            .push(Piece::Number(step_size.spec_times(y, 0, 1)))
            .push(Piece::Text(" L "))
            .push(Piece::Number(step_size.spec_times(10 * x + 1, 0, 10)))
            .push(Piece::Text(" "))
            .push(Piece::Number(step_size.spec_times(y + 1, 0, 1)))
            .push(Piece::Text(" M "))
            .push(Piece::Number(step_size.spec_times(10 * x + 5, 0, 10)))
            .push(Piece::Text(" "))
            .push(Piece::Number(step_size.spec_times(y, 0, 1)))
            .push(Piece::Text(" L "))
            .push(Piece::Number(step_size.spec_times(10 * x + 5, 0, 10)))
            .push(Piece::Text(" "))
            .push(Piece::Number(step_size.spec_times(y + 1, 0, 1)))
            .push(Piece::Text(" M "))
            .push(Piece::Number(step_size.spec_times(10 * x + 9, 0, 10)))
            .push(Piece::Text(" "))
            .push(Piece::Number(step_size.spec_times(y, 0, 1)))
            .push(Piece::Text(" L "))
            .push(Piece::Number(step_size.spec_times(10 * x + 9, 0, 10)))
            .push(Piece::Text(" "))
            .push(Piece::Number(step_size.spec_times(y + 1, 0, 1)));
        let p = with_text(p, "stroke", paint.0);
        let p = with_number(p, "stroke-width", paint.1);
        let p = with_number(p, "stroke-opacity", paint.2);
        let p = p
            .push(Piece::Key("transform"))
            .push(Piece::Text("rotate("))
            .push(Piece::Number(angle))
            .push(Piece::Text(" "))
            .push(Piece::Number(step_size.spec_times(2 * x + 1, 0, 2)))
            .push(Piece::Text(" "))
            .push(Piece::Number(step_size.spec_times(2 * y + 1, 0, 2)))
            .push(Piece::Text(")"));
        let trois = ShapeView { tag: Tag::Path, pieces: p };
        seq![trois]
    }
}

/// The whole drawing: a canvas one step wide for each column and three
/// steps high for each row, the background, and the lines of the cells of
/// the three bands, each band `height` rows high.
pub open spec fn un_deus_trois_drawing<'a>(
    step_size: Scalar,
    width: int,
    height: int,
    stroke: Seq<(&'a str, Scalar, Scalar)>,
    rotation: Seq<Scalar>,
    background_color: &'a str,
) -> DrawingView<'a> {
    let w = width;
    let h = height;
    DrawingView {
        width: step_size.spec_times(w, 0, 1),
        height: step_size.spec_times(3 * h, 0, 1),
        shapes: seq![backdrop(background_color)] + collect(
            tiling(width, 3 * height, Wrap::Neither).len(),
            |k: int| un_deus_trois_cell(
                step_size,
                width,
                height,
                stroke,
                rotation,
                tiling(width, 3 * height, Wrap::Neither)[k],
            ),
        ),
    }
}

/// Three bands of `grid.1` rows and `grid.0` columns each, the cells
/// `step_size` wide and high. Cell `i`, counted row by row through all
/// three bands, is stroked with the colour `stroke[i].0`, the width
/// `stroke[i].1` and the opacity `stroke[i].2`, and turned by `rotation[i]`
/// degrees.
pub fn un_deus_trois<'a>(
    step_size: Scalar,
    grid: (usize, usize),
    stroke: &[(&'a str, Scalar, Scalar)],
    rotation: &[Scalar],
    background_color: &'a str,
) -> (r: Drawing<'a>)
    requires
        step_size.within(FACTOR_LIMIT as int),
        grid.0 <= GRID_LIMIT,
        3 * grid.1 <= GRID_LIMIT,
        stroke@.len() == 3 * grid.0 * grid.1,
        rotation@.len() == 3 * grid.0 * grid.1,
    ensures
        r@ == un_deus_trois_drawing(
            step_size,
            grid.0 as int,
            grid.1 as int,
            stroke@,
            rotation@,
            background_color,
        ),
{
    let width = grid.0;
    let height = grid.1;
    let w = width as i64;
    let h = height as i64;
    let rows = 3 * height;
    let canvas_width = step_size.times(w, 0, 1);
    let canvas_height = step_size.times(3 * h, 0, 1);
    let cells = tile(width, rows, Wrap::Neither);
    let mut shapes: Vec<Shape<'a>> = Vec::new();
    push_backdrop(&mut shapes, background_color);
    assert(views(shapes@) =~= seq![backdrop(background_color)] + collect(
        0,
        |k: int| un_deus_trois_cell(
            step_size,
            width as int,
            height as int,
            stroke@,
            rotation@,
            tiling(width as int, rows as int, Wrap::Neither)[k],
        ),
    ));
    let mut j: usize = 0;
    while j < cells.len()
        invariant
            0 <= j <= cells@.len(),
            cells@ == tiling(width as int, rows as int, Wrap::Neither),
            forall|k: int|
                0 <= k < cells@.len() ==> (#[trigger] cells@[k]).x < width && cells@[k].y < rows,
            width <= GRID_LIMIT,
            rows <= GRID_LIMIT,
            rows == 3 * height,
            w == width,
            h == height,
            step_size.within(FACTOR_LIMIT as int),
            stroke@.len() == 3 * width * height,
            rotation@.len() == 3 * width * height,
            views(shapes@) == seq![backdrop(background_color)] + collect(
                j as nat,
                |k: int| un_deus_trois_cell(
                    step_size,
                    width as int,
                    height as int,
                    stroke@,
                    rotation@,
                    tiling(width as int, rows as int, Wrap::Neither)[k],
                ),
            ),
        decreases cells@.len() - j,
    {
        let ghost before = views(shapes@);
        let e = cells[j];
        proof {
            lemma_cell_index(e.x as int, e.y as int, width as int, rows as int);
            assert(width * (3 * height) == 3 * width * height) by (nonlinear_arith);
        }
        let paint = stroke[e.y * width + e.x];
        let angle = rotation[e.y * width + e.x];
        let x = e.x as i64;
        let y = e.y as i64;
        if e.y < height {
            let mut p: Vec<Piece> = Vec::new();
            p.push(Piece::Key("d"));
            p.push(Piece::Text("M "));
            p.push(Piece::Number(step_size.times(2 * x + 1, 0, 2)));
            p.push(Piece::Text(" "));
            p.push(Piece::Number(step_size.times(y, 0, 1)));
            p.push(Piece::Text(" L "));
            p.push(Piece::Number(step_size.times(2 * x + 1, 0, 2)));
            p.push(Piece::Text(" "));
            p.push(Piece::Number(step_size.times(y + 1, 0, 1)));
            put_text(&mut p, "stroke", paint.0);
            put_number(&mut p, "stroke-width", paint.1);
            put_number(&mut p, "stroke-opacity", paint.2);
            p.push(Piece::Key("transform"));
            p.push(Piece::Text("rotate("));
            p.push(Piece::Number(angle));
            p.push(Piece::Text(" "));
            p.push(Piece::Number(step_size.times(2 * x + 1, 0, 2)));
            p.push(Piece::Text(" "));
            p.push(Piece::Number(step_size.times(2 * y + 1, 0, 2)));
            p.push(Piece::Text(")"));
            push_shape(&mut shapes, Tag::Path, p);
        } else if e.y < 2 * height {
            let mut p: Vec<Piece> = Vec::new();
            p.push(Piece::Key("d"));
            p.push(Piece::Text("M "));
            p.push(Piece::Number(step_size.times(5 * x + 1, 0, 5)));
            p.push(Piece::Text(" "));
            p.push(Piece::Number(step_size.times(y, 0, 1)));
            p.push(Piece::Text(" L "));
            p.push(Piece::Number(step_size.times(5 * x + 1, 0, 5)));
            p.push(Piece::Text(" "));
            p.push(Piece::Number(step_size.times(y + 1, 0, 1)));
            p.push(Piece::Text(" M "));
            p.push(Piece::Number(step_size.times(5 * x + 4, 0, 5)));
            p.push(Piece::Text(" "));
            p.push(Piece::Number(step_size.times(y, 0, 1)));
            p.push(Piece::Text(" L "));
            p.push(Piece::Number(step_size.times(5 * x + 4, 0, 5)));
            p.push(Piece::Text(" "));
            p.push(Piece::Number(step_size.times(y + 1, 0, 1)));
            put_text(&mut p, "stroke", paint.0);
            put_number(&mut p, "stroke-width", paint.1);
            put_number(&mut p, "stroke-opacity", paint.2);
            p.push(Piece::Key("transform"));
            p.push(Piece::Text("rotate("));
            p.push(Piece::Number(angle));
            p.push(Piece::Text(" "));
            p.push(Piece::Number(step_size.times(2 * x + 1, 0, 2)));
            p.push(Piece::Text(" "));
            p.push(Piece::Number(step_size.times(2 * y + 1, 0, 2)));
            p.push(Piece::Text(")"));
            push_shape(&mut shapes, Tag::Path, p);
        } else {
            let mut p: Vec<Piece> = Vec::new();
            p.push(Piece::Key("d"));
            p.push(Piece::Text("M "));
            p.push(Piece::Number(step_size.times(10 * x + 1, 0, 10)));
            p.push(Piece::Text(" "));
            p.push(Piece::Number(step_size.times(y, 0, 1)));
            p.push(Piece::Text(" L "));
            p.push(Piece::Number(step_size.times(10 * x + 1, 0, 10)));
            p.push(Piece::Text(" "));
            p.push(Piece::Number(step_size.times(y + 1, 0, 1)));
            p.push(Piece::Text(" M "));
            p.push(Piece::Number(step_size.times(10 * x + 5, 0, 10)));
            p.push(Piece::Text(" "));
            p.push(Piece::Number(step_size.times(y, 0, 1)));
            p.push(Piece::Text(" L "));
            p.push(Piece::Number(step_size.times(10 * x + 5, 0, 10)));
            p.push(Piece::Text(" "));
            p.push(Piece::Number(step_size.times(y + 1, 0, 1)));
            p.push(Piece::Text(" M "));
            p.push(Piece::Number(step_size.times(10 * x + 9, 0, 10)));
            p.push(Piece::Text(" "));
            p.push(Piece::Number(step_size.times(y, 0, 1)));
            p.push(Piece::Text(" L "));
            p.push(Piece::Number(step_size.times(10 * x + 9, 0, 10)));
            p.push(Piece::Text(" "));
            p.push(Piece::Number(step_size.times(y + 1, 0, 1)));
            put_text(&mut p, "stroke", paint.0);
            put_number(&mut p, "stroke-width", paint.1);
            put_number(&mut p, "stroke-opacity", paint.2);
            p.push(Piece::Key("transform"));
            p.push(Piece::Text("rotate("));
            p.push(Piece::Number(angle));
            p.push(Piece::Text(" "));
            p.push(Piece::Number(step_size.times(2 * x + 1, 0, 2)));
            p.push(Piece::Text(" "));
            p.push(Piece::Number(step_size.times(2 * y + 1, 0, 2)));
            p.push(Piece::Text(")"));
            push_shape(&mut shapes, Tag::Path, p);
        }
        assert(views(shapes@) =~= before + un_deus_trois_cell(
            step_size,
            width as int,
            height as int,
            stroke@,
            rotation@,
            e,
        ));
        j = j + 1;
    }
    Drawing { width: canvas_width, height: canvas_height, shapes }
}

} // verus!
