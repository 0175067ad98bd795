//! Squares made of four right triangles each.

use vstd::prelude::*;
use crate::scalar::{FACTOR_LIMIT, Scalar};
use crate::shape::{
    collect, push_shape, put_number, put_text, views, with_number, with_text, Drawing,
    DrawingView, Piece, Shape, ShapeView, Tag,
};
use crate::shapes::{backdrop, lemma_cell_index, push_backdrop, GRID_LIMIT};
use crate::tiling::{tile, tiling, Emission, Wrap};

verus! {

/// A right triangle with two sides of length `side`, filled with `paint`.
pub open spec fn mosaic_triangle<'a>(
    side: Scalar,
    paint: (&'a str, Scalar),
    stroke: (&'a str, Scalar),
) -> Seq<Piece<'a>> {
    let p = Seq::<Piece>::empty();
    let p = p
        .push(Piece::Key("points"))
        .push(Piece::Text("0,0,"))
        .push(Piece::Number(side))
        .push(Piece::Text(","))
        .push(Piece::Number(side))
        .push(Piece::Text(",0,"))
        .push(Piece::Number(side))
        .push(Piece::Text(",0,0"));
    let p = with_text(p, "fill", paint.0);
    let p = with_number(p, "fill-opacity", paint.1);
    let p = with_text(p, "stroke", stroke.0);
    let p = with_number(p, "stroke-opacity", stroke.1);
    p
}

/// The four triangles of a tile, each tile two sides wide and high. Where
/// column and row are both even or both odd the right angles point outward
/// and all four triangles take the outer paint of the tile; elsewhere they
/// point inward, two triangles with the outer and two with the inner paint.
pub open spec fn mosaic_squares_cell<'a>(
    side: Scalar,
    width: int,
    height: int,
    fill_outer: Seq<(&'a str, Scalar)>,
    fill_inner: Seq<(&'a str, Scalar)>,
    stroke: (&'a str, Scalar),
    e: Emission,
) -> Seq<ShapeView<'a>> {
    let outer = fill_outer[e.y * width + e.x];
    let inner = fill_inner[e.y * width + e.x];
    let x = e.x as int;
    let y = e.y as int;
    if e.x % 2 == e.y % 2 {
        let p = mosaic_triangle(side, outer, stroke);
        let p = p
            .push(Piece::Key("transform"))
            .push(Piece::Text("translate("))
            .push(Piece::Number(side.spec_times(2 * x, 0, 1)))
            .push(Piece::Text(", "))
            .push(Piece::Number(side.spec_times(2 * y + 1, 0, 1)))
            .push(Piece::Text(") scale(1, -1)"));
        let a = ShapeView { tag: Tag::Polyline, pieces: p };
        let p = mosaic_triangle(side, outer, stroke);
        let p = p
            .push(Piece::Key("transform"))
            .push(Piece::Text("translate("))
            .push(Piece::Number(side.spec_times(2 * x + 2, 0, 1)))
            .push(Piece::Text(", "))
            .push(Piece::Number(side.spec_times(2 * y + 1, 0, 1)))
            .push(Piece::Text(") scale(-1, -1)"));
        let b = ShapeView { tag: Tag::Polyline, pieces: p };
        let p = mosaic_triangle(side, outer, stroke);
        let p = p
            .push(Piece::Key("transform"))
            .push(Piece::Text("translate("))
            .push(Piece::Number(side.spec_times(2 * x, 0, 1)))
            .push(Piece::Text(", "))
            .push(Piece::Number(side.spec_times(2 * y + 1, 0, 1)))
            .push(Piece::Text(") scale(1, 1)"));
        let c = ShapeView { tag: Tag::Polyline, pieces: p };
        let p = mosaic_triangle(side, outer, stroke);
        let p = p
            .push(Piece::Key("transform"))
            .push(Piece::Text("translate("))
            .push(Piece::Number(side.spec_times(2 * x + 2, 0, 1)))
            .push(Piece::Text(", "))
            .push(Piece::Number(side.spec_times(2 * y + 1, 0, 1)))
            .push(Piece::Text(") scale(-1, 1)"));
        let d = ShapeView { tag: Tag::Polyline, pieces: p };
        seq![a, b, c, d]
    } else {
        let p = mosaic_triangle(side, outer, stroke);
        let p = p
            .push(Piece::Key("transform"))
            .push(Piece::Text("translate("))
            .push(Piece::Number(side.spec_times(2 * x + 1, 0, 1)))
            .push(Piece::Text(", "))
            .push(Piece::Number(side.spec_times(2 * y, 0, 1)))
            .push(Piece::Text(") scale(-1, 1)"));
        let a = ShapeView { tag: Tag::Polyline, pieces: p };
        let p = mosaic_triangle(side, outer, stroke);
        let p = p
            .push(Piece::Key("transform"))
            .push(Piece::Text("translate("))
            .push(Piece::Number(side.spec_times(2 * x + 1, 0, 1)))
            .push(Piece::Text(", "))
            .push(Piece::Number(side.spec_times(2 * y + 2, 0, 1)))
            .push(Piece::Text(") scale(1, -1)"));
        let b = ShapeView { tag: Tag::Polyline, pieces: p };
        let p = mosaic_triangle(side, inner, stroke);
        let p = p
            .push(Piece::Key("transform"))
            .push(Piece::Text("translate("))
            .push(Piece::Number(side.spec_times(2 * x + 1, 0, 1)))
            .push(Piece::Text(", "))
            .push(Piece::Number(side.spec_times(2 * y + 2, 0, 1)))
            .push(Piece::Text(") scale(-1, -1)"));
        let c = ShapeView { tag: Tag::Polyline, pieces: p };
        let p = mosaic_triangle(side, inner, stroke);
        let p = p
            .push(Piece::Key("transform"))
            .push(Piece::Text("translate("))
            .push(Piece::Number(side.spec_times(2 * x + 1, 0, 1)))
            .push(Piece::Text(", "))
            .push(Piece::Number(side.spec_times(2 * y, 0, 1)))
            .push(Piece::Text(") scale(1, 1)"));
        let d = ShapeView { tag: Tag::Polyline, pieces: p };
        seq![a, b, c, d]
    }
}

/// The whole drawing: a canvas two sides wide for each column and two sides
/// high for each row, the background, and the four triangles of each tile.
pub open spec fn mosaic_squares_drawing<'a>(
    side: Scalar,
    width: int,
    height: int,
    fill_outer: Seq<(&'a str, Scalar)>,
    fill_inner: Seq<(&'a str, Scalar)>,
    stroke: (&'a str, Scalar),
    background_color: &'a str,
) -> DrawingView<'a> {
    let w = width;
    let h = height;
    DrawingView {
        width: side.spec_times(2 * w, 0, 1),
        height: side.spec_times(2 * h, 0, 1),
        shapes: seq![backdrop(background_color)] + collect(
            tiling(width, height, Wrap::Neither).len(),
            |k: int| mosaic_squares_cell(
                side,
                width,
                height,
                fill_outer,
                fill_inner,
                stroke,
                tiling(width, height, Wrap::Neither)[k],
            ),
        ),
    }
}

/// A right triangle with two sides of length `side`, filled with `paint`.
fn triangle_pieces<'a>(
    side: Scalar,
    paint: (&'a str, Scalar),
    stroke: (&'a str, Scalar),
) -> (p: Vec<Piece<'a>>)
    ensures
        p@ == mosaic_triangle(side, paint, stroke),
{
    let mut p: Vec<Piece> = Vec::new();
    p.push(Piece::Key("points"));
    p.push(Piece::Text("0,0,"));
    p.push(Piece::Number(side));
    p.push(Piece::Text(","));
    p.push(Piece::Number(side));
    p.push(Piece::Text(",0,"));
    p.push(Piece::Number(side));
    p.push(Piece::Text(",0,0"));
    put_text(&mut p, "fill", paint.0);
    put_number(&mut p, "fill-opacity", paint.1);
    put_text(&mut p, "stroke", stroke.0);
    put_number(&mut p, "stroke-opacity", stroke.1);
    p
}

/// Tiles of four triangles with the short side `side` on a grid of
/// `grid.0` columns and `grid.1` rows. Tile `i`, counted row by row, takes
/// its outer paint from `fill_outer[i]` and its inner paint from
/// `fill_inner[i]`.
pub fn mosaic_squares<'a>(
    side: Scalar,
    grid: (usize, usize),
    fill_outer: &[(&'a str, Scalar)],
    fill_inner: &[(&'a str, Scalar)],
    stroke: (&'a str, Scalar),
    background_color: &'a str,
) -> (r: Drawing<'a>)
    requires
        side.within(FACTOR_LIMIT as int),
        grid.0 <= GRID_LIMIT,
        grid.1 <= GRID_LIMIT,
        fill_outer@.len() == grid.0 * grid.1,
        fill_inner@.len() == grid.0 * grid.1,
    ensures
        r@ == mosaic_squares_drawing(
            side,
            grid.0 as int,
            grid.1 as int,
            fill_outer@,
            fill_inner@,
            stroke,
            background_color,
        ),
{
    let width = grid.0;
    let height = grid.1;
    let w = width as i64;
    let h = height as i64;
    let canvas_width = side.times(2 * w, 0, 1);
    let canvas_height = side.times(2 * h, 0, 1);
    let cells = tile(width, height, Wrap::Neither);
    let mut shapes: Vec<Shape<'a>> = Vec::new();
    push_backdrop(&mut shapes, background_color);
    assert(views(shapes@) =~= seq![backdrop(background_color)] + collect(
        0,
        |k: int| mosaic_squares_cell(
            side,
            width as int,
            height as int,
            fill_outer@,
            fill_inner@,
            stroke,
            tiling(width as int, height as int, Wrap::Neither)[k],
        ),
    ));
    let mut j: usize = 0;
    while j < cells.len()
        invariant
            0 <= j <= cells@.len(),
            cells@ == tiling(width as int, height as int, Wrap::Neither),
            forall|k: int|
                0 <= k < cells@.len() ==> (#[trigger] cells@[k]).x < width && cells@[k].y < height,
            width <= GRID_LIMIT,
            height <= GRID_LIMIT,
            w == width,
            h == height,
            side.within(FACTOR_LIMIT as int),
            fill_outer@.len() == width * height,
            fill_inner@.len() == width * height,
            views(shapes@) == seq![backdrop(background_color)] + collect(
                j as nat,
                |k: int| mosaic_squares_cell(
                    side,
                    width as int,
                    height as int,
                    fill_outer@,
                    fill_inner@,
                    stroke,
                    tiling(width as int, height as int, Wrap::Neither)[k],
                ),
            ),
        decreases cells@.len() - j,
    {
        let ghost before = views(shapes@);
        let e = cells[j];
        proof {
            lemma_cell_index(e.x as int, e.y as int, width as int, height as int);
        }
        let outer = fill_outer[e.y * width + e.x];
        let inner = fill_inner[e.y * width + e.x];
        let x = e.x as i64;
        let y = e.y as i64;
        if e.x % 2 == e.y % 2 {
            let mut p: Vec<Piece> = triangle_pieces(side, outer, stroke);
            p.push(Piece::Key("transform"));
            p.push(Piece::Text("translate("));
            p.push(Piece::Number(side.times(2 * x, 0, 1)));
            p.push(Piece::Text(", "));
            p.push(Piece::Number(side.times(2 * y + 1, 0, 1)));
            p.push(Piece::Text(") scale(1, -1)"));
            push_shape(&mut shapes, Tag::Polyline, p);
            let mut p: Vec<Piece> = triangle_pieces(side, outer, stroke);
            p.push(Piece::Key("transform"));
            p.push(Piece::Text("translate("));
            p.push(Piece::Number(side.times(2 * x + 2, 0, 1)));
            p.push(Piece::Text(", "));
            p.push(Piece::Number(side.times(2 * y + 1, 0, 1)));
            p.push(Piece::Text(") scale(-1, -1)"));
            push_shape(&mut shapes, Tag::Polyline, p);
            let mut p: Vec<Piece> = triangle_pieces(side, outer, stroke);
            p.push(Piece::Key("transform"));
            p.push(Piece::Text("translate("));
            p.push(Piece::Number(side.times(2 * x, 0, 1)));
            p.push(Piece::Text(", "));
            p.push(Piece::Number(side.times(2 * y + 1, 0, 1)));
            p.push(Piece::Text(") scale(1, 1)"));
            push_shape(&mut shapes, Tag::Polyline, p);
            let mut p: Vec<Piece> = triangle_pieces(side, outer, stroke);
            p.push(Piece::Key("transform"));
            p.push(Piece::Text("translate("));
            p.push(Piece::Number(side.times(2 * x + 2, 0, 1)));
            p.push(Piece::Text(", "));
            p.push(Piece::Number(side.times(2 * y + 1, 0, 1)));
            p.push(Piece::Text(") scale(-1, 1)"));
            push_shape(&mut shapes, Tag::Polyline, p);
        } else {
            let mut p: Vec<Piece> = triangle_pieces(side, outer, stroke);
            p.push(Piece::Key("transform"));
            p.push(Piece::Text("translate("));
            p.push(Piece::Number(side.times(2 * x + 1, 0, 1)));
            p.push(Piece::Text(", "));
            p.push(Piece::Number(side.times(2 * y, 0, 1)));
            p.push(Piece::Text(") scale(-1, 1)"));
            push_shape(&mut shapes, Tag::Polyline, p);
            let mut p: Vec<Piece> = triangle_pieces(side, outer, stroke);
            p.push(Piece::Key("transform"));
            p.push(Piece::Text("translate("));
            p.push(Piece::Number(side.times(2 * x + 1, 0, 1)));
            p.push(Piece::Text(", "));
            p.push(Piece::Number(side.times(2 * y + 2, 0, 1)));
            p.push(Piece::Text(") scale(1, -1)"));
            push_shape(&mut shapes, Tag::Polyline, p);
            let mut p: Vec<Piece> = triangle_pieces(side, inner, stroke);
            p.push(Piece::Key("transform"));
            p.push(Piece::Text("translate("));
            p.push(Piece::Number(side.times(2 * x + 1, 0, 1)));
            p.push(Piece::Text(", "));
            p.push(Piece::Number(side.times(2 * y + 2, 0, 1)));
            p.push(Piece::Text(") scale(-1, -1)"));
            push_shape(&mut shapes, Tag::Polyline, p);
            let mut p: Vec<Piece> = triangle_pieces(side, inner, stroke);
            p.push(Piece::Key("transform"));
            p.push(Piece::Text("translate("));
            p.push(Piece::Number(side.times(2 * x + 1, 0, 1)));
            p.push(Piece::Text(", "));
            p.push(Piece::Number(side.times(2 * y, 0, 1)));
            p.push(Piece::Text(") scale(1, 1)"));
            push_shape(&mut shapes, Tag::Polyline, p);
        }
        assert(views(shapes@) =~= before + mosaic_squares_cell(
            side,
            width as int,
            height as int,
            fill_outer@,
            fill_inner@,
            stroke,
            e,
        ));
        j = j + 1;
    }
    Drawing { width: canvas_width, height: canvas_height, shapes }
}

} // verus!
