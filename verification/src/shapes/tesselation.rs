//! A tessellation of squares and triangles round hexagons.

use vstd::prelude::*;
use crate::scalar::{FACTOR_LIMIT, Scalar};
use crate::shape::{
    collect, push_shape, put_number, put_text, views, with_number, with_text, Drawing,
    DrawingView, Piece, Shape, ShapeView, Tag,
};
use crate::shapes::{backdrop, lemma_cell_index, push_backdrop};
use crate::tiling::{tile, tiling, Emission, Wrap};

verus! {

/// The paint and outline of a square tile.
pub open spec fn tile_square<'a>(
    paint: (&'a str, Scalar),
    stroke: (&'a str, Scalar),
) -> Seq<Piece<'a>> {
    let p = Seq::<Piece>::empty();
    let p = with_text(p, "fill", paint.0);
    let p = with_number(p, "fill-opacity", paint.1);
    let p = with_text(p, "stroke", stroke.0);
    let p = with_number(p, "stroke-opacity", stroke.1);
    let p = with_number(p, "stroke-width", Scalar::spec_whole(1));
    p
}

/// A triangle tile: half of an equilateral triangle of side `length`.
pub open spec fn tile_triangle<'a>(
    length: Scalar,
    paint: (&'a str, Scalar),
    stroke: (&'a str, Scalar),
) -> Seq<Piece<'a>> {
    let p = Seq::<Piece>::empty();
    let p = p
        .push(Piece::Key("points"))
        .push(Piece::Text("0,0,"))
        .push(Piece::Number(length.spec_times(0, 1, 2)))
        .push(Piece::Text(","))
        .push(Piece::Number(length.spec_times(1, 0, 2)))
        .push(Piece::Text(",0,"))
        .push(Piece::Number(length))
        .push(Piece::Text(",0,0"));
    let p = with_text(p, "fill", paint.0);
    let p = with_number(p, "fill-opacity", paint.1);
    let p = with_text(p, "stroke", stroke.0);
    let p = with_number(p, "stroke-opacity", stroke.1);
    let p = with_number(p, "stroke-width", Scalar::spec_whole(1));
    p
}

/// The drawings of one tile. The canvas is `3 + sqrt(3)` sides wide and
/// `2 + 2 * sqrt(3)` sides high. Tile 0 is the square on the four corners
/// of the canvas, tile 2 the square on the middle of its left and right
/// edge, tiles 1 and 3 the upright squares inside. Tiles 4 to 11 are the
/// triangles between them, those on the upper and lower edge drawn on both.
/// Tiles 12 to 19 are the squares that lean by 30 degrees.
pub open spec fn tesselation_tile<'a>(
    length: Scalar,
    fill: Seq<(&'a str, Scalar)>,
    stroke: (&'a str, Scalar),
    e: Emission,
) -> Seq<ShapeView<'a>> {
    let paint = fill[e.y as int];
    if e.y == 0 {
        let p = tile_square(paint, stroke);
        let p = with_number(p, "x", length.spec_times(-1, 0, 2));
        let p = with_number(p, "y", length.spec_times(-1, 0, 2));
        let p = with_number(p, "width", length);
        let p = with_number(p, "height", length);
        let a = ShapeView { tag: Tag::Rectangle, pieces: p };
        let p = tile_square(paint, stroke);
        let p = with_number(p, "x", length.spec_times(5, 2, 2));
        let p = with_number(p, "y", length.spec_times(-1, 0, 2));
        let p = with_number(p, "width", length);
        let p = with_number(p, "height", length);
        let b = ShapeView { tag: Tag::Rectangle, pieces: p };
        let p = tile_square(paint, stroke);
        let p = with_number(p, "x", length.spec_times(-1, 0, 2));
        let p = with_number(p, "y", length.spec_times(3, 4, 2));
        let p = with_number(p, "width", length);
        let p = with_number(p, "height", length);
        let c = ShapeView { tag: Tag::Rectangle, pieces: p };
        let p = tile_square(paint, stroke);
        let p = with_number(p, "x", length.spec_times(5, 2, 2));
        let p = with_number(p, "y", length.spec_times(3, 4, 2));
        let p = with_number(p, "width", length);
        let p = with_number(p, "height", length);
        let d = ShapeView { tag: Tag::Rectangle, pieces: p };
        seq![a, b, c, d]
    } else if e.y == 1 {
        let p = tile_square(paint, stroke);
        let p = with_number(p, "x", length.spec_times(2, 1, 2));
        let p = with_number(p, "y", length.spec_times(0, 1, 2));
        let p = with_number(p, "width", length);
        let p = with_number(p, "height", length);
        let a = ShapeView { tag: Tag::Rectangle, pieces: p };
        seq![a]
    } else if e.y == 2 {
        let p = tile_square(paint, stroke);
        let p = with_number(p, "x", length.spec_times(-1, 0, 2));
        let p = with_number(p, "y", length.spec_times(1, 2, 2));
        let p = with_number(p, "width", length);
        let p = with_number(p, "height", length);
        let a = ShapeView { tag: Tag::Rectangle, pieces: p };
        let p = tile_square(paint, stroke);
        let p = with_number(p, "x", length.spec_times(5, 2, 2));
        let p = with_number(p, "y", length.spec_times(1, 2, 2));
        let p = with_number(p, "width", length);
        let p = with_number(p, "height", length);
        let b = ShapeView { tag: Tag::Rectangle, pieces: p };
        seq![a, b]
    } else if e.y == 3 {
        let p = tile_square(paint, stroke);
        let p = with_number(p, "x", length.spec_times(2, 1, 2));
        let p = with_number(p, "y", length.spec_times(2, 3, 2));
        let p = with_number(p, "width", length);
        let p = with_number(p, "height", length);
        let a = ShapeView { tag: Tag::Rectangle, pieces: p };
        seq![a]
    } else if e.y == 4 {
        let p = tile_triangle(length, paint, stroke);
        let p = p
            .push(Piece::Key("transform"))
            .push(Piece::Text("translate("))
            .push(Piece::Number(length.spec_times(1, 0, 2)))
            .push(Piece::Text(", "))
            .push(Piece::Number(length.spec_times(-1, 0, 2)))
            .push(Piece::Text(") rotate(0, "))
            .push(Piece::Number(length.spec_times(1, 0, 2)))
            .push(Piece::Text(", "))
            .push(Piece::Number(length.spec_times(0, 1, 4)))
            .push(Piece::Text(")"));
        let a = ShapeView { tag: Tag::Polyline, pieces: p };
        let p = tile_triangle(length, paint, stroke);
        let p = p
            .push(Piece::Key("transform"))
            .push(Piece::Text("translate("))
            .push(Piece::Number(length.spec_times(1, 0, 2)))
            .push(Piece::Text(", "))
            .push(Piece::Number(length.spec_times(5, 4, 2)))
            .push(Piece::Text(") rotate(0, "))
            .push(Piece::Number(length.spec_times(1, 0, 2)))
            .push(Piece::Text(", "))
            .push(Piece::Number(length.spec_times(0, 1, 4)))
            .push(Piece::Text(") scale(1, -1)"));
        let b = ShapeView { tag: Tag::Polyline, pieces: p };
        seq![a, b]
    } else if e.y == 5 {
        let p = tile_triangle(length, paint, stroke);
        let p = p
            .push(Piece::Key("transform"))
            .push(Piece::Text("translate("))
            .push(Piece::Number(length.spec_times(5, 2, 2)))
            .push(Piece::Text(", "))
            .push(Piece::Number(length.spec_times(-1, 0, 2)))
            .push(Piece::Text(") rotate(0, "))
            .push(Piece::Number(length.spec_times(1, 0, 2)))
            .push(Piece::Text(", "))
            .push(Piece::Number(length.spec_times(0, 1, 4)))
            .push(Piece::Text(") scale(-1, 1)"));
        let a = ShapeView { tag: Tag::Polyline, pieces: p };
        let p = tile_triangle(length, paint, stroke);
        let p = p
            .push(Piece::Key("transform"))
            .push(Piece::Text("translate("))
            .push(Piece::Number(length.spec_times(5, 2, 2)))
            .push(Piece::Text(", "))
            .push(Piece::Number(length.spec_times(5, 4, 2)))
            .push(Piece::Text(") rotate(0, "))
            .push(Piece::Number(length.spec_times(1, 0, 2)))
            .push(Piece::Text(", "))
            .push(Piece::Number(length.spec_times(0, 1, 4)))
            .push(Piece::Text(") scale(-1, -1)"));
        let b = ShapeView { tag: Tag::Polyline, pieces: p };
        seq![a, b]
    } else if e.y == 6 {
        let p = tile_triangle(length, paint, stroke);
        let p = p
            .push(Piece::Key("transform"))
            .push(Piece::Text("translate("))
            .push(Piece::Number(length.spec_times(4, 1, 2)))
            .push(Piece::Text(", "))
            .push(Piece::Number(length.spec_times(0, 1, 2)))
            .push(Piece::Text(")"));
        let a = ShapeView { tag: Tag::Polyline, pieces: p };
        seq![a]
    } else if e.y == 7 {
        let p = tile_triangle(length, paint, stroke);
        let p = p
            .push(Piece::Key("transform"))
            .push(Piece::Text("translate("))
            .push(Piece::Number(length.spec_times(2, 1, 2)))
            .push(Piece::Text(", "))
            .push(Piece::Number(length.spec_times(0, 1, 2)))
            .push(Piece::Text(") scale(-1, 1)"));
        let a = ShapeView { tag: Tag::Polyline, pieces: p };
        seq![a]
    } else if e.y == 8 {
        let p = tile_triangle(length, paint, stroke);
        let p = p
            .push(Piece::Key("transform"))
            .push(Piece::Text("translate("))
            .push(Piece::Number(length.spec_times(4, 1, 2)))
            .push(Piece::Text(", "))
            .push(Piece::Number(length.spec_times(4, 3, 2)))
            .push(Piece::Text(") scale(1, -1)"));
        let a = ShapeView { tag: Tag::Polyline, pieces: p };
        seq![a]
    } else if e.y == 9 {
        let p = tile_triangle(length, paint, stroke);
        let p = p
            .push(Piece::Key("transform"))
            .push(Piece::Text("translate("))
            .push(Piece::Number(length.spec_times(2, 1, 2)))
            .push(Piece::Text(", "))
            .push(Piece::Number(length.spec_times(4, 3, 2)))
            .push(Piece::Text(") scale(-1, -1)"));
        let a = ShapeView { tag: Tag::Polyline, pieces: p };
        seq![a]
    } else if e.y == 10 {
        let p = tile_triangle(length, paint, stroke);
        let p = p
            .push(Piece::Key("transform"))
            .push(Piece::Text("translate("))
            .push(Piece::Number(length.spec_times(1, 0, 2)))
            .push(Piece::Text(", "))
            .push(Piece::Number(length.spec_times(1, 2, 2)))
            .push(Piece::Text(")"));
        let a = ShapeView { tag: Tag::Polyline, pieces: p };
        seq![a]
    } else if e.y == 11 {
        let p = tile_triangle(length, paint, stroke);
        let p = p
            .push(Piece::Key("transform"))
            .push(Piece::Text("translate("))
            .push(Piece::Number(length.spec_times(5, 2, 2)))
            .push(Piece::Text(", "))
            .push(Piece::Number(length.spec_times(1, 2, 2)))
            .push(Piece::Text(") scale(-1, 1)"));
        let a = ShapeView { tag: Tag::Polyline, pieces: p };
        seq![a]
    } else if e.y == 12 {
        let p = tile_square(paint, stroke);
        let p = with_number(p, "x", Scalar::spec_whole(0));
        let p = with_number(p, "y", Scalar::spec_whole(0));
        let p = with_number(p, "width", length);
        let p = with_number(p, "height", length);
        let p = p
            .push(Piece::Key("transform"))
            .push(Piece::Text("translate("))
            .push(Piece::Number(length.spec_times(1, 0, 2)))
            .push(Piece::Text(", "))
            .push(Piece::Number(length.spec_times(1, 0, 2)))
            .push(Piece::Text(") rotate(-30, 0, 0)"));
        let a = ShapeView { tag: Tag::Rectangle, pieces: p };
        seq![a]
    } else if e.y == 13 {
        let p = tile_square(paint, stroke);
        let p = with_number(p, "x", Scalar::spec_whole(0));
        let p = with_number(p, "y", Scalar::spec_whole(0));
        let p = with_number(p, "width", length);
        let p = with_number(p, "height", length);
        let p = p
            .push(Piece::Key("transform"))
            .push(Piece::Text("scale(-1, 1) translate("))
            .push(Piece::Number(length.spec_times(-5, -2, 2)))
            .push(Piece::Text(", "))
            .push(Piece::Number(length.spec_times(1, 0, 2)))
            .push(Piece::Text(") rotate(-30, 0, 0)"));
        let a = ShapeView { tag: Tag::Rectangle, pieces: p };
        seq![a]
    } else if e.y == 14 {
        let p = tile_square(paint, stroke);
        let p = with_number(p, "x", Scalar::spec_whole(0));
        let p = with_number(p, "y", Scalar::spec_whole(0));
        let p = with_number(p, "width", length);
        let p = with_number(p, "height", length);
        let p = p
            .push(Piece::Key("transform"))
            .push(Piece::Text("translate("))
            .push(Piece::Number(length.spec_times(1, 0, 2)))
            .push(Piece::Text(", "))
            .push(Piece::Number(length.spec_times(-1, 2, 2)))
            .push(Piece::Text(") rotate(30, 0, "))
            .push(Piece::Number(length))
            .push(Piece::Text(")"));
        let a = ShapeView { tag: Tag::Rectangle, pieces: p };
        seq![a]
    } else if e.y == 15 {
        let p = tile_square(paint, stroke);
        let p = with_number(p, "x", Scalar::spec_whole(0));
        let p = with_number(p, "y", Scalar::spec_whole(0));
        let p = with_number(p, "width", length);
        let p = with_number(p, "height", length);
        let p = p
            .push(Piece::Key("transform"))
            .push(Piece::Text("scale(-1, 1) translate("))
            .push(Piece::Number(length.spec_times(-5, -2, 2)))
            .push(Piece::Text(", "))
            .push(Piece::Number(length.spec_times(-1, 2, 2)))
            .push(Piece::Text(") rotate(30, 0, "))
            .push(Piece::Number(length))
            .push(Piece::Text(")"));
        let a = ShapeView { tag: Tag::Rectangle, pieces: p };
        seq![a]
    } else if e.y == 16 {
        let p = tile_square(paint, stroke);
        let p = with_number(p, "x", Scalar::spec_whole(0));
        let p = with_number(p, "y", Scalar::spec_whole(0));
        let p = with_number(p, "width", length);
        let p = with_number(p, "height", length);
        let p = p
            .push(Piece::Key("transform"))
            .push(Piece::Text("scale(1, -1) translate("))
            .push(Piece::Number(length.spec_times(1, 0, 2)))
            .push(Piece::Text(", "))
            .push(Piece::Number(length.spec_times(-5, -2, 2)))
            .push(Piece::Text(") rotate(30, 0, "))
            .push(Piece::Number(length))
            .push(Piece::Text(")"));
        let a = ShapeView { tag: Tag::Rectangle, pieces: p };
        seq![a]
    } else if e.y == 17 {
        let p = tile_square(paint, stroke);
        let p = with_number(p, "x", Scalar::spec_whole(0));
        let p = with_number(p, "y", Scalar::spec_whole(0));
        let p = with_number(p, "width", length);
        let p = with_number(p, "height", length);
        let p = p
            .push(Piece::Key("transform"))
            .push(Piece::Text("scale(-1, -1) translate("))
            .push(Piece::Number(length.spec_times(-5, -2, 2)))
            .push(Piece::Text(", "))
            .push(Piece::Number(length.spec_times(-5, -2, 2)))
            .push(Piece::Text(") rotate(30, 0, "))
            .push(Piece::Number(length))
            .push(Piece::Text(")"));
        let a = ShapeView { tag: Tag::Rectangle, pieces: p };
        seq![a]
    } else if e.y == 18 {
        let p = tile_square(paint, stroke);
        let p = with_number(p, "x", Scalar::spec_whole(0));
        let p = with_number(p, "y", Scalar::spec_whole(0));
        let p = with_number(p, "width", length);
        let p = with_number(p, "height", length);
        let p = p
            .push(Piece::Key("transform"))
            .push(Piece::Text("scale(1, -1) translate("))
            .push(Piece::Number(length.spec_times(1, 0, 2)))
            .push(Piece::Text(", "))
            .push(Piece::Number(length.spec_times(-3, -4, 2)))
            .push(Piece::Text(") rotate(-30, 0, 0)"));
        let a = ShapeView { tag: Tag::Rectangle, pieces: p };
        seq![a]
    } else if e.y == 19 {
        let p = tile_square(paint, stroke);
        let p = with_number(p, "x", Scalar::spec_whole(0));
        let p = with_number(p, "y", Scalar::spec_whole(0));
        let p = with_number(p, "width", length);
        let p = with_number(p, "height", length);
        let p = p
            .push(Piece::Key("transform"))
            .push(Piece::Text("scale(-1, -1) translate("))
            .push(Piece::Number(length.spec_times(-5, -2, 2)))
            .push(Piece::Text(", "))
            .push(Piece::Number(length.spec_times(-3, -4, 2)))
            .push(Piece::Text(") rotate(-30, 0, 0)"));
        let a = ShapeView { tag: Tag::Rectangle, pieces: p };
        seq![a]
    } else {
        Seq::empty()
    }
}

/// The whole drawing: the canvas, the background, and the drawings of the
/// 20 tiles in order.
pub open spec fn tesselation_drawing<'a>(
    length: Scalar,
    fill: Seq<(&'a str, Scalar)>,
    stroke: (&'a str, Scalar),
    background_color: &'a str,
) -> DrawingView<'a> {
    DrawingView {
        width: length.spec_times(3, 1, 1),
        height: length.spec_times(2, 2, 1),
        shapes: seq![backdrop(background_color)] + collect(
            tiling(1, 20, Wrap::Neither).len(),
            |k: int| tesselation_tile(length, fill, stroke, tiling(1, 20, Wrap::Neither)[k]),
        ),
    }
}

/// The paint and outline of a square tile.
fn square_pieces<'a>(paint: (&'a str, Scalar), stroke: (&'a str, Scalar)) -> (p: Vec<Piece<'a>>)
    ensures
        p@ == tile_square(paint, stroke),
{
    let mut p: Vec<Piece> = Vec::new();
    put_text(&mut p, "fill", paint.0);
    put_number(&mut p, "fill-opacity", paint.1);
    put_text(&mut p, "stroke", stroke.0);
    put_number(&mut p, "stroke-opacity", stroke.1);
    put_number(&mut p, "stroke-width", Scalar::whole(1));
    p
}

/// A triangle tile: half of an equilateral triangle of side `length`.
fn triangle_pieces<'a>(
    length: Scalar,
    paint: (&'a str, Scalar),
    stroke: (&'a str, Scalar),
) -> (p: Vec<Piece<'a>>)
    requires
        length.within(FACTOR_LIMIT as int),
    ensures
        p@ == tile_triangle(length, paint, stroke),
{
    let mut p: Vec<Piece> = Vec::new();
    p.push(Piece::Key("points"));
    p.push(Piece::Text("0,0,"));
    p.push(Piece::Number(length.times(0, 1, 2)));
    p.push(Piece::Text(","));
    p.push(Piece::Number(length.times(1, 0, 2)));
    p.push(Piece::Text(",0,"));
    p.push(Piece::Number(length));
    p.push(Piece::Text(",0,0"));
    put_text(&mut p, "fill", paint.0);
    put_number(&mut p, "fill-opacity", paint.1);
    put_text(&mut p, "stroke", stroke.0);
    put_number(&mut p, "stroke-opacity", stroke.1);
    put_number(&mut p, "stroke-width", Scalar::whole(1));
    p
}

/// Squares and triangles with the side `length`, laid round hexagons so
/// that the canvas tiles. Tile `i` is filled with the colour `fill[i].0` at
/// the opacity `fill[i].1`.
pub fn tesselation<'a>(
    length: Scalar,
    fill: &[(&'a str, Scalar)],
    stroke: (&'a str, Scalar),
    background_color: &'a str,
) -> (r: Drawing<'a>)
    requires
        length.within(FACTOR_LIMIT as int),
        fill@.len() == 20,
    ensures
        r@ == tesselation_drawing(length, fill@, stroke, background_color),
{
    let canvas_width = length.times(3, 1, 1);
    let canvas_height = length.times(2, 2, 1);
    let cells = tile(1usize, 20usize, Wrap::Neither);
    let mut shapes: Vec<Shape<'a>> = Vec::new();
    push_backdrop(&mut shapes, background_color);
    assert(views(shapes@) =~= seq![backdrop(background_color)] + collect(
        0,
        |k: int| tesselation_tile(
            length,
            fill@,
            stroke,
            tiling(1usize as int, 20usize as int, Wrap::Neither)[k],
        ),
    ));
    let mut j: usize = 0;
    while j < cells.len()
        invariant
            0 <= j <= cells@.len(),
            cells@ == tiling(1usize as int, 20usize as int, Wrap::Neither),
            forall|k: int|
                0 <= k < cells@.len() ==> (#[trigger] cells@[k]).x < 1usize && cells@[k].y < 20usize,
            length.within(FACTOR_LIMIT as int),
            fill@.len() == 20,
            views(shapes@) == seq![backdrop(background_color)] + collect(
                j as nat,
                |k: int| tesselation_tile(
                    length,
                    fill@,
                    stroke,
                    tiling(1usize as int, 20usize as int, Wrap::Neither)[k],
                ),
            ),
        decreases cells@.len() - j,
    {
        let ghost before = views(shapes@);
        let e = cells[j];
        proof {
            lemma_cell_index(e.x as int, e.y as int, 1usize as int, 20usize as int);
        }
        let paint = fill[e.y];
        if e.y == 0 {
            let mut p: Vec<Piece> = square_pieces(paint, stroke);
            put_number(&mut p, "x", length.times(-1, 0, 2));
            put_number(&mut p, "y", length.times(-1, 0, 2));
            put_number(&mut p, "width", length);
            put_number(&mut p, "height", length);
            push_shape(&mut shapes, Tag::Rectangle, p);
            let mut p: Vec<Piece> = square_pieces(paint, stroke);
            put_number(&mut p, "x", length.times(5, 2, 2));
            put_number(&mut p, "y", length.times(-1, 0, 2));
            put_number(&mut p, "width", length);
            put_number(&mut p, "height", length);
            push_shape(&mut shapes, Tag::Rectangle, p);
            let mut p: Vec<Piece> = square_pieces(paint, stroke);
            put_number(&mut p, "x", length.times(-1, 0, 2));
            put_number(&mut p, "y", length.times(3, 4, 2));
            put_number(&mut p, "width", length);
            put_number(&mut p, "height", length);
            push_shape(&mut shapes, Tag::Rectangle, p);
            let mut p: Vec<Piece> = square_pieces(paint, stroke);
            put_number(&mut p, "x", length.times(5, 2, 2));
            put_number(&mut p, "y", length.times(3, 4, 2));
            put_number(&mut p, "width", length);
            put_number(&mut p, "height", length);
            push_shape(&mut shapes, Tag::Rectangle, p);
        } else if e.y == 1 {
            let mut p: Vec<Piece> = square_pieces(paint, stroke);
            put_number(&mut p, "x", length.times(2, 1, 2));
            put_number(&mut p, "y", length.times(0, 1, 2));
            put_number(&mut p, "width", length);
            put_number(&mut p, "height", length);
            push_shape(&mut shapes, Tag::Rectangle, p);
        } else if e.y == 2 {
            let mut p: Vec<Piece> = square_pieces(paint, stroke);
            put_number(&mut p, "x", length.times(-1, 0, 2));
            put_number(&mut p, "y", length.times(1, 2, 2));
            put_number(&mut p, "width", length);
            put_number(&mut p, "height", length);
            push_shape(&mut shapes, Tag::Rectangle, p);
            let mut p: Vec<Piece> = square_pieces(paint, stroke);
            put_number(&mut p, "x", length.times(5, 2, 2));
            put_number(&mut p, "y", length.times(1, 2, 2));
            put_number(&mut p, "width", length);
            put_number(&mut p, "height", length);
            push_shape(&mut shapes, Tag::Rectangle, p);
        } else if e.y == 3 {
            let mut p: Vec<Piece> = square_pieces(paint, stroke);
            put_number(&mut p, "x", length.times(2, 1, 2));
            put_number(&mut p, "y", length.times(2, 3, 2));
            put_number(&mut p, "width", length);
            put_number(&mut p, "height", length);
            push_shape(&mut shapes, Tag::Rectangle, p);
        } else if e.y == 4 {
            let mut p: Vec<Piece> = triangle_pieces(length, paint, stroke);
            p.push(Piece::Key("transform"));
            p.push(Piece::Text("translate("));
            p.push(Piece::Number(length.times(1, 0, 2)));
            p.push(Piece::Text(", "));
            p.push(Piece::Number(length.times(-1, 0, 2)));
            p.push(Piece::Text(") rotate(0, "));
            p.push(Piece::Number(length.times(1, 0, 2)));
            p.push(Piece::Text(", "));
            p.push(Piece::Number(length.times(0, 1, 4)));
            p.push(Piece::Text(")"));
            push_shape(&mut shapes, Tag::Polyline, p);
            let mut p: Vec<Piece> = triangle_pieces(length, paint, stroke);
            p.push(Piece::Key("transform"));
            p.push(Piece::Text("translate("));
            p.push(Piece::Number(length.times(1, 0, 2)));
            p.push(Piece::Text(", "));
            p.push(Piece::Number(length.times(5, 4, 2)));
            p.push(Piece::Text(") rotate(0, "));
            p.push(Piece::Number(length.times(1, 0, 2)));
            p.push(Piece::Text(", "));
            p.push(Piece::Number(length.times(0, 1, 4)));
            p.push(Piece::Text(") scale(1, -1)"));
            push_shape(&mut shapes, Tag::Polyline, p);
        } else if e.y == 5 {
            let mut p: Vec<Piece> = triangle_pieces(length, paint, stroke);
            p.push(Piece::Key("transform"));
            p.push(Piece::Text("translate("));
            p.push(Piece::Number(length.times(5, 2, 2)));
            p.push(Piece::Text(", "));
            p.push(Piece::Number(length.times(-1, 0, 2)));
            p.push(Piece::Text(") rotate(0, "));
            p.push(Piece::Number(length.times(1, 0, 2)));
            p.push(Piece::Text(", "));
            p.push(Piece::Number(length.times(0, 1, 4)));
            p.push(Piece::Text(") scale(-1, 1)"));
            push_shape(&mut shapes, Tag::Polyline, p);
            let mut p: Vec<Piece> = triangle_pieces(length, paint, stroke);
            p.push(Piece::Key("transform"));
            p.push(Piece::Text("translate("));
            p.push(Piece::Number(length.times(5, 2, 2)));
            p.push(Piece::Text(", "));
            p.push(Piece::Number(length.times(5, 4, 2)));
            p.push(Piece::Text(") rotate(0, "));
            p.push(Piece::Number(length.times(1, 0, 2)));
            p.push(Piece::Text(", "));
            p.push(Piece::Number(length.times(0, 1, 4)));
            p.push(Piece::Text(") scale(-1, -1)"));
            push_shape(&mut shapes, Tag::Polyline, p);
        } else if e.y == 6 {
            let mut p: Vec<Piece> = triangle_pieces(length, paint, stroke);
            p.push(Piece::Key("transform"));
            p.push(Piece::Text("translate("));
            p.push(Piece::Number(length.times(4, 1, 2)));
            p.push(Piece::Text(", "));
            p.push(Piece::Number(length.times(0, 1, 2)));
            p.push(Piece::Text(")"));
            push_shape(&mut shapes, Tag::Polyline, p);
        } else if e.y == 7 {
            let mut p: Vec<Piece> = triangle_pieces(length, paint, stroke);
            p.push(Piece::Key("transform"));
            p.push(Piece::Text("translate("));
            p.push(Piece::Number(length.times(2, 1, 2)));
            p.push(Piece::Text(", "));
            p.push(Piece::Number(length.times(0, 1, 2)));
            p.push(Piece::Text(") scale(-1, 1)"));
            push_shape(&mut shapes, Tag::Polyline, p);
        } else if e.y == 8 {
            let mut p: Vec<Piece> = triangle_pieces(length, paint, stroke);
            p.push(Piece::Key("transform"));
            p.push(Piece::Text("translate("));
            p.push(Piece::Number(length.times(4, 1, 2)));
            p.push(Piece::Text(", "));
            p.push(Piece::Number(length.times(4, 3, 2)));
            p.push(Piece::Text(") scale(1, -1)"));
            push_shape(&mut shapes, Tag::Polyline, p);
        } else if e.y == 9 {
            let mut p: Vec<Piece> = triangle_pieces(length, paint, stroke);
            p.push(Piece::Key("transform"));
            p.push(Piece::Text("translate("));
            p.push(Piece::Number(length.times(2, 1, 2)));
            p.push(Piece::Text(", "));
            p.push(Piece::Number(length.times(4, 3, 2)));
            p.push(Piece::Text(") scale(-1, -1)"));
            push_shape(&mut shapes, Tag::Polyline, p);
        } else if e.y == 10 {
            let mut p: Vec<Piece> = triangle_pieces(length, paint, stroke);
            p.push(Piece::Key("transform"));
            p.push(Piece::Text("translate("));
            p.push(Piece::Number(length.times(1, 0, 2)));
            p.push(Piece::Text(", "));
            p.push(Piece::Number(length.times(1, 2, 2)));
            p.push(Piece::Text(")"));
            push_shape(&mut shapes, Tag::Polyline, p);
        } else if e.y == 11 {
            let mut p: Vec<Piece> = triangle_pieces(length, paint, stroke);
            p.push(Piece::Key("transform"));
            p.push(Piece::Text("translate("));
            p.push(Piece::Number(length.times(5, 2, 2)));
            p.push(Piece::Text(", "));
            p.push(Piece::Number(length.times(1, 2, 2)));
            p.push(Piece::Text(") scale(-1, 1)"));
            push_shape(&mut shapes, Tag::Polyline, p);
        } else if e.y == 12 {
            let mut p: Vec<Piece> = square_pieces(paint, stroke);
            put_number(&mut p, "x", Scalar::whole(0));
            put_number(&mut p, "y", Scalar::whole(0));
            put_number(&mut p, "width", length);
            put_number(&mut p, "height", length);
            p.push(Piece::Key("transform"));
            p.push(Piece::Text("translate("));
            p.push(Piece::Number(length.times(1, 0, 2)));
            p.push(Piece::Text(", "));
            p.push(Piece::Number(length.times(1, 0, 2)));
            p.push(Piece::Text(") rotate(-30, 0, 0)"));
            push_shape(&mut shapes, Tag::Rectangle, p);
        } else if e.y == 13 {
            let mut p: Vec<Piece> = square_pieces(paint, stroke);
            put_number(&mut p, "x", Scalar::whole(0));
            put_number(&mut p, "y", Scalar::whole(0));
            put_number(&mut p, "width", length);
            put_number(&mut p, "height", length);
            p.push(Piece::Key("transform"));
            p.push(Piece::Text("scale(-1, 1) translate("));
            p.push(Piece::Number(length.times(-5, -2, 2)));
            p.push(Piece::Text(", "));
            p.push(Piece::Number(length.times(1, 0, 2)));
            p.push(Piece::Text(") rotate(-30, 0, 0)"));
            push_shape(&mut shapes, Tag::Rectangle, p);
        } else if e.y == 14 {
            let mut p: Vec<Piece> = square_pieces(paint, stroke);
            put_number(&mut p, "x", Scalar::whole(0));
            put_number(&mut p, "y", Scalar::whole(0));
            put_number(&mut p, "width", length);
            put_number(&mut p, "height", length);
            p.push(Piece::Key("transform"));
            p.push(Piece::Text("translate("));
            p.push(Piece::Number(length.times(1, 0, 2)));
            p.push(Piece::Text(", "));
            p.push(Piece::Number(length.times(-1, 2, 2)));
            p.push(Piece::Text(") rotate(30, 0, "));
            p.push(Piece::Number(length));
            p.push(Piece::Text(")"));
            push_shape(&mut shapes, Tag::Rectangle, p);
        } else if e.y == 15 {
            let mut p: Vec<Piece> = square_pieces(paint, stroke);
            put_number(&mut p, "x", Scalar::whole(0));
            put_number(&mut p, "y", Scalar::whole(0));
            put_number(&mut p, "width", length);
            put_number(&mut p, "height", length);
            p.push(Piece::Key("transform"));
            p.push(Piece::Text("scale(-1, 1) translate("));
            p.push(Piece::Number(length.times(-5, -2, 2)));
            p.push(Piece::Text(", "));
            p.push(Piece::Number(length.times(-1, 2, 2)));
            p.push(Piece::Text(") rotate(30, 0, "));
            p.push(Piece::Number(length));
            p.push(Piece::Text(")"));
            push_shape(&mut shapes, Tag::Rectangle, p);
        } else if e.y == 16 {
            let mut p: Vec<Piece> = square_pieces(paint, stroke);
            put_number(&mut p, "x", Scalar::whole(0));
            put_number(&mut p, "y", Scalar::whole(0));
            put_number(&mut p, "width", length);
            put_number(&mut p, "height", length);
            p.push(Piece::Key("transform"));
            p.push(Piece::Text("scale(1, -1) translate("));
            p.push(Piece::Number(length.times(1, 0, 2)));
            p.push(Piece::Text(", "));
            p.push(Piece::Number(length.times(-5, -2, 2)));
            p.push(Piece::Text(") rotate(30, 0, "));
            p.push(Piece::Number(length));
            p.push(Piece::Text(")"));
            push_shape(&mut shapes, Tag::Rectangle, p);
        } else if e.y == 17 {
            let mut p: Vec<Piece> = square_pieces(paint, stroke);
            put_number(&mut p, "x", Scalar::whole(0));
            put_number(&mut p, "y", Scalar::whole(0));
            put_number(&mut p, "width", length);
            put_number(&mut p, "height", length);
            p.push(Piece::Key("transform"));
            p.push(Piece::Text("scale(-1, -1) translate("));
            p.push(Piece::Number(length.times(-5, -2, 2)));
            p.push(Piece::Text(", "));
            p.push(Piece::Number(length.times(-5, -2, 2)));
            p.push(Piece::Text(") rotate(30, 0, "));
            p.push(Piece::Number(length));
            p.push(Piece::Text(")"));
            push_shape(&mut shapes, Tag::Rectangle, p);
        } else if e.y == 18 {
            let mut p: Vec<Piece> = square_pieces(paint, stroke);
            put_number(&mut p, "x", Scalar::whole(0));
            put_number(&mut p, "y", Scalar::whole(0));
            put_number(&mut p, "width", length);
            put_number(&mut p, "height", length);
            p.push(Piece::Key("transform"));
            p.push(Piece::Text("scale(1, -1) translate("));
            p.push(Piece::Number(length.times(1, 0, 2)));
            p.push(Piece::Text(", "));
            p.push(Piece::Number(length.times(-3, -4, 2)));
            p.push(Piece::Text(") rotate(-30, 0, 0)"));
            push_shape(&mut shapes, Tag::Rectangle, p);
        } else if e.y == 19 {
            let mut p: Vec<Piece> = square_pieces(paint, stroke);
            put_number(&mut p, "x", Scalar::whole(0));
            put_number(&mut p, "y", Scalar::whole(0));
            put_number(&mut p, "width", length);
            put_number(&mut p, "height", length);
            p.push(Piece::Key("transform"));
            p.push(Piece::Text("scale(-1, -1) translate("));
            p.push(Piece::Number(length.times(-5, -2, 2)));
            p.push(Piece::Text(", "));
            p.push(Piece::Number(length.times(-3, -4, 2)));
            p.push(Piece::Text(") rotate(-30, 0, 0)"));
            push_shape(&mut shapes, Tag::Rectangle, p);
        }
        assert(views(shapes@) =~= before + tesselation_tile(length, fill@, stroke, e));
        j = j + 1;
    }
    Drawing { width: canvas_width, height: canvas_height, shapes }
}

} // verus!
