//! A grid of rings, each with a disc at its centre.

use vstd::prelude::*;
use crate::scalar::{FACTOR_LIMIT, Scalar};
use crate::shape::{
    collect, push_shape, put_number, put_text, views, with_number, with_text, Drawing,
    DrawingView, Piece, Shape, ShapeView, Tag,
};
use crate::shapes::{backdrop, lemma_cell_index, push_backdrop, GRID_LIMIT};
use crate::tiling::{tile, tiling, Emission, Wrap};

verus! {

/// The two circles of a cell. A cell is as wide and as high as the
/// diameter and the width of the ring together, and both circles stand in
/// its middle: the ring as large as the cell, its stroke the width of the
/// ring cut off to a whole number, and the disc half as large.
pub open spec fn concentric_circles_cell<'a>(
    diameter: Scalar,
    concentric_width: Scalar,
    width: int,
    height: int,
    fill_outer: Seq<(&'a str, Scalar)>,
    fill_inner: Seq<(&'a str, Scalar)>,
    e: Emission,
) -> Seq<ShapeView<'a>> {
    let outer = fill_outer[e.y * width + e.x];
    let inner = fill_inner[e.y * width + e.x];
    let x = e.x as int;
    let y = e.y as int;
    let p = Seq::<Piece>::empty();
    let p = with_number(
        p,
        "cx",
        Scalar::spec_blend(diameter, 2 * x + 1, concentric_width, 2 * x + 1, 2),
    );
    let p = with_number(
        p,
        "cy",
        Scalar::spec_blend(diameter, 2 * y + 1, concentric_width, 2 * y + 1, 2),
    );
    let p = with_number(p, "r", Scalar::spec_blend(diameter, 1, concentric_width, 1, 2));
    let p = with_text(p, "stroke", outer.0);
    let p = with_number(p, "fill-opacity", outer.1);
    let p = with_number(p, "stroke-opacity", outer.1);
    let p = p
        .push(Piece::Key("stroke-width"))
        .push(Piece::Text("0x"))
        .push(Piece::Hex(concentric_width.spec_times(1, 0, 1).spec_trunc()));
    let ring = ShapeView { tag: Tag::Circle, pieces: p };
    let p = Seq::<Piece>::empty();
    let p = with_number(
        p,
        "cx",
        Scalar::spec_blend(diameter, 2 * x + 1, concentric_width, 2 * x + 1, 2),
    );
    let p = with_number(
        p,
        "cy",
        Scalar::spec_blend(diameter, 2 * y + 1, concentric_width, 2 * y + 1, 2),
    );
    let p = with_number(p, "r", Scalar::spec_blend(diameter, 1, concentric_width, 1, 4));
    let p = with_text(p, "fill", inner.0);
    let p = with_number(p, "fill-opacity", inner.1);
    let disc = ShapeView { tag: Tag::Circle, pieces: p };
    seq![ring, disc]
}

/// The whole drawing: a canvas one cell wide for each column and one cell
/// high for each row, the background, and the two circles of each cell.
pub open spec fn concentric_circles_drawing<'a>(
    diameter: Scalar,
    concentric_width: Scalar,
    width: int,
    height: int,
    fill_outer: Seq<(&'a str, Scalar)>,
    fill_inner: Seq<(&'a str, Scalar)>,
    background_color: &'a str,
) -> DrawingView<'a> {
    let w = width;
    let h = height;
    DrawingView {
        width: Scalar::spec_blend(diameter, w, concentric_width, w, 1),
        height: Scalar::spec_blend(diameter, h, concentric_width, h, 1),
        shapes: seq![backdrop(background_color)] + collect(
            tiling(width, height, Wrap::Neither).len(),
            |k: int| concentric_circles_cell(
                diameter,
                concentric_width,
                width,
                height,
                fill_outer,
                fill_inner,
                tiling(width, height, Wrap::Neither)[k],
            ),
        ),
    }
}

/// Rings on a grid of `grid.0` columns and `grid.1` rows. In cell `i`,
/// counted row by row, the ring is stroked with the colour
/// `fill_outer[i].0` at the opacity `fill_outer[i].1` and the disc filled
/// with `fill_inner[i]`.
pub fn concentric_circles<'a>(
    diameter: Scalar,
    concentric_width: Scalar,
    grid: (usize, usize),
    fill_outer: &[(&'a str, Scalar)],
    fill_inner: &[(&'a str, Scalar)],
    background_color: &'a str,
) -> (r: Drawing<'a>)
    requires
        diameter.within(FACTOR_LIMIT as int),
        concentric_width.within(FACTOR_LIMIT as int),
        concentric_width.rational(),
        grid.0 <= GRID_LIMIT,
        grid.1 <= GRID_LIMIT,
        fill_outer@.len() == grid.0 * grid.1,
        fill_inner@.len() == grid.0 * grid.1,
    ensures
        r@ == concentric_circles_drawing(
            diameter,
            concentric_width,
            grid.0 as int,
            grid.1 as int,
            fill_outer@,
            fill_inner@,
            background_color,
        ),
{
    let width = grid.0;
    let height = grid.1;
    let w = width as i64;
    let h = height as i64;
    let canvas_width = Scalar::blend(diameter, w, concentric_width, w, 1);
    let canvas_height = Scalar::blend(diameter, h, concentric_width, h, 1);
    let cells = tile(width, height, Wrap::Neither);
    let mut shapes: Vec<Shape<'a>> = Vec::new();
    push_backdrop(&mut shapes, background_color);
    assert(views(shapes@) =~= seq![backdrop(background_color)] + collect(
        0,
        |k: int| concentric_circles_cell(
            diameter,
            concentric_width,
            width as int,
            height as int,
            fill_outer@,
            fill_inner@,
            tiling(width as int, height as int, Wrap::Neither)[k],
        ),
    ));
    let mut j: usize = 0;
    while j < cells.len()
        invariant
            0 <= j <= cells@.len(),
            cells@ == tiling(width as int, height as int, Wrap::Neither),
            forall|k: int|
                0 <= k < cells@.len() ==> (#[trigger] cells@[k]).x < width && cells@[k].y < height,
            width <= GRID_LIMIT,
            height <= GRID_LIMIT,
            w == width,
            h == height,
            diameter.within(FACTOR_LIMIT as int),
            concentric_width.within(FACTOR_LIMIT as int),
            concentric_width.rational(),
            fill_outer@.len() == width * height,
            fill_inner@.len() == width * height,
            views(shapes@) == seq![backdrop(background_color)] + collect(
                j as nat,
                |k: int| concentric_circles_cell(
                    diameter,
                    concentric_width,
                    width as int,
                    height as int,
                    fill_outer@,
                    fill_inner@,
                    tiling(width as int, height as int, Wrap::Neither)[k],
                ),
            ),
        decreases cells@.len() - j,
    {
        let ghost before = views(shapes@);
        let e = cells[j];
        proof {
            lemma_cell_index(e.x as int, e.y as int, width as int, height as int);
        }
        let outer = fill_outer[e.y * width + e.x];
        let inner = fill_inner[e.y * width + e.x];
        let x = e.x as i64;
        let y = e.y as i64;
        let mut p: Vec<Piece> = Vec::new();
        put_number(
            &mut p,
            "cx",
            Scalar::blend(diameter, 2 * x + 1, concentric_width, 2 * x + 1, 2),
        );
        put_number(
            &mut p,
            "cy",
            Scalar::blend(diameter, 2 * y + 1, concentric_width, 2 * y + 1, 2),
        );
        put_number(&mut p, "r", Scalar::blend(diameter, 1, concentric_width, 1, 2));
        put_text(&mut p, "stroke", outer.0);
        put_number(&mut p, "fill-opacity", outer.1);
        put_number(&mut p, "stroke-opacity", outer.1);
        p.push(Piece::Key("stroke-width"));
        p.push(Piece::Text("0x"));
        p.push(Piece::Hex(concentric_width.times(1, 0, 1).trunc()));
        push_shape(&mut shapes, Tag::Circle, p);
        let mut p: Vec<Piece> = Vec::new();
        put_number(
            &mut p,
            "cx",
            Scalar::blend(diameter, 2 * x + 1, concentric_width, 2 * x + 1, 2),
        );
        put_number(
            &mut p,
            "cy",
            Scalar::blend(diameter, 2 * y + 1, concentric_width, 2 * y + 1, 2),
        );
        put_number(&mut p, "r", Scalar::blend(diameter, 1, concentric_width, 1, 4));
        put_text(&mut p, "fill", inner.0);
        put_number(&mut p, "fill-opacity", inner.1);
        push_shape(&mut shapes, Tag::Circle, p);
        assert(views(shapes@) =~= before + concentric_circles_cell(
            diameter,
            concentric_width,
            width as int,
            height as int,
            fill_outer@,
            fill_inner@,
            e,
        ));
        j = j + 1;
    }
    Drawing { width: canvas_width, height: canvas_height, shapes }
}

} // verus!
