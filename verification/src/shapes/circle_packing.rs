//! Circles grown round given centres until they touch.

use vstd::prelude::*;
use crate::scalar::{lemma_product_bound, Scalar, FACTOR_LIMIT};
use crate::shape::{
    collect, push_shape, put_number, put_text, views, with_number, with_text, Drawing,
    DrawingView, Piece, Shape, ShapeView, Tag,
};
use crate::shapes::{backdrop, over, push_backdrop};

verus! {

/// A circle that has been placed, in parts of the common denominator.
#[derive(Debug, Clone, Copy, PartialEq, Eq, Structural)]
pub struct Disc {
    pub x: i64,
    pub y: i64,
    pub r: i64,
}

/// The frame that the circles are packed into, in parts of the common
/// denominator: the size of the canvas, the smallest and the largest
/// radius, and the step by which a radius grows, which is one whole.
#[derive(Debug, Clone, Copy, PartialEq, Eq, Structural)]
pub struct Frame {
    pub width: i64,
    pub height: i64,
    pub min: i64,
    pub max: i64,
    pub unit: i64,
}

/// The numbers of a frame are lengths that can be added up.
pub open spec fn frame_ok(f: Frame) -> bool {
    &&& -FACTOR_LIMIT <= f.width <= FACTOR_LIMIT
    &&& -FACTOR_LIMIT <= f.height <= FACTOR_LIMIT
    &&& -FACTOR_LIMIT <= f.min <= FACTOR_LIMIT
    &&& -FACTOR_LIMIT <= f.max <= FACTOR_LIMIT
    &&& 0 < f.unit <= FACTOR_LIMIT
}

/// A disc lies within the limits that the arithmetic of a frame keeps.
pub open spec fn disc_ok(d: Disc) -> bool {
    &&& -FACTOR_LIMIT <= d.x <= FACTOR_LIMIT
    &&& -FACTOR_LIMIT <= d.y <= FACTOR_LIMIT
    &&& -2 * FACTOR_LIMIT <= d.r <= 2 * FACTOR_LIMIT
}

/// The circle round `(x, y)` with the radius `r` touches or overlaps the
/// disc `d`: the centres are no farther apart than the radii together.
pub open spec fn touches(x: int, y: int, r: int, d: Disc) -> bool {
    (r + d.r) * (r + d.r) >= (x - d.x) * (x - d.x) + (y - d.y) * (y - d.y)
}

/// The circle round `(x, y)` with the radius `r` has no room: it reaches
/// over an edge of the canvas or touches one of the discs.
pub open spec fn collides(x: int, y: int, r: int, f: Frame, discs: Seq<Disc>) -> bool {
    ||| x + r > f.width
    ||| x - r < 0
    ||| y + r > f.height
    ||| y - r < 0
    ||| exists|i: int| 0 <= i < discs.len() && touches(x, y, r, #[trigger] discs[i])
}

/// How far the radius `r` is below the largest radius, and 0 where it is
/// not below it.
pub open spec fn room_to_grow(r: int, f: Frame) -> int {
    if r < f.max {
        f.max - r
    } else {
        0
    }
}

/// The radius that a circle round `(x, y)` gets when it grows from `r`:
/// one whole at a time while it is less than the largest radius, and one
/// whole back as soon as it has no room.
pub open spec fn fitted(x: int, y: int, r: int, f: Frame, discs: Seq<Disc>) -> int
    decreases room_to_grow(r, f),
    when f.unit > 0
{
    if r < f.max {
        if collides(x, y, r, f, discs) {
            r - f.unit
        } else {
            fitted(x, y, r + f.unit, f, discs)
        }
    } else {
        r
    }
}

/// The discs placed for the first `n` centres. A centre where even the
/// smallest circle has no room is passed over.
pub open spec fn packed(centers: Seq<(Scalar, Scalar)>, f: Frame, n: int) -> Seq<Disc>
    decreases n,
{
    if n <= 0 {
        Seq::empty()
    } else {
        let before = packed(centers, f, n - 1);
        let x = centers[n - 1].0.num as int;
        let y = centers[n - 1].1.num as int;
        if collides(x, y, f.min as int, f, before) {
            before
        } else {
            before.push(
                Disc { x: x as i64, y: y as i64, r: fitted(x, y, f.min as int, f, before) as i64 },
            )
        }
    }
}

/// The frame of a call: the size, the radii and the common denominator.
pub open spec fn frame_of(radii: (Scalar, Scalar), size: (Scalar, Scalar)) -> Frame {
    Frame {
        width: size.0.num,
        height: size.1.num,
        min: radii.0.num,
        max: radii.1.num,
        unit: size.0.den,
    }
}

/// The circle of a disc.
pub open spec fn packed_circle<'a>(
    d: Disc,
    unit: int,
    paint: (&'a str, Scalar),
    stroke: (&'a str, Scalar, Scalar),
) -> ShapeView<'a> {
    let p = Seq::<Piece>::empty();
    let p = with_number(p, "cx", Scalar::spec_ratio(d.x as int, unit));
    let p = with_number(p, "cy", Scalar::spec_ratio(d.y as int, unit));
    let p = with_number(p, "r", Scalar::spec_ratio(d.r as int, unit));
    let p = with_text(p, "fill", paint.0);
    let p = with_number(p, "fill-opacity", paint.1);
    let p = with_text(p, "stroke", stroke.0);
    let p = with_number(p, "stroke-width", stroke.1);
    let p = with_number(p, "stroke-opacity", stroke.2);
    ShapeView { tag: Tag::Circle, pieces: p }
}

/// What centre `i` adds to the drawing: its circle, with the paint of the
/// centre, if the centre is not passed over.
pub open spec fn packing_step<'a>(
    centers: Seq<(Scalar, Scalar)>,
    f: Frame,
    fill: Seq<(&'a str, Scalar)>,
    stroke: (&'a str, Scalar, Scalar),
    i: int,
) -> Seq<ShapeView<'a>> {
    let before = packed(centers, f, i);
    let x = centers[i].0.num as int;
    let y = centers[i].1.num as int;
    if collides(x, y, f.min as int, f, before) {
        Seq::empty()
    } else {
        seq![
            packed_circle(
                Disc { x: x as i64, y: y as i64, r: fitted(x, y, f.min as int, f, before) as i64 },
                f.unit as int,
                fill[i],
                stroke,
            ),
        ]
    }
}

/// The whole drawing: the canvas, the background, and the circles in the
/// order of their centres.
pub open spec fn circle_packing_drawing<'a>(
    centers: Seq<(Scalar, Scalar)>,
    radii: (Scalar, Scalar),
    size: (Scalar, Scalar),
    fill: Seq<(&'a str, Scalar)>,
    stroke: (&'a str, Scalar, Scalar),
    background_color: &'a str,
) -> DrawingView<'a> {
    DrawingView {
        width: size.0,
        height: size.1,
        shapes: seq![backdrop(background_color)] + collect(
            centers.len(),
            |i: int| packing_step(centers, frame_of(radii, size), fill, stroke, i),
        ),
    }
}

/// Whether the circle round `(x, y)` with the radius `r` has no room.
fn has_collision(x: i64, y: i64, r: i64, f: Frame, discs: &Vec<Disc>) -> (hit: bool)
    requires
        frame_ok(f),
        -FACTOR_LIMIT <= x <= FACTOR_LIMIT,
        -FACTOR_LIMIT <= y <= FACTOR_LIMIT,
        -2 * FACTOR_LIMIT <= r <= 2 * FACTOR_LIMIT,
        forall|i: int| 0 <= i < discs@.len() ==> disc_ok(#[trigger] discs@[i]),
    ensures
        hit == collides(x as int, y as int, r as int, f, discs@),
{
    if x + r > f.width || x - r < 0 {
        return true;
    }
    if y + r > f.height || y - r < 0 {
        return true;
    }
    let mut i: usize = 0;
    while i < discs.len()
        invariant
            0 <= i <= discs@.len(),
            -FACTOR_LIMIT <= x <= FACTOR_LIMIT,
            -FACTOR_LIMIT <= y <= FACTOR_LIMIT,
            -2 * FACTOR_LIMIT <= r <= 2 * FACTOR_LIMIT,
            forall|k: int| 0 <= k < discs@.len() ==> disc_ok(#[trigger] discs@[k]),
            forall|k: int| 0 <= k < i ==> !touches(
                x as int,
                y as int,
                r as int,
                #[trigger] discs@[k],
            ),
        decreases discs@.len() - i,
    {
        let d = discs[i];
        assert(disc_ok(d));
        let a: i64 = r + d.r;
        let dx: i64 = x - d.x;
        let dy: i64 = y - d.y;
        proof {
            lemma_product_bound(a as int, a as int, 4_194_304, 4_194_304);
            lemma_product_bound(dx as int, dx as int, 2_097_152, 2_097_152);
            lemma_product_bound(dy as int, dy as int, 2_097_152, 2_097_152);
        }
        if a * a >= dx * dx + dy * dy {
            return true;
        }
        i = i + 1;
    }
    false
}

/// Grows a circle round `(x, y)` from the smallest radius.
fn fit_radius(x: i64, y: i64, f: Frame, discs: &Vec<Disc>) -> (r: i64)
    requires
        frame_ok(f),
        -FACTOR_LIMIT <= x <= FACTOR_LIMIT,
        -FACTOR_LIMIT <= y <= FACTOR_LIMIT,
        forall|i: int| 0 <= i < discs@.len() ==> disc_ok(#[trigger] discs@[i]),
    ensures
        r == fitted(x as int, y as int, f.min as int, f, discs@),
        -2 * FACTOR_LIMIT <= r <= 2 * FACTOR_LIMIT,
{
    let mut r: i64 = f.min;
    while r < f.max
        invariant_except_break
            -FACTOR_LIMIT <= r <= 2 * FACTOR_LIMIT,
            fitted(x as int, y as int, f.min as int, f, discs@) == fitted(
                x as int,
                y as int,
                r as int,
                f,
                discs@,
            ),
        invariant
            frame_ok(f),
            -FACTOR_LIMIT <= x <= FACTOR_LIMIT,
            -FACTOR_LIMIT <= y <= FACTOR_LIMIT,
            forall|i: int| 0 <= i < discs@.len() ==> disc_ok(#[trigger] discs@[i]),
        ensures
            r == fitted(x as int, y as int, f.min as int, f, discs@),
            -2 * FACTOR_LIMIT <= r <= 2 * FACTOR_LIMIT,
        decreases room_to_grow(r as int, f),
    {
        if has_collision(x, y, r, f, discs) {
            r = r - f.unit;
            break;
        }
        r = r + f.unit;
    }
    r
}

/// Circles round the centres `centers`, placed one after the other. A
/// circle starts with the radius `radii.0` and grows by one whole at a time
/// while it is less than `radii.1` and has room on the canvas of the size
/// `size` beside the circles placed before; a centre where even the
/// smallest circle has no room gets none. The circle of centre `i` is
/// filled with the colour `fill[i].0` at the opacity `fill[i].1`; all are
/// stroked with the colour `stroke.0`, the width `stroke.1` and the opacity
/// `stroke.2`. Centres, radii and size are rational numbers over one common
/// denominator.
pub fn circle_packing<'a>(
    centers: &[(Scalar, Scalar)],
    radii: (Scalar, Scalar),
    size: (Scalar, Scalar),
    fill: &[(&'a str, Scalar)],
    stroke: (&'a str, Scalar, Scalar),
    background_color: &'a str,
) -> (r: Drawing<'a>)
    requires
        over(size.0, size.0.den as int),
        over(size.1, size.0.den as int),
        over(radii.0, size.0.den as int),
        over(radii.1, size.0.den as int),
        forall|i: int|
            0 <= i < centers@.len() ==> over((#[trigger] centers@[i]).0, size.0.den as int) && over(
                centers@[i].1,
                size.0.den as int,
            ),
        fill@.len() == centers@.len(),
    ensures
        r@ == circle_packing_drawing(centers@, radii, size, fill@, stroke, background_color),
{
    let f = Frame {
        width: size.0.num,
        height: size.1.num,
        min: radii.0.num,
        max: radii.1.num,
        unit: size.0.den,
    };
    let mut discs: Vec<Disc> = Vec::new();
    let mut shapes: Vec<Shape<'a>> = Vec::new();
    push_backdrop(&mut shapes, background_color);
    assert(views(shapes@) =~= seq![backdrop(background_color)] + collect(
        0,
        |i: int| packing_step(centers@, frame_of(radii, size), fill@, stroke, i),
    ));
    let mut i: usize = 0;
    while i < centers.len()
        invariant
            0 <= i <= centers@.len(),
            f == frame_of(radii, size),
            frame_ok(f),
            forall|k: int|
                0 <= k < centers@.len() ==> over((#[trigger] centers@[k]).0, size.0.den as int)
                    && over(centers@[k].1, size.0.den as int),
            fill@.len() == centers@.len(),
            discs@ == packed(centers@, f, i as int),
            forall|k: int| 0 <= k < discs@.len() ==> disc_ok(#[trigger] discs@[k]),
            views(shapes@) == seq![backdrop(background_color)] + collect(
                i as nat,
                |i: int| packing_step(centers@, frame_of(radii, size), fill@, stroke, i),
            ),
        decreases centers@.len() - i,
    {
        let ghost before = views(shapes@);
        let center = centers[i];
        assert(over(centers@[i as int].0, size.0.den as int));
        let x = center.0.num;
        let y = center.1.num;
        if !has_collision(x, y, f.min, f, &discs) {
            let r = fit_radius(x, y, f, &discs);
            let paint = fill[i];
            discs.push(Disc { x, y, r });
            let mut p: Vec<Piece> = Vec::new();
            put_number(&mut p, "cx", Scalar::ratio(x, f.unit));
            put_number(&mut p, "cy", Scalar::ratio(y, f.unit));
            put_number(&mut p, "r", Scalar::ratio(r, f.unit));
            put_text(&mut p, "fill", paint.0);
            put_number(&mut p, "fill-opacity", paint.1);
            put_text(&mut p, "stroke", stroke.0);
            put_number(&mut p, "stroke-width", stroke.1);
            put_number(&mut p, "stroke-opacity", stroke.2);
            push_shape(&mut shapes, Tag::Circle, p);
        }
        assert(views(shapes@) =~= before + packing_step(centers@, f, fill@, stroke, i as int));
        i = i + 1;
    }
    Drawing { width: size.0, height: size.1, shapes }
}

} // verus!
