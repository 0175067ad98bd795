//! A canvas split into rectangles along given lines.

use vstd::prelude::*;
use crate::scalar::{Scalar, FACTOR_LIMIT};
use crate::shape::{
    collect, push_shape, put_number, put_text, views, with_number, with_text, Drawing,
    DrawingView, Piece, Shape, ShapeView, Tag,
};
use crate::shapes::{backdrop, over, push_backdrop};

verus! {

/// The axis along which a split is made.
#[derive(Debug, Clone, Copy, PartialEq, Eq, Structural)]
pub enum PietMondrianSplitType {
    /// Along the vertical line at the given `x`.
    X,
    /// Along the horizontal line at the given `y`.
    Y,
}

/// A rectangle of the canvas, in parts of the common denominator.
#[derive(Debug, Clone, Copy, PartialEq, Eq, Structural)]
pub struct Pane {
    pub x: i64,
    pub y: i64,
    pub w: i64,
    pub h: i64,
}

/// The edges of a pane lie within the limit of lengths that are added up.
pub open spec fn pane_ok(p: Pane) -> bool {
    &&& -FACTOR_LIMIT <= p.x <= FACTOR_LIMIT
    &&& -FACTOR_LIMIT <= p.y <= FACTOR_LIMIT
    &&& -FACTOR_LIMIT <= p.x + p.w <= FACTOR_LIMIT
    &&& -FACTOR_LIMIT <= p.y + p.h <= FACTOR_LIMIT
}

/// What a split makes of one pane: the two parts where the line runs
/// through the inside of the pane, the pane itself elsewhere.
pub open spec fn split_pane(p: Pane, kind: PietMondrianSplitType, at: int) -> Seq<Pane> {
    match kind {
        PietMondrianSplitType::X => if p.x < at && p.x + p.w > at {
            seq![
                Pane { x: p.x, y: p.y, w: (at - p.x) as i64, h: p.h },
                Pane { x: at as i64, y: p.y, w: (p.x + p.w - at) as i64, h: p.h },
            ]
        } else {
            seq![p]
        },
        PietMondrianSplitType::Y => if p.y < at && p.y + p.h > at {
            seq![
                Pane { x: p.x, y: p.y, w: p.w, h: (at - p.y) as i64 },
                Pane { x: p.x, y: at as i64, w: p.w, h: (p.y + p.h - at) as i64 },
            ]
        } else {
            seq![p]
        },
    }
}

/// What a split makes of the first `n` panes of a list: each pane split in
/// its place.
pub open spec fn split_prefix(
    panes: Seq<Pane>,
    kind: PietMondrianSplitType,
    at: int,
    n: nat,
) -> Seq<Pane> {
    collect(n, |i: int| split_pane(panes[i], kind, at))
}

/// What a split makes of a list of panes.
pub open spec fn split_panes(panes: Seq<Pane>, kind: PietMondrianSplitType, at: int) -> Seq<Pane> {
    split_prefix(panes, kind, at, panes.len())
}

/// The panes after the first `n` splits of a canvas of the size `size`.
pub open spec fn mondrian_panes(
    splits: Seq<(PietMondrianSplitType, Scalar)>,
    size: (Scalar, Scalar),
    n: int,
) -> Seq<Pane>
    decreases n,
{
    if n <= 0 {
        seq![Pane { x: 0, y: 0, w: size.0.num, h: size.1.num }]
    } else {
        split_panes(
            mondrian_panes(splits, size, n - 1),
            splits[n - 1].0,
            splits[n - 1].1.num as int,
        )
    }
}

/// The rectangle of a pane.
pub open spec fn mondrian_rectangle<'a>(
    pane: Pane,
    unit: int,
    paint: (&'a str, Scalar),
    stroke: (&'a str, Scalar, Scalar),
) -> ShapeView<'a> {
    let p = Seq::<Piece>::empty();
    let p = with_number(p, "x", Scalar::spec_ratio(pane.x as int, unit));
    let p = with_number(p, "y", Scalar::spec_ratio(pane.y as int, unit));
    let p = with_number(p, "width", Scalar::spec_ratio(pane.w as int, unit));
    let p = with_number(p, "height", Scalar::spec_ratio(pane.h as int, unit));
    let p = with_text(p, "fill", paint.0);
    let p = with_number(p, "fill-opacity", paint.1);
    let p = with_text(p, "stroke", stroke.0);
    let p = with_number(p, "stroke-width", stroke.1);
    let p = with_number(p, "stroke-opacity", stroke.2);
    ShapeView { tag: Tag::Rectangle, pieces: p }
}

/// The whole drawing: the canvas, the background, and the rectangles of the
/// panes after all splits, in the order of the panes.
pub open spec fn piet_mondrian_drawing<'a>(
    splits: Seq<(PietMondrianSplitType, Scalar)>,
    size: (Scalar, Scalar),
    fill: Seq<(&'a str, Scalar)>,
    stroke: (&'a str, Scalar, Scalar),
    background_color: &'a str,
) -> DrawingView<'a> {
    DrawingView {
        width: size.0,
        height: size.1,
        shapes: seq![backdrop(background_color)] + collect(
            mondrian_panes(splits, size, splits.len() as int).len(),
            |i: int|
                seq![
                    mondrian_rectangle(
                        mondrian_panes(splits, size, splits.len() as int)[i],
                        size.0.den as int,
                        fill[i],
                        stroke,
                    ),
                ],
        ),
    }
}

/// Splitting keeps the edges of the panes where they were or puts them on
/// the line of the split.
proof fn lemma_split_keeps_edges(panes: Seq<Pane>, kind: PietMondrianSplitType, at: int, n: nat)
    requires
        n <= panes.len(),
        -FACTOR_LIMIT <= at <= FACTOR_LIMIT,
        forall|i: int| 0 <= i < panes.len() ==> pane_ok(#[trigger] panes[i]),
    ensures
        forall|i: int|
            0 <= i < split_prefix(panes, kind, at, n).len() ==> pane_ok(
                #[trigger] split_prefix(panes, kind, at, n)[i],
            ),
    decreases n,
{
    if n > 0 {
        lemma_split_keeps_edges(panes, kind, at, (n - 1) as nat);
        let front = split_prefix(panes, kind, at, (n - 1) as nat);
        let last = split_pane(panes[n - 1], kind, at);
        assert(split_prefix(panes, kind, at, n) == front + last);
        assert(pane_ok(panes[n - 1]));
        assert forall|i: int| 0 <= i < last.len() implies pane_ok(#[trigger] last[i]) by {}
        assert forall|i: int| 0 <= i < (front + last).len() implies pane_ok(
            #[trigger] (front + last)[i],
        ) by {
            if i < front.len() {
                assert((front + last)[i] == front[i]);
            } else {
                assert((front + last)[i] == last[i - front.len()]);
            }
        }
    } else {
        assert(split_prefix(panes, kind, at, n) =~= Seq::<Pane>::empty());
    }
}

/// Splits every pane of a list.
fn split(panes: &Vec<Pane>, kind: PietMondrianSplitType, at: i64) -> (next: Vec<Pane>)
    requires
        -FACTOR_LIMIT <= at <= FACTOR_LIMIT,
        forall|i: int| 0 <= i < panes@.len() ==> pane_ok(#[trigger] panes@[i]),
    ensures
        next@ == split_panes(panes@, kind, at as int),
        forall|i: int| 0 <= i < next@.len() ==> pane_ok(#[trigger] next@[i]),
{
    let mut next: Vec<Pane> = Vec::new();
    let mut i: usize = 0;
    while i < panes.len()
        invariant
            0 <= i <= panes@.len(),
            -FACTOR_LIMIT <= at <= FACTOR_LIMIT,
            forall|k: int| 0 <= k < panes@.len() ==> pane_ok(#[trigger] panes@[k]),
            next@ == split_prefix(panes@, kind, at as int, i as nat),
        decreases panes@.len() - i,
    {
        let ghost before = next@;
        let p = panes[i];
        assert(pane_ok(p));
        match kind {
            PietMondrianSplitType::X => {
                if p.x < at && p.x + p.w > at {
                    next.push(Pane { x: p.x, y: p.y, w: at - p.x, h: p.h });
                    next.push(Pane { x: at, y: p.y, w: p.x + p.w - at, h: p.h });
                } else {
                    next.push(p);
                }
            },
            PietMondrianSplitType::Y => {
                if p.y < at && p.y + p.h > at {
                    next.push(Pane { x: p.x, y: p.y, w: p.w, h: at - p.y });
                    next.push(Pane { x: p.x, y: at, w: p.w, h: p.y + p.h - at });
                } else {
                    next.push(p);
                }
            },
        }
        assert(next@ =~= before + split_pane(p, kind, at as int));
        i = i + 1;
    }
    proof {
        lemma_split_keeps_edges(panes@, kind, at as int, panes@.len());
    }
    next
}

/// The panes that the splits make of a canvas of the size `size`. Their
/// number is the number of paints that `piet_mondrian` asks for.
pub fn panes_of(splits: &[(PietMondrianSplitType, Scalar)], size: (Scalar, Scalar)) -> (panes: Vec<
    Pane,
>)
    requires
        over(size.0, size.0.den as int),
        over(size.1, size.0.den as int),
        forall|i: int| 0 <= i < splits@.len() ==> over(
            (#[trigger] splits@[i]).1,
            size.0.den as int,
        ),
    ensures
        panes@ == mondrian_panes(splits@, size, splits@.len() as int),
{
    let mut panes: Vec<Pane> = Vec::new();
    panes.push(Pane { x: 0, y: 0, w: size.0.num, h: size.1.num });
    let mut s: usize = 0;
    while s < splits.len()
        invariant
            0 <= s <= splits@.len(),
            over(size.0, size.0.den as int),
            over(size.1, size.0.den as int),
            forall|i: int|
                0 <= i < splits@.len() ==> over((#[trigger] splits@[i]).1, size.0.den as int),
            panes@ == mondrian_panes(splits@, size, s as int),
            forall|i: int| 0 <= i < panes@.len() ==> pane_ok(#[trigger] panes@[i]),
        decreases splits@.len() - s,
    {
        let line = splits[s];
        assert(over(splits@[s as int].1, size.0.den as int));
        panes = split(&panes, line.0, line.1.num);
        s = s + 1;
    }
    panes
}

/// A canvas of the size `size`, split one line after the other: a split
/// `(X, x)` cuts every pane that the vertical line at `x` runs through the
/// inside of, a split `(Y, y)` does the same with the horizontal line at
/// `y`. Pane `i` of the result is filled with the colour `fill[i].0` at the
/// opacity `fill[i].1`; all are stroked with the colour `stroke.0`, the
/// width `stroke.1` and the opacity `stroke.2`. The size and the lines are
/// rational numbers over one common denominator.
pub fn piet_mondrian<'a>(
    splits: &[(PietMondrianSplitType, Scalar)],
    size: (Scalar, Scalar),
    fill: &[(&'a str, Scalar)],
    stroke: (&'a str, Scalar, Scalar),
    background_color: &'a str,
) -> (r: Drawing<'a>)
    requires
        over(size.0, size.0.den as int),
        over(size.1, size.0.den as int),
        forall|i: int| 0 <= i < splits@.len() ==> over(
            (#[trigger] splits@[i]).1,
            size.0.den as int,
        ),
        fill@.len() == mondrian_panes(splits@, size, splits@.len() as int).len(),
    ensures
        r@ == piet_mondrian_drawing(splits@, size, fill@, stroke, background_color),
{
    let unit = size.0.den;
    let panes = panes_of(splits, size);
    let mut shapes: Vec<Shape<'a>> = Vec::new();
    push_backdrop(&mut shapes, background_color);
    assert(views(shapes@) =~= seq![backdrop(background_color)] + collect(
        0,
        |i: int|
            seq![
                mondrian_rectangle(
                    mondrian_panes(splits@, size, splits@.len() as int)[i],
                    size.0.den as int,
                    fill@[i],
                    stroke,
                ),
            ],
    ));
    let mut i: usize = 0;
    while i < panes.len()
        invariant
            0 <= i <= panes@.len(),
            unit == size.0.den,
            0 < unit,
            panes@ == mondrian_panes(splits@, size, splits@.len() as int),
            fill@.len() == panes@.len(),
            views(shapes@) == seq![backdrop(background_color)] + collect(
                i as nat,
                |i: int|
                    seq![
                        mondrian_rectangle(
                            mondrian_panes(splits@, size, splits@.len() as int)[i],
                            size.0.den as int,
                            fill@[i],
                            stroke,
                        ),
                    ],
            ),
        decreases panes@.len() - i,
    {
        let ghost before = views(shapes@);
        let pane = panes[i];
        let paint = fill[i];
        let mut p: Vec<Piece> = Vec::new();
        put_number(&mut p, "x", Scalar::ratio(pane.x, unit));
        put_number(&mut p, "y", Scalar::ratio(pane.y, unit));
        put_number(&mut p, "width", Scalar::ratio(pane.w, unit));
        put_number(&mut p, "height", Scalar::ratio(pane.h, unit));
        put_text(&mut p, "fill", paint.0);
        put_number(&mut p, "fill-opacity", paint.1);
        put_text(&mut p, "stroke", stroke.0);
        put_number(&mut p, "stroke-width", stroke.1);
        put_number(&mut p, "stroke-opacity", stroke.2);
        push_shape(&mut shapes, Tag::Rectangle, p);
        assert(views(shapes@) =~= before + seq![
            mondrian_rectangle(pane, size.0.den as int, paint, stroke),
        ]);
        i = i + 1;
    }
    Drawing { width: size.0, height: size.1, shapes }
}

} // verus!
