//! Crossing stripes at given distances and of given sizes.

use vstd::prelude::*;
use crate::scalar::Scalar;
use crate::shape::{
    collect, push_shape, put_number, put_text, views, with_number, with_text, Drawing,
    DrawingView, Piece, Shape, ShapeView, Tag,
};
use crate::shapes::{backdrop, over, push_backdrop, GRID_LIMIT};

verus! {

/// The denominator that all distances and sizes of a plaid share: that of
/// the first distance, or 1 where there is no stripe.
pub open spec fn plaid_unit(distances: Seq<Scalar>) -> int {
    if distances.len() == 0 {
        1
    } else {
        distances[0].den as int
    }
}

/// Where stripe `k - 1` ends, in parts of the common denominator: the sum
/// of the distances and sizes of the stripes before stripe `k`.
pub open spec fn plaid_end(distances: Seq<Scalar>, sizes: Seq<Scalar>, k: int) -> int
    decreases k,
{
    if k <= 0 {
        0
    } else {
        plaid_end(distances, sizes, k - 1) + distances[k - 1].num + sizes[k - 1].num
    }
}

/// Where stripe `k` begins: its distance after the end of the stripe before.
pub open spec fn plaid_start(distances: Seq<Scalar>, sizes: Seq<Scalar>, k: int) -> Scalar {
    Scalar::spec_ratio(plaid_end(distances, sizes, k) + distances[k].num, plaid_unit(distances))
}

/// Horizontal stripe `k`: as wide as the canvas and as high as its size.
pub open spec fn plaid_band<'a>(
    distances: Seq<Scalar>,
    sizes: Seq<Scalar>,
    fill: Seq<(&'a str, Scalar)>,
    k: int,
) -> ShapeView<'a> {
    let p = Seq::<Piece>::empty();
    let p = with_number(p, "x", Scalar::spec_whole(0));
    let p = with_number(p, "y", plaid_start(distances, sizes, k));
    let p = with_text(p, "width", "100%");
    let p = with_number(p, "height", sizes[k]);
    let p = with_number(p, "opacity", fill[k].1);
    let p = with_text(p, "fill", fill[k].0);
    ShapeView { tag: Tag::Rectangle, pieces: p }
}

/// Vertical stripe `k`: as high as the canvas and as wide as its size.
pub open spec fn plaid_bar<'a>(
    distances: Seq<Scalar>,
    sizes: Seq<Scalar>,
    fill: Seq<(&'a str, Scalar)>,
    k: int,
) -> ShapeView<'a> {
    let p = Seq::<Piece>::empty();
    let p = with_number(p, "x", plaid_start(distances, sizes, k));
    let p = with_number(p, "y", Scalar::spec_whole(0));
    let p = with_number(p, "width", sizes[k]);
    let p = with_text(p, "height", "100%");
    let p = with_number(p, "opacity", fill[k].1);
    let p = with_text(p, "fill", fill[k].0);
    ShapeView { tag: Tag::Rectangle, pieces: p }
}

/// The whole drawing: the background, the horizontal stripes from the top
/// down, then the vertical ones from the left, on a canvas that ends where
/// the last stripe ends.
pub open spec fn plaid_drawing<'a>(
    distances: Seq<Scalar>,
    sizes: Seq<Scalar>,
    fill: Seq<(&'a str, Scalar)>,
    background_color: &'a str,
) -> DrawingView<'a> {
    let end = Scalar::spec_ratio(
        plaid_end(distances, sizes, distances.len() as int),
        plaid_unit(distances),
    );
    DrawingView {
        width: end,
        height: end,
        shapes: seq![backdrop(background_color)] + collect(
            distances.len(),
            |k: int| seq![plaid_band(distances, sizes, fill, k)],
        ) + collect(distances.len(), |k: int| seq![plaid_bar(distances, sizes, fill, k)]),
    }
}

/// Stripes across and down the canvas. Stripe `i` lies `distances[i]` after
/// the stripe before, is `sizes[i]` thick and is filled with the colour
/// `fill[i].0` at the opacity `fill[i].1`. All distances and sizes are
/// rational numbers over one common denominator.
pub fn plaid<'a>(
    distances: &[Scalar],
    sizes: &[Scalar],
    fill: &[(&'a str, Scalar)],
    background_color: &'a str,
) -> (r: Drawing<'a>)
    requires
        distances@.len() <= GRID_LIMIT,
        sizes@.len() == distances@.len(),
        fill@.len() == distances@.len(),
        forall|i: int|
            0 <= i < distances@.len() ==> over(#[trigger] distances@[i], plaid_unit(distances@)),
        forall|i: int| 0 <= i < sizes@.len() ==> over(#[trigger] sizes@[i], plaid_unit(distances@)),
    ensures
        r@ == plaid_drawing(distances@, sizes@, fill@, background_color),
{
    let n = distances.len();
    let unit: i64 = if n == 0 {
        1
    } else {
        distances[0].den
    };
    let mut shapes: Vec<Shape<'a>> = Vec::new();
    push_backdrop(&mut shapes, background_color);
    let ghost start = views(shapes@);
    assert(start =~= seq![backdrop(background_color)]);
    let mut end: i64 = 0;
    let mut k: usize = 0;
    while k < n
        invariant
            0 <= k <= n,
            n == distances@.len(),
            n <= GRID_LIMIT,
            sizes@.len() == n,
            fill@.len() == n,
            unit == plaid_unit(distances@),
            unit > 0,
            forall|i: int| 0 <= i < n ==> over(#[trigger] distances@[i], unit as int),
            forall|i: int| 0 <= i < n ==> over(#[trigger] sizes@[i], unit as int),
            end == plaid_end(distances@, sizes@, k as int),
            -2_097_152 * k <= end <= 2_097_152 * k,
            views(shapes@) == start + collect(
                k as nat,
                |k: int| seq![plaid_band(distances@, sizes@, fill@, k)],
            ),
        decreases n - k,
    {
        let ghost before = views(shapes@);
        assert(over(distances@[k as int], unit as int));
        assert(over(sizes@[k as int], unit as int));
        let begin: i64 = end + distances[k].num;
        let paint = fill[k];
        let mut p: Vec<Piece> = Vec::new();
        put_number(&mut p, "x", Scalar::whole(0));
        put_number(&mut p, "y", Scalar::ratio(begin, unit));
        put_text(&mut p, "width", "100%");
        put_number(&mut p, "height", sizes[k]);
        put_number(&mut p, "opacity", paint.1);
        put_text(&mut p, "fill", paint.0);
        push_shape(&mut shapes, Tag::Rectangle, p);
        assert(views(shapes@) =~= before + seq![plaid_band(distances@, sizes@, fill@, k as int)]);
        end = begin + sizes[k].num;
        k = k + 1;
    }
    let ghost bands = views(shapes@);
    let height = Scalar::ratio(end, unit);
    let mut end: i64 = 0;
    let mut k: usize = 0;
    while k < n
        invariant
            0 <= k <= n,
            n == distances@.len(),
            n <= GRID_LIMIT,
            sizes@.len() == n,
            fill@.len() == n,
            unit == plaid_unit(distances@),
            unit > 0,
            forall|i: int| 0 <= i < n ==> over(#[trigger] distances@[i], unit as int),
            forall|i: int| 0 <= i < n ==> over(#[trigger] sizes@[i], unit as int),
            end == plaid_end(distances@, sizes@, k as int),
            -2_097_152 * k <= end <= 2_097_152 * k,
            views(shapes@) == bands + collect(
                k as nat,
                |k: int| seq![plaid_bar(distances@, sizes@, fill@, k)],
            ),
        decreases n - k,
    {
        let ghost before = views(shapes@);
        assert(over(distances@[k as int], unit as int));
        assert(over(sizes@[k as int], unit as int));
        let begin: i64 = end + distances[k].num;
        let paint = fill[k];
        let mut p: Vec<Piece> = Vec::new();
        put_number(&mut p, "x", Scalar::ratio(begin, unit));
        put_number(&mut p, "y", Scalar::whole(0));
        put_number(&mut p, "width", sizes[k]);
        put_text(&mut p, "height", "100%");
        put_number(&mut p, "opacity", paint.1);
        put_text(&mut p, "fill", paint.0);
        push_shape(&mut shapes, Tag::Rectangle, p);
        assert(views(shapes@) =~= before + seq![plaid_bar(distances@, sizes@, fill@, k as int)]);
        end = begin + sizes[k].num;
        k = k + 1;
    }
    Drawing { width: Scalar::ratio(end, unit), height, shapes }
}

} // verus!
