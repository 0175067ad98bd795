//! Stacked wavy lines.

use vstd::prelude::*;
use crate::scalar::{FACTOR_LIMIT, Scalar};
use crate::shape::{
    collect, push_shape, put_number, put_text, views, with_number, with_text, Drawing,
    DrawingView, Piece, Shape, ShapeView, Tag,
};
use crate::shapes::{backdrop, lemma_cell_index, push_backdrop, GRID_LIMIT};
use crate::tiling::{tile, tiling, Emission, Wrap};

verus! {

/// The two drawings of one wave: a curve through one and a half periods,
/// a quarter period left of the canvas and one and a half amplitudes above
/// its line, lines being one stroke apart; and the same curve as many lines
/// further down as there are waves.
pub open spec fn sine_waves_cell<'a>(
    period: Scalar,
    a: Scalar,
    ww: Scalar,
    stroke: Seq<(&'a str, Scalar)>,
    e: Emission,
) -> Seq<ShapeView<'a>> {
    let count = stroke.len() as int;
    let paint = stroke[e.y as int];
    let line = e.y as int;
    let p = Seq::<Piece>::empty();
    let p = p
        .push(Piece::Key("d"))
        .push(Piece::Text("M0 "))
        .push(Piece::Number(a))
        .push(Piece::Text(" C "))
        .push(Piece::Number(period.spec_times(7, 0, 40)))
        .push(Piece::Text(" 0, "))
        .push(Piece::Number(period.spec_times(13, 0, 40)))
        .push(Piece::Text(" 0, "))
        .push(Piece::Number(period.spec_times(1, 0, 2)))
        .push(Piece::Text(" "))
        .push(Piece::Number(a))
        .push(Piece::Text(" S "))
        .push(Piece::Number(period.spec_times(33, 0, 40)))
        .push(Piece::Text(" "))
        .push(Piece::Number(a.spec_times(2, 0, 1)))
        .push(Piece::Text(", "))
        .push(Piece::Number(period))
        .push(Piece::Text(" "))
        .push(Piece::Number(a))
        .push(Piece::Text(" S "))
        .push(Piece::Number(period.spec_times(53, 0, 40)))
        .push(Piece::Text(" 0, "))
        .push(Piece::Number(period.spec_times(3, 0, 2)))
        .push(Piece::Text(", "))
        .push(Piece::Number(a));
    let p = with_text(p, "fill", "none");
    let p = with_text(p, "stroke", paint.0);
    let p = with_number(p, "stroke-opacity", paint.1);
    let p = with_number(p, "stroke-width", ww);
    let p = p
        .push(Piece::Key("transform"))
        .push(Piece::Text("translate(-"))
        .push(Piece::Number(period.spec_times(1, 0, 4)))
        .push(Piece::Text(", "))
        .push(Piece::Number(Scalar::spec_blend(ww, 2 * (line), a, -3, 2)))
        .push(Piece::Text(")"));
    let upper = ShapeView { tag: Tag::Path, pieces: p };
    let p = Seq::<Piece>::empty();
    let p = p
        .push(Piece::Key("d"))
        .push(Piece::Text("M0 "))
        .push(Piece::Number(a))
        .push(Piece::Text(" C "))
        .push(Piece::Number(period.spec_times(7, 0, 40)))
        .push(Piece::Text(" 0, "))
        .push(Piece::Number(period.spec_times(13, 0, 40)))
        .push(Piece::Text(" 0, "))
        .push(Piece::Number(period.spec_times(1, 0, 2)))
        .push(Piece::Text(" "))
        .push(Piece::Number(a))
        .push(Piece::Text(" S "))
        .push(Piece::Number(period.spec_times(33, 0, 40)))
        .push(Piece::Text(" "))
        .push(Piece::Number(a.spec_times(2, 0, 1)))
        .push(Piece::Text(", "))
        .push(Piece::Number(period))
        .push(Piece::Text(" "))
        .push(Piece::Number(a))
        .push(Piece::Text(" S "))
        .push(Piece::Number(period.spec_times(53, 0, 40)))
        .push(Piece::Text(" 0, "))
        .push(Piece::Number(period.spec_times(3, 0, 2)))
        .push(Piece::Text(", "))
        .push(Piece::Number(a));
    let p = with_text(p, "fill", "none");
    let p = with_text(p, "stroke", paint.0);
    let p = with_number(p, "stroke-opacity", paint.1);
    let p = with_number(p, "stroke-width", ww);
    let p = p
        .push(Piece::Key("transform"))
        .push(Piece::Text("translate(-"))
        .push(Piece::Number(period.spec_times(1, 0, 4)))
        .push(Piece::Text(", "))
        .push(Piece::Number(Scalar::spec_blend(ww, 2 * (line + count), a, -3, 2)))
        .push(Piece::Text(")"));
    let lower = ShapeView { tag: Tag::Path, pieces: p };
    seq![upper, lower]
}

/// The whole drawing: a canvas one period wide and one stroke high for each
/// wave, the background, and the two drawings of each wave.
pub open spec fn sine_waves_drawing<'a>(
    period: Scalar,
    a: Scalar,
    ww: Scalar,
    stroke: Seq<(&'a str, Scalar)>,
    background_color: &'a str,
) -> DrawingView<'a> {
    let count = stroke.len() as int;
    DrawingView {
        width: period,
        height: ww.spec_times(count, 0, 1),
        shapes: seq![backdrop(background_color)] + collect(
            tiling(1, stroke.len() as int, Wrap::Neither).len(),
            |k: int| sine_waves_cell(
                period,
                a,
                ww,
                stroke,
                tiling(1, stroke.len() as int, Wrap::Neither)[k],
            ),
        ),
    }
}

/// Waves with the period `period`, the amplitude `a` and the stroke `ww`.
/// Wave `i` is stroked with the colour `stroke[i].0` at the opacity
/// `stroke[i].1`.
pub fn sine_waves<'a>(
    period: Scalar,
    a: Scalar,
    ww: Scalar,
    stroke: &[(&'a str, Scalar)],
    background_color: &'a str,
) -> (r: Drawing<'a>)
    requires
        period.within(FACTOR_LIMIT as int),
        a.within(FACTOR_LIMIT as int),
        ww.within(FACTOR_LIMIT as int),
        stroke@.len() <= GRID_LIMIT,
    ensures
        r@ == sine_waves_drawing(period, a, ww, stroke@, background_color),
{
    let n = stroke.len();
    let count = n as i64;
    let canvas_width = period;
    let canvas_height = ww.times(count, 0, 1);
    let cells = tile(1usize, n, Wrap::Neither);
    let mut shapes: Vec<Shape<'a>> = Vec::new();
    push_backdrop(&mut shapes, background_color);
    assert(views(shapes@) =~= seq![backdrop(background_color)] + collect(
        0,
        |k: int| sine_waves_cell(
            period,
            a,
            ww,
            stroke@,
            tiling(1usize as int, n as int, Wrap::Neither)[k],
        ),
    ));
    let mut j: usize = 0;
    while j < cells.len()
        invariant
            0 <= j <= cells@.len(),
            cells@ == tiling(1usize as int, n as int, Wrap::Neither),
            forall|k: int|
                0 <= k < cells@.len() ==> (#[trigger] cells@[k]).x < 1usize && cells@[k].y < n,
            period.within(FACTOR_LIMIT as int),
            a.within(FACTOR_LIMIT as int),
            ww.within(FACTOR_LIMIT as int),
            n == stroke@.len(),
            n <= GRID_LIMIT,
            count == n,
            views(shapes@) == seq![backdrop(background_color)] + collect(
                j as nat,
                |k: int| sine_waves_cell(
                    period,
                    a,
                    ww,
                    stroke@,
                    tiling(1usize as int, n as int, Wrap::Neither)[k],
                ),
            ),
        decreases cells@.len() - j,
    {
        let ghost before = views(shapes@);
        let e = cells[j];
        proof {
            lemma_cell_index(e.x as int, e.y as int, 1usize as int, n as int);
        }
        let paint = stroke[e.y];
        let line = e.y as i64;
        let mut p: Vec<Piece> = Vec::new();
        p.push(Piece::Key("d"));
        p.push(Piece::Text("M0 "));
        p.push(Piece::Number(a));
        p.push(Piece::Text(" C "));
        p.push(Piece::Number(period.times(7, 0, 40)));
        p.push(Piece::Text(" 0, "));
        p.push(Piece::Number(period.times(13, 0, 40)));
        p.push(Piece::Text(" 0, "));
        p.push(Piece::Number(period.times(1, 0, 2)));
        p.push(Piece::Text(" "));
        p.push(Piece::Number(a));
        p.push(Piece::Text(" S "));
        p.push(Piece::Number(period.times(33, 0, 40)));
        p.push(Piece::Text(" "));
        p.push(Piece::Number(a.times(2, 0, 1)));
        p.push(Piece::Text(", "));
        p.push(Piece::Number(period));
        p.push(Piece::Text(" "));
        p.push(Piece::Number(a));
        p.push(Piece::Text(" S "));
        p.push(Piece::Number(period.times(53, 0, 40)));
        p.push(Piece::Text(" 0, "));
        p.push(Piece::Number(period.times(3, 0, 2)));
        p.push(Piece::Text(", "));
        p.push(Piece::Number(a));
        put_text(&mut p, "fill", "none");
        put_text(&mut p, "stroke", paint.0);
        put_number(&mut p, "stroke-opacity", paint.1);
        put_number(&mut p, "stroke-width", ww);
        p.push(Piece::Key("transform"));
        p.push(Piece::Text("translate(-"));
        p.push(Piece::Number(period.times(1, 0, 4)));
        p.push(Piece::Text(", "));
        p.push(Piece::Number(Scalar::blend(ww, 2 * (line), a, -3, 2)));
        p.push(Piece::Text(")"));
        push_shape(&mut shapes, Tag::Path, p);
        let mut p: Vec<Piece> = Vec::new();
        p.push(Piece::Key("d"));
        p.push(Piece::Text("M0 "));
        p.push(Piece::Number(a));
        p.push(Piece::Text(" C "));
        p.push(Piece::Number(period.times(7, 0, 40)));
        p.push(Piece::Text(" 0, "));
        p.push(Piece::Number(period.times(13, 0, 40)));
        p.push(Piece::Text(" 0, "));
        p.push(Piece::Number(period.times(1, 0, 2)));
        p.push(Piece::Text(" "));
        p.push(Piece::Number(a));
        p.push(Piece::Text(" S "));
        p.push(Piece::Number(period.times(33, 0, 40)));
        p.push(Piece::Text(" "));
        p.push(Piece::Number(a.times(2, 0, 1)));
        p.push(Piece::Text(", "));
        p.push(Piece::Number(period));
        p.push(Piece::Text(" "));
        p.push(Piece::Number(a));
        p.push(Piece::Text(" S "));
        p.push(Piece::Number(period.times(53, 0, 40)));
        p.push(Piece::Text(" 0, "));
        p.push(Piece::Number(period.times(3, 0, 2)));
        p.push(Piece::Text(", "));
        p.push(Piece::Number(a));
        put_text(&mut p, "fill", "none");
        put_text(&mut p, "stroke", paint.0);
        put_number(&mut p, "stroke-opacity", paint.1);
        put_number(&mut p, "stroke-width", ww);
        p.push(Piece::Key("transform"));
        p.push(Piece::Text("translate(-"));
        p.push(Piece::Number(period.times(1, 0, 4)));
        p.push(Piece::Text(", "));
        p.push(Piece::Number(Scalar::blend(ww, 2 * (line + count), a, -3, 2)));
        p.push(Piece::Text(")"));
        push_shape(&mut shapes, Tag::Path, p);
        assert(views(shapes@) =~= before + sine_waves_cell(period, a, ww, stroke@, e));
        j = j + 1;
    }
    Drawing { width: canvas_width, height: canvas_height, shapes }
}

} // verus!
