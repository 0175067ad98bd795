//! Stacked lines with pulses of given heights.

use vstd::prelude::*;
use crate::scalar::{lemma_product_bound, Scalar, FACTOR_LIMIT};
use crate::shape::{
    collect, push_shape, put_number, put_text, views, with_number, with_text, Drawing,
    DrawingView, Piece, Shape, ShapeView, Tag,
};
use crate::shapes::{backdrop, lemma_cell_index, over, push_backdrop, GRID_LIMIT};

verus! {

/// The number `num` of half parts of the common denominator `unit`.
pub open spec fn joy_half(num: int, unit: int) -> Scalar {
    Scalar::spec_ratio(num, 2 * unit)
}

/// Where line `y` rests, in half parts: `y + 1 + padding_top` steps down,
/// and half the width of the stroke further.
pub open spec fn joy_rest(
    step_size: Scalar,
    stroke_width: Scalar,
    padding_top: int,
    y: int,
) -> int {
    2 * ((y + 1 + padding_top) * step_size.num) + stroke_width.num
}

/// The height of the pulse before column `x` of line `y`, in parts; before
/// column 0 there is none.
pub open spec fn joy_before(pulse_heights: Seq<Scalar>, width: int, y: int, x: int) -> int {
    if x <= 0 {
        0
    } else {
        pulse_heights[y * width + x - 1].num as int
    }
}

/// `pieces`, then the curve through column `x` of line `y`: it bends at
/// the end of the column before and ends half way to the end of this
/// column, each end lowered by the pulse of its column.
pub open spec fn with_pulse<'a>(
    pieces: Seq<Piece<'a>>,
    step_size: Scalar,
    stroke_width: Scalar,
    pulse_heights: Seq<Scalar>,
    width: int,
    padding_top: int,
    y: int,
    x: int,
) -> Seq<Piece<'a>> {
    let unit = step_size.den as int;
    let rest = joy_rest(step_size, stroke_width, padding_top, y);
    let before = joy_before(pulse_heights, width, y, x);
    let here = pulse_heights[y * width + x].num;
    pieces.push(Piece::Text(" Q ")).push(Piece::Number(joy_half(
        2 * (x * step_size.num),
        unit,
    ))).push(
        Piece::Text(" "),
    ).push(Piece::Number(joy_half(rest + 2 * before, unit))).push(Piece::Text(" ")).push(
        Piece::Number(joy_half((2 * x + 1) * step_size.num, unit)),
    ).push(Piece::Text(" ")).push(Piece::Number(joy_half(rest + before + here, unit)))
}

/// The path of line `y` through its first `n` columns.
pub open spec fn joy_path<'a>(
    step_size: Scalar,
    stroke_width: Scalar,
    pulse_heights: Seq<Scalar>,
    width: int,
    padding_top: int,
    y: int,
    n: int,
) -> Seq<Piece<'a>>
    decreases n,
{
    if n <= 0 {
        Seq::<Piece>::empty().push(Piece::Key("d")).push(Piece::Text("M 0 ")).push(
            Piece::Number(
                joy_half(joy_rest(step_size, stroke_width, padding_top, y), step_size.den as int),
            ),
        )
    } else {
        with_pulse(
            joy_path(step_size, stroke_width, pulse_heights, width, padding_top, y, n - 1),
            step_size,
            stroke_width,
            pulse_heights,
            width,
            padding_top,
            y,
            n - 1,
        )
    }
}

/// Line `y`: its path through all columns and back to where it rests at
/// the right edge, filled with the background colour so that it hides the
/// lines above.
pub open spec fn joy_line<'a>(
    step_size: Scalar,
    width: int,
    pulse_heights: Seq<Scalar>,
    stroke: (&'a str, Scalar, Scalar),
    padding_top: int,
    background_color: &'a str,
    y: int,
) -> ShapeView<'a> {
    let unit = step_size.den as int;
    let rest = joy_rest(step_size, stroke.2, padding_top, y);
    let p = joy_path(step_size, stroke.2, pulse_heights, width, padding_top, y, width);
    let p = p.push(Piece::Text(" Q ")).push(
        Piece::Number(joy_half(2 * (width * step_size.num), unit)),
    ).push(Piece::Text(" ")).push(
        Piece::Number(joy_half(rest + 2 * joy_before(pulse_heights, width, y, width), unit)),
    ).push(Piece::Text(" ")).push(Piece::Number(joy_half(2 * (width * step_size.num), unit))).push(
        Piece::Text(" "),
    ).push(Piece::Number(joy_half(rest, unit)));
    let p = with_text(p, "fill", background_color);
    let p = with_text(p, "stroke", stroke.0);
    let p = with_number(p, "stroke-opacity", stroke.1);
    let p = with_number(p, "stroke-width", stroke.2);
    ShapeView { tag: Tag::Path, pieces: p }
}

/// The whole drawing: a canvas one step wide for each column and one step
/// high for each line, the padding and one more, the background, and the
/// lines from the top down.
pub open spec fn joy_division_drawing<'a>(
    step_size: Scalar,
    width: int,
    height: int,
    pulse_heights: Seq<Scalar>,
    stroke: (&'a str, Scalar, Scalar),
    padding_top: int,
    background_color: &'a str,
) -> DrawingView<'a> {
    DrawingView {
        width: step_size.spec_times(width, 0, 1),
        height: step_size.spec_times(height + 1 + padding_top, 0, 1),
        shapes: seq![backdrop(background_color)] + collect(
            height as nat,
            |y: int|
                seq![
                    joy_line(
                        step_size,
                        width,
                        pulse_heights,
                        stroke,
                        padding_top,
                        background_color,
                        y,
                    ),
                ],
        ),
    }
}

/// The number `num` of half parts of the common denominator `unit`.
fn half(num: i64, unit: i64) -> (r: Scalar)
    requires
        0 < unit <= FACTOR_LIMIT,
    ensures
        r == joy_half(num as int, unit as int),
{
    Scalar::ratio(num, 2 * unit)
}

/// Lines of `grid.0` columns each, `grid.1` of them, one `step_size` apart.
/// In column `x` of line `y` the line is lowered by
/// `pulse_heights[y * grid.0 + x]`. The lines are stroked with the colour
/// `stroke.0`, the opacity `stroke.1` and the width `stroke.2`. The step,
/// the width of the stroke and the pulses are rational numbers over one
/// common denominator.
pub fn joy_division<'a>(
    step_size: Scalar,
    grid: (usize, usize),
    pulse_heights: &[Scalar],
    stroke: (&'a str, Scalar, Scalar),
    padding_top: usize,
    background_color: &'a str,
) -> (r: Drawing<'a>)
    requires
        over(step_size, step_size.den as int),
        over(stroke.2, step_size.den as int),
        forall|i: int|
            0 <= i < pulse_heights@.len() ==> over(
                #[trigger] pulse_heights@[i],
                step_size.den as int,
            ),
        grid.0 <= GRID_LIMIT,
        grid.1 <= GRID_LIMIT,
        padding_top <= GRID_LIMIT,
        pulse_heights@.len() == grid.0 * grid.1,
    ensures
        r@ == joy_division_drawing(
            step_size,
            grid.0 as int,
            grid.1 as int,
            pulse_heights@,
            stroke,
            padding_top as int,
            background_color,
        ),
{
    let width = grid.0;
    let height = grid.1;
    let unit = step_size.den;
    let step = step_size.num;
    let canvas_width = step_size.times(width as i64, 0, 1);
    let canvas_height = step_size.times((height + 1 + padding_top) as i64, 0, 1);
    let mut shapes: Vec<Shape<'a>> = Vec::new();
    push_backdrop(&mut shapes, background_color);
    assert(views(shapes@) =~= seq![backdrop(background_color)] + collect(
        0,
        |y: int|
            seq![
                joy_line(
                    step_size,
                    width as int,
                    pulse_heights@,
                    stroke,
                    padding_top as int,
                    background_color,
                    y,
                ),
            ],
    ));
    let mut y: usize = 0;
    while y < height
        invariant
            0 <= y <= height,
            width <= GRID_LIMIT,
            height <= GRID_LIMIT,
            padding_top <= GRID_LIMIT,
            unit == step_size.den,
            step == step_size.num,
            over(step_size, unit as int),
            over(stroke.2, unit as int),
            forall|i: int| 0 <= i < pulse_heights@.len() ==> over(
                #[trigger] pulse_heights@[i],
                unit as int,
            ),
            pulse_heights@.len() == width * height,
            views(shapes@) == seq![backdrop(background_color)] + collect(
                y as nat,
                |y: int|
                    seq![
                        joy_line(
                            step_size,
                            width as int,
                            pulse_heights@,
                            stroke,
                            padding_top as int,
                            background_color,
                            y,
                        ),
                    ],
            ),
        decreases height - y,
    {
        let ghost before = views(shapes@);
        let rows: i64 = (y + 1 + padding_top) as i64;
        proof {
            lemma_product_bound(rows as int, step as int, 20_001, FACTOR_LIMIT as int);
        }
        let rest: i64 = 2 * (rows * step) + stroke.2.num;
        let mut p: Vec<Piece> = Vec::new();
        p.push(Piece::Key("d"));
        p.push(Piece::Text("M 0 "));
        p.push(Piece::Number(half(rest, unit)));
        let mut last: i64 = 0;
        let mut x: usize = 0;
        while x < width
            invariant
                0 <= x <= width,
                0 <= y < height,
                width <= GRID_LIMIT,
                height <= GRID_LIMIT,
                padding_top <= GRID_LIMIT,
                unit == step_size.den,
                step == step_size.num,
                0 < unit <= FACTOR_LIMIT,
                over(step_size, unit as int),
                over(stroke.2, unit as int),
                forall|i: int|
                    0 <= i < pulse_heights@.len() ==> over(
                        #[trigger] pulse_heights@[i],
                        unit as int,
                    ),
                pulse_heights@.len() == width * height,
                rest == joy_rest(step_size, stroke.2, padding_top as int, y as int),
                -90_000_000_000 <= rest <= 90_000_000_000,
                last == joy_before(pulse_heights@, width as int, y as int, x as int),
                -FACTOR_LIMIT <= last <= FACTOR_LIMIT,
                p@ == joy_path(
                    step_size,
                    stroke.2,
                    pulse_heights@,
                    width as int,
                    padding_top as int,
                    y as int,
                    x as int,
                ),
            decreases width - x,
        {
            proof {
                lemma_cell_index(x as int, y as int, width as int, height as int);
                lemma_product_bound(x as int, step as int, 10_000, FACTOR_LIMIT as int);
                lemma_product_bound(2 * x + 1, step as int, 20_001, FACTOR_LIMIT as int);
                assert(over(pulse_heights@[y * width + x], unit as int));
            }
            let here: i64 = pulse_heights[y * width + x].num;
            let column: i64 = x as i64;
            p.push(Piece::Text(" Q "));
            p.push(Piece::Number(half(2 * (column * step), unit)));
            p.push(Piece::Text(" "));
            p.push(Piece::Number(half(rest + 2 * last, unit)));
            p.push(Piece::Text(" "));
            p.push(Piece::Number(half((2 * column + 1) * step, unit)));
            p.push(Piece::Text(" "));
            p.push(Piece::Number(half(rest + last + here, unit)));
            last = here;
            x = x + 1;
        }
        proof {
            lemma_product_bound(width as int, step as int, 10_000, FACTOR_LIMIT as int);
        }
        let right: i64 = 2 * (width as i64 * step);
        p.push(Piece::Text(" Q "));
        p.push(Piece::Number(half(right, unit)));
        p.push(Piece::Text(" "));
        p.push(Piece::Number(half(rest + 2 * last, unit)));
        p.push(Piece::Text(" "));
        p.push(Piece::Number(half(right, unit)));
        p.push(Piece::Text(" "));
        p.push(Piece::Number(half(rest, unit)));
        put_text(&mut p, "fill", background_color);
        put_text(&mut p, "stroke", stroke.0);
        put_number(&mut p, "stroke-opacity", stroke.1);
        put_number(&mut p, "stroke-width", stroke.2);
        push_shape(&mut shapes, Tag::Path, p);
        assert(views(shapes@) =~= before + seq![
            joy_line(
                step_size,
                width as int,
                pulse_heights@,
                stroke,
                padding_top as int,
                background_color,
                y as int,
            ),
        ]);
        y = y + 1;
    }
    Drawing { width: canvas_width, height: canvas_height, shapes }
}

} // verus!
