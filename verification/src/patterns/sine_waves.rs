//! Stacked wavy lines.

use vstd::prelude::*;
use vstd::string::StringSliceAdditionalSpecFns;
use crate::digest::{all_digits, digits, digits_ok, read_digits, PatternError};
use crate::patterns::Pattern;
use crate::scalar::Scalar;
use crate::shape::{
    collect, fill_color, opacity, opacity_of, push_shape, put_text, swatch, views,
    with_text, Drawing, DrawingView, Piece, Shape, ShapeView, Tag,
};

verus! {

/// Wavy lines whose period, amplitude and stroke the first three digits say.
pub struct SineWaves<'a> {
    hash: &'a str,
}

/// The period of a wave: digit 0 carried to the range from 100 to 400.
pub open spec fn wave_period(d: Seq<u8>) -> Scalar {
    Scalar::spec_rescale(d[0] as int, 0, 15, 100, 400)
}

/// The amplitude of a wave: digit 1 carried to the range from 30 to 100.
pub open spec fn wave_amplitude(d: Seq<u8>) -> Scalar {
    Scalar::spec_rescale(d[1] as int, 0, 15, 30, 100)
}

/// The stroke of a wave: digit 2 carried to the range from 3 to 30.
pub open spec fn wave_stroke(d: Seq<u8>) -> Scalar {
    Scalar::spec_rescale(d[2] as int, 0, 15, 3, 30)
}

/// The two drawings of wave `i`: a curve through one and a half periods,
/// a quarter period left of the canvas and one and a half amplitudes above
/// line `i`, lines being one stroke apart; and the same curve 36 lines
/// further down. The stroke is cut off to a whole number.
pub open spec fn wave_pair(d: Seq<u8>, i: int) -> Seq<ShapeView<'static>> {
    let per = wave_period(d);
    let a = wave_amplitude(d);
    let ww = wave_stroke(d);
    let k = i;
    let v = d[i];
    let p = Seq::<Piece>::empty();
    let p = p
        .push(Piece::Key("d"))
        .push(Piece::Text("M0 "))
        .push(Piece::Number(a))
        .push(Piece::Text(" C "))
        .push(Piece::Number(per.spec_times(7, 0, 40)))
        .push(Piece::Text(" 0, "))
        .push(Piece::Number(per.spec_times(13, 0, 40)))
        .push(Piece::Text(" 0, "))
        .push(Piece::Number(per.spec_times(1, 0, 2)))
        .push(Piece::Text(" "))
        .push(Piece::Number(a))
        .push(Piece::Text(" S "))
        .push(Piece::Number(per.spec_times(33, 0, 40)))
        .push(Piece::Text(" "))
        .push(Piece::Number(a.spec_times(2, 0, 1)))
        .push(Piece::Text(", "))
        .push(Piece::Number(per))
        .push(Piece::Text(" "))
        .push(Piece::Number(a))
        .push(Piece::Text(" S "))
        .push(Piece::Number(per.spec_times(53, 0, 40)))
        .push(Piece::Text(" 0, "))
        .push(Piece::Number(per.spec_times(3, 0, 2)))
        .push(Piece::Text(", "))
        .push(Piece::Number(a));
    let p = with_text(p, "fill", "none");
    let p = with_text(p, "stroke", swatch(v));
    let p = p
        .push(Piece::Key("style"))
        .push(Piece::Text("opacity:"))
        .push(Piece::Number(opacity_of(v)))
        .push(Piece::Text(";stroke-width:0x"))
        .push(Piece::Hex(ww.spec_times(1, 0, 1).spec_trunc()))
        .push(Piece::Text(";"))
        .push(Piece::Key("transform"))
        .push(Piece::Text("translate(-"))
        .push(Piece::Number(per.spec_times(1, 0, 4)))
        .push(Piece::Text(", "))
        .push(Piece::Number(Scalar::spec_blend(ww, 2 * (k + 0), a, -3, 2)))
        .push(Piece::Text(")"));
    let upper = ShapeView { tag: Tag::Path, pieces: p };
    let p = Seq::<Piece>::empty();
    let p = p
        .push(Piece::Key("d"))
        .push(Piece::Text("M0 "))
        .push(Piece::Number(a))
        .push(Piece::Text(" C "))
        .push(Piece::Number(per.spec_times(7, 0, 40)))
        .push(Piece::Text(" 0, "))
        .push(Piece::Number(per.spec_times(13, 0, 40)))
        .push(Piece::Text(" 0, "))
        .push(Piece::Number(per.spec_times(1, 0, 2)))
        .push(Piece::Text(" "))
        .push(Piece::Number(a))
        .push(Piece::Text(" S "))
        .push(Piece::Number(per.spec_times(33, 0, 40)))
        .push(Piece::Text(" "))
        .push(Piece::Number(a.spec_times(2, 0, 1)))
        .push(Piece::Text(", "))
        .push(Piece::Number(per))
        .push(Piece::Text(" "))
        .push(Piece::Number(a))
        .push(Piece::Text(" S "))
        .push(Piece::Number(per.spec_times(53, 0, 40)))
        .push(Piece::Text(" 0, "))
        .push(Piece::Number(per.spec_times(3, 0, 2)))
        .push(Piece::Text(", "))
        .push(Piece::Number(a));
    let p = with_text(p, "fill", "none");
    let p = with_text(p, "stroke", swatch(v));
    let p = p
        .push(Piece::Key("style"))
        .push(Piece::Text("opacity:"))
        .push(Piece::Number(opacity_of(v)))
        .push(Piece::Text(";stroke-width:0x"))
        .push(Piece::Hex(ww.spec_times(1, 0, 1).spec_trunc()))
        .push(Piece::Text(";"))
        .push(Piece::Key("transform"))
        .push(Piece::Text("translate(-"))
        .push(Piece::Number(per.spec_times(1, 0, 4)))
        .push(Piece::Text(", "))
        .push(Piece::Number(Scalar::spec_blend(ww, 2 * (k + 36), a, -3, 2)))
        .push(Piece::Text(")"));
    let lower = ShapeView { tag: Tag::Path, pieces: p };
    seq![upper, lower]
}

/// The whole drawing: a canvas one period wide and 36 strokes high, and
/// the two drawings of each of the 36 waves.
pub open spec fn sine_waves_drawing(d: Seq<u8>) -> DrawingView<'static> {
    let per = wave_period(d);
    let a = wave_amplitude(d);
    let ww = wave_stroke(d);
    DrawingView {
        width: per,
        height: ww.spec_times(36, 0, 1),
        shapes: collect(36, |i: int| wave_pair(d, i)),
    }
}

impl<'a> SineWaves<'a> {
    /// The digest that the pattern reads.
    pub closed spec fn digest(&self) -> Seq<u8> {
        self.hash.spec_bytes()
    }

    /// A pattern over the digest `hash`.
    pub fn new(hash: &'a str) -> (r: Self)
        ensures
            r.digest() == hash.spec_bytes(),
    {
        SineWaves { hash }
    }

    /// Draws the pattern from its first 36 digits.
    pub fn render(d: &Vec<u8>) -> (r: Drawing<'static>)
        requires
            d@.len() == 36,
            all_digits(d@),
        ensures
            r@ == sine_waves_drawing(d@),
    {
        let per = Scalar::of_digit(d[0], 100, 400);
        let a = Scalar::of_digit(d[1], 30, 100);
        let ww = Scalar::of_digit(d[2], 3, 30);
        let width = per;
        let height = ww.times(36, 0, 1);
        let mut shapes: Vec<Shape> = Vec::new();
        let mut i: usize = 0;
        while i < 36
            invariant
                0 <= i <= 36,
                d@.len() == 36,
                all_digits(d@),
                per == wave_period(d@),
                a == wave_amplitude(d@),
                ww == wave_stroke(d@),
                per.within(15000),
                a.within(15000),
                ww.within(15000),
                views(shapes@) == collect(i as nat, |k: int| wave_pair(d@, k)),
            decreases 36 - i,
        {
            let ghost before = views(shapes@);
            let k = i as i64;
            let v = d[i];
            let mut p: Vec<Piece> = Vec::new();
            p.push(Piece::Key("d"));
            p.push(Piece::Text("M0 "));
            p.push(Piece::Number(a));
            p.push(Piece::Text(" C "));
            p.push(Piece::Number(per.times(7, 0, 40)));
            p.push(Piece::Text(" 0, "));
            p.push(Piece::Number(per.times(13, 0, 40)));
            p.push(Piece::Text(" 0, "));
            p.push(Piece::Number(per.times(1, 0, 2)));
            p.push(Piece::Text(" "));
            p.push(Piece::Number(a));
            p.push(Piece::Text(" S "));
            p.push(Piece::Number(per.times(33, 0, 40)));
            p.push(Piece::Text(" "));
            p.push(Piece::Number(a.times(2, 0, 1)));
            p.push(Piece::Text(", "));
            p.push(Piece::Number(per));
            p.push(Piece::Text(" "));
            p.push(Piece::Number(a));
            p.push(Piece::Text(" S "));
            p.push(Piece::Number(per.times(53, 0, 40)));
            p.push(Piece::Text(" 0, "));
            p.push(Piece::Number(per.times(3, 0, 2)));
            p.push(Piece::Text(", "));
            p.push(Piece::Number(a));
            put_text(&mut p, "fill", "none");
            put_text(&mut p, "stroke", fill_color(v));
            p.push(Piece::Key("style"));
            p.push(Piece::Text("opacity:"));
            p.push(Piece::Number(opacity(v)));
            p.push(Piece::Text(";stroke-width:0x"));
            p.push(Piece::Hex(ww.times(1, 0, 1).trunc()));
            p.push(Piece::Text(";"));
            p.push(Piece::Key("transform"));
            p.push(Piece::Text("translate(-"));
            p.push(Piece::Number(per.times(1, 0, 4)));
            p.push(Piece::Text(", "));
            p.push(Piece::Number(Scalar::blend(ww, 2 * (k + 0), a, -3, 2)));
            p.push(Piece::Text(")"));
            push_shape(&mut shapes, Tag::Path, p);
            let mut p: Vec<Piece> = Vec::new();
            p.push(Piece::Key("d"));
            p.push(Piece::Text("M0 "));
            p.push(Piece::Number(a));
            p.push(Piece::Text(" C "));
            p.push(Piece::Number(per.times(7, 0, 40)));
            p.push(Piece::Text(" 0, "));
            p.push(Piece::Number(per.times(13, 0, 40)));
            p.push(Piece::Text(" 0, "));
            p.push(Piece::Number(per.times(1, 0, 2)));
            p.push(Piece::Text(" "));
            p.push(Piece::Number(a));
            p.push(Piece::Text(" S "));
            p.push(Piece::Number(per.times(33, 0, 40)));
            p.push(Piece::Text(" "));
            p.push(Piece::Number(a.times(2, 0, 1)));
            p.push(Piece::Text(", "));
            p.push(Piece::Number(per));
            p.push(Piece::Text(" "));
            p.push(Piece::Number(a));
            p.push(Piece::Text(" S "));
            p.push(Piece::Number(per.times(53, 0, 40)));
            p.push(Piece::Text(" 0, "));
            p.push(Piece::Number(per.times(3, 0, 2)));
            p.push(Piece::Text(", "));
            p.push(Piece::Number(a));
            put_text(&mut p, "fill", "none");
            put_text(&mut p, "stroke", fill_color(v));
            p.push(Piece::Key("style"));
            p.push(Piece::Text("opacity:"));
            p.push(Piece::Number(opacity(v)));
            p.push(Piece::Text(";stroke-width:0x"));
            p.push(Piece::Hex(ww.times(1, 0, 1).trunc()));
            p.push(Piece::Text(";"));
            p.push(Piece::Key("transform"));
            p.push(Piece::Text("translate(-"));
            p.push(Piece::Number(per.times(1, 0, 4)));
            p.push(Piece::Text(", "));
            p.push(Piece::Number(Scalar::blend(ww, 2 * (k + 36), a, -3, 2)));
            p.push(Piece::Text(")"));
            push_shape(&mut shapes, Tag::Path, p);
            assert(views(shapes@) =~= before + wave_pair(d@, i as int));
            i = i + 1;
        }
        Drawing { width, height, shapes }
    }
}

impl<'a> Pattern for SineWaves<'a> {
    open spec fn drawing(&self) -> Option<DrawingView<'static>> {
        if digits_ok(self.digest(), 36) {
            Some(sine_waves_drawing(digits(self.digest(), 36)))
        } else {
            None
        }
    }

    fn draw(&self) -> (r: Result<Drawing<'static>, PatternError>) {
        match read_digits(self.hash, 36) {
            Ok(d) => Ok(SineWaves::render(&d)),
            Err(e) => Err(e),
        }
    }
}

} // verus!
