use geopattern::patterns::{Chevrons, Diamonds, Hexagons, MosaicSquares, Octagons, Pattern, Squares, Tessellation, Triangles};
use geopattern::scalar::Scalar;
use geopattern::shape::{attributes, children, fill_color, opacity, Attribute, Drawing, Piece, Shape, Tag};
use geopattern::shapes::piet_mondrian::panes_of;
use geopattern::{
    chevrons, circle_packing, concentric_circles, cubic_disarray, diamonds, hexagons, hypnotic_squares, joy_division, mosaic_squares,
    nested_squares, octagons, overlapping_circles, overlapping_rings, piet_mondrian, plaid, plus_signs, sine_waves, squares, tesselation,
    tiled_lines, triangles, triangular_mesh, un_deus_trois, xes, PietMondrianSplitType,
};

const DIGEST: &str = "5442e2b64fa09764b9f593867e59a97292c84059";

#[derive(Debug, Clone)]
enum Tok {
    K(String),
    T(String),
    N(f64),
    C(Tag),
}

fn k(s: &str) -> Tok {
    Tok::K(s.to_string())
}

fn t(s: &str) -> Tok {
    Tok::T(s.to_string())
}

fn n(v: f64) -> Tok {
    Tok::N(v)
}

fn c(tag: Tag) -> Tok {
    Tok::C(tag)
}

fn value(s: Scalar) -> f64 {
    (s.num as f64 + s.root3 as f64 * 3f64.sqrt()) / s.den as f64
}

fn joined(tokens: Vec<Tok>) -> Vec<Tok> {
    let mut out: Vec<Tok> = Vec::new();
    for next in tokens {
        match (out.last_mut(), &next) {
            (Some(Tok::T(a)), Tok::T(b)) => a.push_str(b),
            _ => out.push(next),
        }
    }
    out
}

fn toks(pieces: &[Piece]) -> Vec<Tok> {
    joined(
        pieces
            .iter()
            .map(|p| match p {
                Piece::Key(s) => Tok::K(s.to_string()),
                Piece::Text(s) => Tok::T(s.to_string()),
                Piece::Number(v) => Tok::N(value(*v)),
                Piece::Hex(v) => Tok::T(format!("{:X}", v)),
                Piece::Child(tag) => Tok::C(*tag),
            })
            .collect(),
    )
}

fn close(a: f64, b: f64) -> bool {
    (a - b).abs() <= 1e-9 * (1.0 + a.abs().max(b.abs()))
}

fn check_shape(shape: &Shape, tag: Tag, expected: Vec<Tok>) {
    assert_eq!(shape.tag, tag);
    let got = toks(&shape.pieces);
    let expected = joined(expected);
    assert_eq!(got.len(), expected.len(), "{:?} against {:?}", got, expected);
    for (a, b) in got.iter().zip(expected.iter()) {
        let same = match (a, b) {
            (Tok::K(x), Tok::K(y)) => x == y,
            (Tok::T(x), Tok::T(y)) => x == y,
            (Tok::N(x), Tok::N(y)) => close(*x, *y),
            (Tok::C(x), Tok::C(y)) => x == y,
            _ => false,
        };
        assert!(same, "{:?} against {:?} in {:?}", a, b, got);
    }
}

/// Checks canvas, background and shapes of a drawing.
fn check(drawing: &Drawing, width: f64, height: f64, background: &str, expected: Vec<(Tag, Vec<Tok>)>) {
    assert!(close(value(drawing.width), width), "{:?} against {}", drawing.width, width);
    assert!(close(value(drawing.height), height), "{:?} against {}", drawing.height, height);
    assert_eq!(drawing.shapes.len(), expected.len() + 1);
    check_shape(
        &drawing.shapes[0],
        Tag::Rectangle,
        vec![k("x"), n(0.0), k("y"), n(0.0), k("width"), t("100%"), k("height"), t("100%"), k("fill"), t(background)],
    );
    for (shape, (tag, tokens)) in drawing.shapes[1..].iter().zip(expected.into_iter()) {
        check_shape(shape, tag, tokens);
    }
}

fn list(parts: Vec<Vec<Tok>>) -> Vec<Tok> {
    parts.into_iter().flatten().collect()
}

/// Paint for cell `v`: a colour and an opacity of `0.02 + v / 4`.
fn paints(count: usize) -> Vec<(&'static str, Scalar)> {
    (0..count).map(|v| (if v & 1 == 0 { "#222" } else { "#ddd" }, Scalar::ratio(2 + 25 * v as i64, 100))).collect()
}

fn alpha(v: usize) -> f64 {
    0.02 + (v as f64) / 4.0
}

fn colour(v: usize) -> &'static str {
    if v & 1 == 0 {
        "#222"
    } else {
        "#ddd"
    }
}

fn fill(v: usize) -> Vec<Tok> {
    vec![k("fill"), t(colour(v)), k("fill-opacity"), n(alpha(v))]
}

fn stroked(color: &str, opacity: f64) -> Vec<Tok> {
    vec![k("stroke"), t(color), k("stroke-opacity"), n(opacity)]
}

fn translate(x: f64, y: f64) -> Vec<Tok> {
    vec![k("transform"), t("translate("), n(x), t(", "), n(y), t(")")]
}

fn digits(hash: &str, count: usize, shift: usize) -> Vec<(&'static str, Scalar)> {
    (0..count)
        .map(|i| {
            let v = u8::from_str_radix(&hash[i + shift..i + shift + 1], 16).unwrap();
            (fill_color(v), opacity(v))
        })
        .collect()
}

fn first(hash: &str, i: usize, lo: i64, hi: i64) -> Scalar {
    Scalar::of_digit(u8::from_str_radix(&hash[i..i + 1], 16).unwrap(), lo, hi)
}

const OUTLINE: (&str, Scalar) = ("#000", Scalar { num: 2, root3: 0, den: 100 });

#[test]
fn diamonds_on_six_by_six_are_the_pattern() {
    let drawing = diamonds((first(DIGEST, 0, 10, 50), first(DIGEST, 1, 10, 50)), (6, 6), &digits(DIGEST, 36, 0), OUTLINE, "#933c3c");
    let pattern = Diamonds::new(DIGEST).draw().unwrap();
    assert_eq!(drawing.shapes[1..], pattern.shapes[..]);
    assert!(close(value(drawing.width), value(pattern.width)));
    assert!(close(value(drawing.height), value(pattern.height)));
}

#[test]
fn hexagons_on_six_by_six_are_the_pattern() {
    let drawing = hexagons(first(DIGEST, 0, 8, 60), (6, 6), &digits(DIGEST, 36, 0), OUTLINE, "#933c3c");
    let pattern = Hexagons::new(DIGEST).draw().unwrap();
    assert_eq!(drawing.shapes[1..], pattern.shapes[..]);
    assert!(close(value(drawing.width), value(pattern.width)));
    assert!(close(value(drawing.height), 2.0 * value(pattern.height)));
}

#[test]
fn chevrons_on_six_by_six_are_the_pattern() {
    let drawing = chevrons(first(DIGEST, 0, 30, 80), (6, 6), &digits(DIGEST, 36, 0), OUTLINE, "#933c3c");
    let pattern = Chevrons::new(DIGEST).draw().unwrap();
    assert_eq!(drawing.shapes.len(), 50);
    for (a, b) in drawing.shapes[1..].iter().zip(pattern.shapes.iter()) {
        let mut expected = toks(&b.pieces);
        let mut got = toks(&a.pieces);
        expected.sort_by_key(|tok| format!("{:?}", tok));
        got.sort_by_key(|tok| format!("{:?}", tok));
        assert_eq!(format!("{:?}", got), format!("{:?}", expected));
    }
    assert!(close(value(drawing.width), value(pattern.width)));
    assert!(close(value(drawing.height), value(pattern.height)));
}

#[test]
fn octagons_on_six_by_six_are_the_pattern() {
    let drawing = octagons(first(DIGEST, 0, 10, 60), (6, 6), &digits(DIGEST, 36, 0), OUTLINE, "#933c3c");
    let pattern = Octagons::new(DIGEST).draw().unwrap();
    assert_eq!(drawing.shapes[1..], pattern.shapes[..]);
    assert_eq!((drawing.width, drawing.height), (pattern.width, pattern.height));
}

#[test]
fn squares_on_six_by_six_are_the_pattern() {
    let drawing = squares(first(DIGEST, 0, 10, 60), (6, 6), &digits(DIGEST, 36, 0), OUTLINE, "#933c3c");
    let pattern = Squares::new(DIGEST).draw().unwrap();
    assert_eq!(drawing.shapes[1..], pattern.shapes[..]);
    assert_eq!((drawing.width, drawing.height), (pattern.width, pattern.height));
}

#[test]
fn triangles_on_six_by_six_are_the_pattern() {
    let drawing = triangles(first(DIGEST, 0, 15, 80), (6, 6), &digits(DIGEST, 36, 0), OUTLINE, "#933c3c");
    let pattern = Triangles::new(DIGEST).draw().unwrap();
    assert_eq!(drawing.shapes[1..], pattern.shapes[..]);
    assert!(close(value(drawing.width), value(pattern.width)));
    assert!(close(value(drawing.height), value(pattern.height)));
}

#[test]
fn mosaic_squares_on_four_by_four_are_the_pattern() {
    let drawing = mosaic_squares(first(DIGEST, 0, 15, 50), (4, 4), &digits(DIGEST, 16, 0), &digits(DIGEST, 16, 1), OUTLINE, "#933c3c");
    let pattern = MosaicSquares::new(DIGEST).draw().unwrap();
    assert_eq!(drawing.shapes[1..], pattern.shapes[..]);
    assert_eq!((drawing.width, drawing.height), (pattern.width, pattern.height));
}

#[test]
fn tesselation_is_the_pattern() {
    let drawing = tesselation(first(DIGEST, 0, 5, 40), &digits(DIGEST, 20, 0), OUTLINE, "#933c3c");
    let pattern = Tessellation::new(DIGEST).draw().unwrap();
    assert_eq!(drawing.shapes[1..], pattern.shapes[..]);
    assert_eq!((drawing.width, drawing.height), (pattern.width, pattern.height));
}

#[test]
fn diamonds_follow_the_grid() {
    let (dw, dh) = (20.0, 30.0);
    let (width, height) = (3usize, 2usize);
    let mut expected = Vec::new();
    for y in 0..height {
        for x in 0..width {
            let ix = y * width + x;
            let base = list(vec![
                vec![k("points"), n(dw / 2.0), t(",0,"), n(dw), t(","), n(dh / 2.0), t(","), n(dw / 2.0), t(","), n(dh), t(",0,"), n(dh / 2.0)],
                fill(ix),
                stroked("#ddd", 0.2),
            ]);
            let dx = if y % 2 == 1 { dw / 2.0 } else { 0.0 };
            let at = |tx: f64, ty: f64| (Tag::Polyline, list(vec![base.clone(), translate(tx, ty)]));
            expected.push(at(dx + (x as f64) * dw - (dw / 2.0), (dh / 2.0) * (y as f64) - (dh / 2.0)));
            if x == 0 {
                expected.push(at(dx + (width as f64) * dw - (dw / 2.0), (dh / 2.0) * (y as f64) - (dh / 2.0)));
            }
            if y == 0 {
                expected.push(at(dx + (x as f64) * dw - (dw / 2.0), dh / 2.0 * (height as f64) - dh / 2.0));
            }
            if x == 0 && y == 0 {
                expected.push(at(dx + (width as f64) * dw - (dw / 2.0), (dh / 2.0) * (height as f64) - (dh / 2.0)));
            }
        }
    }
    let drawing = diamonds((Scalar::whole(20), Scalar::whole(30)), (width, height), &paints(6), ("#ddd", Scalar::ratio(2, 10)), "#987987");
    check(&drawing, dw * width as f64, dh * height as f64 / 2.0, "#987987", expected);
}

#[test]
fn hexagons_follow_the_grid() {
    for (width, height) in [(2usize, 3usize), (1, 1), (6, 6), (3, 2)] {
        let side = 20.0;
        let hw = side * 2.0;
        let hh = side * 3f64.sqrt();
        let a = side / 2.0;
        let b = (std::f64::consts::PI / 3.0).sin() * side;
        let mut expected = Vec::new();
        for y in 0..height {
            for x in 0..width {
                let ix = y * width + x;
                let mut places = vec![(x, y)];
                if x == 0 {
                    places.push((width, y));
                }
                if y == 0 {
                    places.push((x, height));
                }
                if x == 0 && y == 0 {
                    places.push((width, height));
                }
                for (col, row) in places {
                    let dy = if x % 2 == 1 { (row as f64) * hh + hh / 2.0 } else { (row as f64) * hh };
                    expected.push((
                        Tag::Polyline,
                        list(vec![
                            vec![
                                k("points"), t("0,"), n(b), t(","), n(a), t(",0,"), n(a + side), t(",0,"), n(2.0 * side), t(","), n(b), t(","), n(a + side), t(","),
                                n(2.0 * b), t(","), n(a), t(","), n(2.0 * b), t(",0,"), n(b),
                            ],
                            fill(ix),
                            stroked("#ddd", 0.2),
                            translate((col as f64) * side * 1.5 - hw / 2.0, dy - hh / 2.0),
                        ]),
                    ));
                }
            }
        }
        let drawing = hexagons(Scalar::whole(20), (width, height), &paints(width * height), ("#ddd", Scalar::ratio(2, 10)), "#987987");
        assert_eq!(drawing.shapes.len(), 1 + (width + 1) * (height + 1));
        check(&drawing, (hw + side) * width as f64 / 2.0, hh * height as f64, "#987987", expected);
    }
}

#[test]
fn chevrons_follow_the_grid() {
    let cw = 60.0;
    let (width, height) = (3usize, 2usize);
    let (w, h) = (cw, cw);
    let e = h * 0.66;
    let mut expected = Vec::new();
    for y in 0..height {
        for x in 0..width {
            let ix = y * width + x;
            let mut places = vec![(x, y)];
            if x == 0 {
                places.push((width, y));
            }
            if y == 0 {
                places.push((x, height));
            }
            if x == 0 && y == 0 {
                places.push((width, height));
            }
            for (col, row) in places {
                expected.push((
                    Tag::Group,
                    list(vec![
                        fill(ix),
                        stroked("#000", 0.2),
                        vec![k("stroke-width"), n(1.0)],
                        translate((col as f64) * cw, (row as f64) * cw * 0.66 - cw / 2.0),
                        vec![c(Tag::Polyline), k("points"), t("0,0,"), n(w / 2.0), t(","), n(h - e), t(","), n(w / 2.0), t(","), n(h), t(",0,"), n(e), t(",0,0")],
                        vec![
                            c(Tag::Polyline), k("points"), n(w / 2.0), t(","), n(h - e), t(","), n(w), t(",0,"), n(w), t(","), n(e), t(","), n(w / 2.0),
                            t(","), n(h), t(","), n(w / 2.0), t(","), n(h - e),
                        ],
                    ]),
                ));
            }
        }
    }
    let drawing = chevrons(Scalar::whole(60), (width, height), &paints(6), ("#000", Scalar::ratio(2, 10)), "#987987");
    assert_eq!(drawing.shapes.len(), 1 + 12);
    check(&drawing, cw * width as f64, cw * height as f64 * 0.66, "#987987", expected);
}

#[test]
fn concentric_circles_follow_the_grid() {
    let (diameter, concentric_width) = (20.0, 4.5);
    let (width, height) = (3usize, 2usize);
    let d = diameter + concentric_width;
    let mut expected = Vec::new();
    for y in 0..height {
        for x in 0..width {
            let ix = y * width + x;
            let radius = d / 2.0;
            let (cx, cy) = ((x as f64) * d + radius, (y as f64) * d + radius);
            expected.push((
                Tag::Circle,
                vec![
                    k("cx"), n(cx), k("cy"), n(cy), k("r"), n(d / 2.0), k("stroke"), t(colour(ix)), k("fill-opacity"), n(alpha(ix)), k("stroke-opacity"), n(alpha(ix)),
                    k("stroke-width"), t(&format!("0x{:X}", concentric_width as isize)),
                ],
            ));
            expected.push((Tag::Circle, vec![k("cx"), n(cx), k("cy"), n(cy), k("r"), n(d / 4.0), k("fill"), t(colour(ix + 1)), k("fill-opacity"), n(alpha(ix + 1))]));
        }
    }
    let inner = paints(7);
    let drawing = concentric_circles(Scalar::whole(20), Scalar::ratio(9, 2), (width, height), &paints(6), &inner[1..], "#987987");
    check(&drawing, d * width as f64, d * height as f64, "#987987", expected);
}

#[test]
fn cubic_disarray_follows_the_grid() {
    let side = 60.0;
    let (width, height) = (2usize, 3usize);
    let shift: Vec<Scalar> = (0..6).map(|v| Scalar::ratio(2 + 25 * v, 100)).collect();
    let turn: Vec<Scalar> = (0..6).map(|v| Scalar::ratio(7 * v - 9, 3)).collect();
    let mut expected = Vec::new();
    for y in 0..height {
        for x in 0..width {
            let ix = y * width + x;
            expected.push((
                Tag::Rectangle,
                list(vec![
                    vec![k("x"), n((x as f64) * side), k("y"), n((y as f64) * side), k("width"), n(side), k("height"), n(side)],
                    fill(ix),
                    stroked("#ddd", 0.2),
                    vec![
                        k("transform"), t("translate("), n(alpha(ix)), t(" 0) rotate("), n((7.0 * ix as f64 - 9.0) / 3.0), t(" "), n((x as f64) * side), t(" "),
                        n((y as f64) * side), t(")"),
                    ],
                ]),
            ));
        }
    }
    let drawing = cubic_disarray(Scalar::whole(60), (width, height), &paints(6), ("#ddd", Scalar::ratio(2, 10)), (&shift, &turn), "#987987");
    check(&drawing, side * width as f64, side * height as f64, "#987987", expected);
}

#[test]
fn hypnotic_squares_follow_the_grid() {
    let (side, min_side) = (60.0, 30.0);
    let steps = 5usize;
    let (width, height) = (2usize, 3usize);
    let directions: Vec<(isize, isize)> = (0..6).map(|i| ((i % 3) as isize - 1, (2 * i % 3) as isize - 1)).collect();
    let stroke: Vec<(&str, Scalar, Scalar)> = (0..6).map(|v| (colour(v), Scalar::ratio(3, 2), Scalar::ratio(2 + 25 * v as i64, 100))).collect();
    let step_size = (side - min_side) / steps as f64;
    let mut expected = Vec::new();
    for y in 0..height {
        for x in 0..width {
            let ix = y * width + x;
            let (xdir, ydir) = directions[ix];
            let mut tokens = vec![k("transform"), t("translate("), n(x as f64 * side), t(" "), n(y as f64 * side), t(")")];
            for i in 0..steps {
                tokens.extend(vec![
                    c(Tag::Rectangle),
                    k("x"), n(step_size * i as f64 + step_size / 2.0 * i as f64 * xdir as f64),
                    k("y"), n(step_size * i as f64 + step_size / 2.0 * i as f64 * ydir as f64),
                    k("width"), n(side - 2.0 * step_size * i as f64),
                    k("height"), n(side - 2.0 * step_size * i as f64),
                    k("fill"), t("none"), k("stroke"), t(colour(ix)), k("stroke-width"), n(1.5), k("stroke-opacity"), n(alpha(ix)),
                ]);
            }
            expected.push((Tag::Group, tokens));
        }
    }
    let drawing = hypnotic_squares(Scalar::whole(60), Scalar::whole(30), steps, (width, height), &directions, &stroke, "#987987");
    check(&drawing, side * width as f64, side * height as f64, "#987987", expected);
}

#[test]
fn nested_squares_follow_the_grid() {
    let s = 7.5;
    let (width, height) = (3usize, 2usize);
    let ss = s * 7.0;
    let inner = paints(7);
    let mut expected = Vec::new();
    for y in 0..height {
        for x in 0..width {
            let ix = y * width + x;
            expected.push((
                Tag::Rectangle,
                vec![
                    k("x"), n((x as f64) * ss + (x as f64) * s * 2.0 + s / 2.0), k("y"), n((y as f64) * ss + (y as f64) * s * 2.0 + s / 2.0), k("width"), n(ss),
                    k("height"), n(ss), k("fill"), t("none"), k("stroke"), t(colour(ix)), k("stroke-width"), n(s), k("stroke-opacity"), n(alpha(ix)),
                ],
            ));
            expected.push((
                Tag::Rectangle,
                vec![
                    k("x"), n((x as f64) * ss + (x as f64) * s * 2.0 + s / 2.0 + s * 2.0), k("y"), n((y as f64) * ss + (y as f64) * s * 2.0 + s / 2.0 + s * 2.0),
                    k("width"), n(s * 3.0), k("height"), n(s * 3.0), k("fill"), t("none"), k("stroke"), t(colour(ix + 1)), k("stroke-width"), n(s),
                    k("stroke-opacity"), n(alpha(ix + 1)),
                ],
            ));
        }
    }
    let drawing = nested_squares(Scalar::ratio(15, 2), (width, height), &paints(6), &inner[1..], "#987987");
    check(&drawing, (s * 2.0 + ss) * width as f64, (s * 2.0 + ss) * height as f64, "#987987", expected);
}

#[test]
fn octagons_follow_the_grid() {
    let s = 60.0;
    let (width, height) = (3usize, 2usize);
    let cut = 0.33 * s;
    let mut expected = Vec::new();
    for y in 0..height {
        for x in 0..width {
            let ix = y * width + x;
            expected.push((
                Tag::Polyline,
                list(vec![
                    vec![
                        k("points"), n(cut), t(",0,"), n(s - cut), t(",0,"), n(s), t(","), n(cut), t(","), n(s), t(","), n(s - cut), t(","), n(s - cut), t(","),
                        n(s), t(","), n(cut), t(","), n(s), t(",0,"), n(s - cut), t(",0,"), n(cut), t(","), n(cut), t(",0"),
                    ],
                    fill(ix),
                    stroked("#ddd", 0.2),
                    translate((x as f64) * s, (y as f64) * s),
                ]),
            ));
        }
    }
    let drawing = octagons(Scalar::whole(60), (width, height), &paints(6), ("#ddd", Scalar::ratio(2, 10)), "#987987");
    check(&drawing, s * width as f64, s * height as f64, "#987987", expected);
}

#[test]
fn overlapping_circles_follow_the_grid() {
    let r = 60.0;
    let (width, height) = (3usize, 2usize);
    let mut expected = Vec::new();
    for y in 0..height {
        for x in 0..width {
            let ix = y * width + x;
            let at = |cx: f64, cy: f64| (Tag::Circle, list(vec![vec![k("cx"), n(cx), k("cy"), n(cy), k("r"), n(r)], fill(ix)]));
            expected.push(at(x as f64 * r, y as f64 * r));
            if x == 0 {
                expected.push(at(width as f64 * r, y as f64 * r));
            }
            if y == 0 {
                expected.push(at(x as f64 * r, height as f64 * r));
            }
            if x == 0 && y == 0 {
                expected.push(at(width as f64 * r, height as f64 * r));
            }
        }
    }
    let drawing = overlapping_circles(Scalar::whole(60), (width, height), &paints(6), "#987987");
    check(&drawing, r * width as f64, r * height as f64, "#987987", expected);
}

#[test]
fn overlapping_rings_follow_the_grid() {
    let r = 60.0;
    let (width, height) = (2usize, 3usize);
    let mut expected = Vec::new();
    for y in 0..height {
        for x in 0..width {
            let ix = y * width + x;
            let at = |cx: f64, cy: f64| {
                (
                    Tag::Circle,
                    vec![
                        k("cx"), n(cx), k("cy"), n(cy), k("r"), n(r - r / 8.0), k("fill"), t("none"), k("stroke"), t(colour(ix)), k("stroke-opacity"), n(alpha(ix)),
                        k("stroke-width"), n(r / 4.0),
                    ],
                )
            };
            expected.push(at(x as f64 * r, y as f64 * r));
            if x == 0 {
                expected.push(at(width as f64 * r, y as f64 * r));
            }
            if y == 0 {
                expected.push(at(x as f64 * r, height as f64 * r));
            }
            if x == 0 && y == 0 {
                expected.push(at(width as f64 * r, height as f64 * r));
            }
        }
    }
    let drawing = overlapping_rings(Scalar::whole(60), (width, height), &paints(6), "#987987");
    check(&drawing, r * width as f64, r * height as f64, "#987987", expected);
}

fn plus(s: f64) -> Vec<Tok> {
    vec![
        c(Tag::Rectangle), k("x"), n(s), k("y"), n(0.0), k("width"), n(s), k("height"), n(s * 3.0),
        c(Tag::Rectangle), k("x"), n(0.0), k("y"), n(s), k("width"), n(s * 3.0), k("height"), n(s),
    ]
}

#[test]
fn plus_signs_follow_the_grid() {
    for (width, height) in [(3usize, 2usize), (1, 1), (6, 6)] {
        let side = 60.0;
        let length = side * 3.0;
        let mut expected = Vec::new();
        for y in 0..height {
            for x in 0..width {
                let ix = y * width + x;
                let dx = (y % 2) as f64;
                let mut places = vec![(x, y)];
                if x == 0 {
                    places.push((width, y));
                }
                if y == 0 {
                    places.push((x, height));
                }
                if x == 0 && y == 0 {
                    places.push((width, height));
                }
                for (col, row) in places {
                    expected.push((
                        Tag::Group,
                        list(vec![
                            vec![k("fill"), t(colour(ix))],
                            stroked("#ddd", 0.2),
                            vec![k("fill-opacity"), n(alpha(ix))],
                            translate((col as f64) * (length - side) + dx * side - side, (row as f64) * (length - side) - length / 2.0),
                            plus(side),
                        ]),
                    ));
                }
            }
        }
        let drawing = plus_signs(Scalar::whole(60), (width, height), &paints(width * height), ("#ddd", Scalar::ratio(2, 10)), "#987987");
        assert_eq!(drawing.shapes.len(), 1 + (width + 1) * (height + 1));
        check(&drawing, side * 2.0 * width as f64, side * 2.0 * height as f64, "#987987", expected);
    }
}

#[test]
fn sine_waves_follow_the_list() {
    let (period, a, ww) = (120.0, 80.0, 20.5);
    let count = 5usize;
    let mut expected = Vec::new();
    for i in 0..count {
        let xoff = (period / 4.0) * 0.7;
        let at = |ty: f64| {
            (
                Tag::Path,
                vec![
                    k("d"), t("M0 "), n(a), t(" C "), n(xoff), t(" 0, "), n(period / 2.0 - xoff), t(" 0, "), n(period / 2.0), t(" "), n(a), t(" S "),
                    n(period - xoff), t(" "), n(a * 2.0), t(", "), n(period), t(" "), n(a), t(" S "), n(period * 1.5 - xoff), t(" 0, "), n(period * 1.5), t(", "), n(a),
                    k("fill"), t("none"), k("stroke"), t(colour(i)), k("stroke-opacity"), n(alpha(i)), k("stroke-width"), n(ww),
                    k("transform"), t("translate(-"), n(period / 4.0), t(", "), n(ty), t(")"),
                ],
            )
        };
        expected.push(at((ww * i as f64) - (a * 1.5)));
        expected.push(at((ww * i as f64) - (a * 1.5) + ww * count as f64));
    }
    let drawing = sine_waves(Scalar::whole(120), Scalar::whole(80), Scalar::ratio(41, 2), &paints(count), "#987987");
    check(&drawing, period, ww * count as f64, "#987987", expected);
}

#[test]
fn squares_follow_the_grid() {
    let s = 60.0;
    let (width, height) = (2usize, 3usize);
    let mut expected = Vec::new();
    for y in 0..height {
        for x in 0..width {
            let ix = y * width + x;
            expected.push((
                Tag::Rectangle,
                list(vec![vec![k("x"), n((x as f64) * s), k("y"), n((y as f64) * s), k("width"), n(s), k("height"), n(s)], fill(ix), stroked("#ddd", 0.2)]),
            ));
        }
    }
    let drawing = squares(Scalar::whole(60), (width, height), &paints(6), ("#ddd", Scalar::ratio(2, 10)), "#987987");
    check(&drawing, s * width as f64, s * height as f64, "#987987", expected);
}

#[test]
fn tiled_lines_follow_the_grid() {
    let step = 80usize;
    let (width, height) = (2usize, 3usize);
    let ltr: Vec<bool> = (0..6).map(|i| i % 3 != 1).collect();
    let mut expected = Vec::new();
    for x in 0..width {
        for y in 0..height {
            let ix = x * height + y;
            let (x, y) = ((x * step) as f64, (y * step) as f64);
            let s = step as f64;
            let path = if ltr[ix] {
                vec![t("M "), n(x), t(" "), n(y), t(" L "), n(x + s), t(" "), n(y + s)]
            } else {
                vec![t("M "), n(x + s), t(" "), n(y), t(" L "), n(x), t(" "), n(y + s)]
            };
            expected.push((
                Tag::Path,
                list(vec![
                    vec![k("d")],
                    path,
                    vec![k("fill"), t("none"), k("stroke"), t(colour(ix)), k("stroke-opacity"), n(alpha(ix)), k("stroke-width"), n(5.0), k("stroke-linecap"), t("square")],
                ]),
            ));
        }
    }
    let drawing = tiled_lines(step, (width, height), &ltr, &paints(6), Scalar::whole(5), "#FFFFFF");
    check(&drawing, (step * width) as f64, (step * height) as f64, "#FFFFFF", expected);
}

#[test]
fn triangles_follow_the_grid() {
    let side = 60.0;
    let (width, height) = (3usize, 2usize);
    let th = 3f64.sqrt() * side / 2.0;
    let mut expected = Vec::new();
    for y in 0..height {
        for x in 0..width {
            let ix = y * width + x;
            let rot = if (y % 2 == 0 && x % 2 == 0) || (y % 2 != 0 && x % 2 != 0) { 180.0 } else { 0.0 };
            let mut places = vec![(x, y)];
            if x == 0 {
                places.push((width, y));
            }
            if y == 0 {
                places.push((x, height));
            }
            if x == 0 && y == 0 {
                places.push((width, height));
            }
            for (col, row) in places {
                expected.push((
                    Tag::Polyline,
                    list(vec![
                        vec![k("points"), n(side / 2.0), t(",0,"), n(side), t(","), n(th), t(",0,"), n(th), t(","), n(side / 2.0), t(",0")],
                        fill(ix),
                        stroked("#ddd", 0.2),
                        vec![
                            k("transform"), t("translate("), n((col as f64) * side * 0.5 - side / 2.0), t(", "), n(th * (row as f64)), t(") rotate("), n(rot), t(", "),
                            n(side / 2.0), t(", "), n(th / 2.0), t(")"),
                        ],
                    ]),
                ));
            }
        }
    }
    let drawing = triangles(Scalar::whole(60), (width, height), &paints(6), ("#ddd", Scalar::ratio(2, 10)), "#987987");
    assert_eq!(drawing.shapes.len(), 1 + 12);
    check(&drawing, side / 2.0 * width as f64, th * height as f64, "#987987", expected);
}

#[test]
fn triangular_mesh_follows_the_grid() {
    let side = 60.0;
    let (width, height) = (2usize, 3usize);
    let entropy: Vec<(Scalar, Scalar)> = (0..width * (height + 1)).map(|v| (Scalar::ratio(2 + 25 * v as i64, 100), Scalar::ratio(7 * v as i64 - 9, 3))).collect();
    let moved = |v: usize| (alpha(v), (7.0 * v as f64 - 9.0) / 3.0);
    let mut lines = Vec::new();
    for y in 0..height {
        let mut line = Vec::new();
        for x in 0..2 * width {
            let xx = x / 2;
            let e1 = moved(y * width + xx);
            let e2 = moved((y + 1) * width + xx);
            if y & 1 == 0 {
                line.push((side / 4.0 + xx as f64 * side + e2.0, side / 2.0 + (y + 1) as f64 * side + e2.1));
                line.push((side / 4.0 + side / 2.0 + xx as f64 * side + e1.0, side / 2.0 + y as f64 * side + e1.1));
            } else {
                line.push((side / 4.0 + xx as f64 * side + e1.0, side / 2.0 + y as f64 * side + e1.1));
                line.push((side / 4.0 + side / 2.0 + xx as f64 * side + e2.0, side / 2.0 + (y + 1) as f64 * side + e2.1));
            }
        }
        lines.push(line);
    }
    let mut expected = Vec::new();
    for (j, line) in lines.iter().enumerate() {
        for i in 0..line.len() - 2 {
            let v = j * (line.len() - 2) + i;
            expected.push((
                Tag::Path,
                vec![
                    k("d"), t("M "), n(line[i].0), t(" "), n(line[i].1), t(" L "), n(line[i + 1].0), t(" "), n(line[i + 1].1), t(" L "), n(line[i + 2].0), t(" "),
                    n(line[i + 2].1), t(" Z"), k("fill"), t(colour(v)), k("fill-opacity"), n(alpha(v)), k("stroke"), t("#ddd"), k("stroke-width"), n(1.0),
                    k("stroke-opacity"), n(0.2), k("stroke-linejoin"), t("bevel"),
                ],
            ));
        }
    }
    let drawing = triangular_mesh(
        Scalar::whole(60),
        (width, height),
        &entropy,
        &paints((4 * width - 2) * height),
        (Scalar::whole(1), "#ddd", Scalar::ratio(2, 10)),
        "#987987",
    );
    assert_eq!(drawing.shapes.len(), 1 + (4 * width - 2) * height);
    check(&drawing, side * width as f64, side * (height + 1) as f64, "#987987", expected);
}

#[test]
fn un_deus_trois_follows_the_grid() {
    let step = 60.0;
    let (width, height) = (3usize, 2usize);
    let count = 3 * width * height;
    let stroke: Vec<(&str, Scalar, Scalar)> = (0..count).map(|v| (colour(v), Scalar::whole(2), Scalar::ratio(2 + 25 * v as i64, 100))).collect();
    let rotation: Vec<Scalar> = (0..count).map(|v| Scalar::whole(30 * v as i64)).collect();
    let turn = |ix: usize, x: usize, row: usize| {
        vec![
            k("stroke"), t(colour(ix)), k("stroke-width"), n(2.0), k("stroke-opacity"), n(alpha(ix)), k("transform"), t("rotate("), n(30.0 * ix as f64), t(" "),
            n((x as f64 + 0.5) * step), t(" "), n((row as f64 + 0.5) * step), t(")"),
        ]
    };
    let bar = |first: bool, x: usize, at: f64, row: usize| {
        vec![
            t(if first { "M " } else { " M " }), n((x as f64 + at) * step), t(" "), n(row as f64 * step), t(" L "), n((x as f64 + at) * step), t(" "),
            n((row + 1) as f64 * step),
        ]
    };
    let mut expected = Vec::new();
    for y in 0..height {
        for x in 0..width {
            let ix = y * width + x;
            expected.push((Tag::Path, list(vec![vec![k("d")], bar(true, x, 0.5, y), turn(ix, x, y)])));
        }
    }
    for y in 0..height {
        for x in 0..width {
            let ix = (height + y) * width + x;
            expected.push((Tag::Path, list(vec![vec![k("d")], bar(true, x, 0.2, height + y), bar(false, x, 0.8, height + y), turn(ix, x, height + y)])));
        }
    }
    for y in 0..height {
        for x in 0..width {
            let ix = (2 * height + y) * width + x;
            expected.push((
                Tag::Path,
                list(vec![
                    vec![k("d")],
                    bar(true, x, 0.1, 2 * height + y),
                    bar(false, x, 0.5, 2 * height + y),
                    bar(false, x, 0.9, 2 * height + y),
                    turn(ix, x, 2 * height + y),
                ]),
            ));
        }
    }
    let drawing = un_deus_trois(Scalar::whole(60), (width, height), &stroke, &rotation, "#987987");
    check(&drawing, step * width as f64, step * height as f64 * 3.0, "#987987", expected);
}

#[test]
fn xes_follow_the_grid() {
    for (width, height) in [(3usize, 2usize), (2, 3), (1, 1), (6, 6)] {
        let side = 60.0;
        let x_side = side * 3.0 * 0.943;
        let mut expected = Vec::new();
        for y in 0..height {
            for x in 0..width {
                let ix = y * width + x;
                let mut places = vec![(x, y)];
                if x == 0 {
                    places.push((width, y));
                }
                if y == 0 {
                    places.push((x, height));
                }
                if x == 0 && y == 0 {
                    places.push((width, height));
                }
                for (col, row) in places {
                    let dy = if x % 2 == 1 { (row as f64) * x_side - x_side * 0.5 + x_side / 4.0 } else { (row as f64) * x_side - x_side * 0.5 };
                    expected.push((
                        Tag::Group,
                        list(vec![
                            fill(ix),
                            vec![
                                k("transform"), t("translate("), n((col as f64) * x_side / 2.0 - x_side / 2.0), t(", "), n(dy - (row as f64) * x_side / 2.0),
                                t(") rotate(45, "), n(x_side / 2.0), t(", "), n(x_side / 2.0), t(")"),
                            ],
                            plus(side),
                        ]),
                    ));
                }
            }
        }
        let drawing = xes(Scalar::whole(60), (width, height), &paints(width * height), "#987987");
        assert_eq!(drawing.shapes.len(), 1 + (width + 1) * (height + 1));
        check(&drawing, x_side / 2.0 * width as f64, x_side / 2.0 * height as f64, "#987987", expected);
    }
}

#[test]
fn an_empty_grid_has_the_background_only() {
    let drawing = squares(Scalar::whole(60), (0, 4), &[], ("#ddd", Scalar::ratio(2, 10)), "#fff");
    assert_eq!(drawing.shapes.len(), 1);
    assert_eq!(drawing.width, Scalar { num: 0, root3: 0, den: 1 });
    let drawing = diamonds((Scalar::whole(60), Scalar::whole(60)), (3, 0), &[], ("#ddd", Scalar::ratio(2, 10)), "#fff");
    assert_eq!(drawing.shapes.len(), 1);
}

#[test]
fn plaid_follows_the_lists() {
    let distances: Vec<Scalar> = (0..4).map(|v| Scalar::ratio(50 + 40 * v, 10)).collect();
    let sizes: Vec<Scalar> = (0..4).map(|v| Scalar::ratio(35 + 70 * v, 10)).collect();
    let (mut w, mut h) = (0.0, 0.0);
    let mut expected = Vec::new();
    for i in 0..4 {
        h += 5.0 + i as f64 * 4.0;
        expected.push((
            Tag::Rectangle,
            vec![k("x"), n(0.0), k("y"), n(h), k("width"), t("100%"), k("height"), n(3.5 + i as f64 * 7.0), k("opacity"), n(alpha(i)), k("fill"), t(colour(i))],
        ));
        h += 3.5 + i as f64 * 7.0;
    }
    for i in 0..4 {
        w += 5.0 + i as f64 * 4.0;
        expected.push((
            Tag::Rectangle,
            vec![k("x"), n(w), k("y"), n(0.0), k("width"), n(3.5 + i as f64 * 7.0), k("height"), t("100%"), k("opacity"), n(alpha(i)), k("fill"), t(colour(i))],
        ));
        w += 3.5 + i as f64 * 7.0;
    }
    let drawing = plaid(&distances, &sizes, &paints(4), "#987987");
    check(&drawing, w, h, "#987987", expected);
    let empty = plaid(&[], &[], &[], "#987987");
    check(&empty, 0.0, 0.0, "#987987", vec![]);
}

#[test]
fn joy_division_follows_the_grid() {
    let step = 60.0;
    let (width, height) = (3usize, 2usize);
    let padding_top = 2usize;
    let stroke_width = 2.5;
    let pulses: Vec<Scalar> = (0..6).map(|v| Scalar::ratio(3 * v - 4, 2)).collect();
    let pulse = |v: usize| (3.0 * v as f64 - 4.0) / 2.0;
    let mut expected = Vec::new();
    for y in 0..height {
        let top = (y + 1 + padding_top) as f64 * step + stroke_width / 2.0;
        let mut path = vec![k("d"), t("M 0 "), n(top)];
        let (mut pleft, mut ptop) = (0.0, top);
        for x in 0..width {
            let ix = y * width + x;
            let top = top + pulse(ix);
            let left = (x + 1) as f64 * step;
            path.extend(vec![t(" Q "), n(pleft), t(" "), n(ptop), t(" "), n((left + pleft) / 2.0), t(" "), n((top + ptop) / 2.0)]);
            ptop = top;
            pleft = left;
        }
        path.extend(vec![t(" Q "), n(pleft), t(" "), n(ptop), t(" "), n(width as f64 * step), t(" "), n(top)]);
        path.extend(vec![k("fill"), t("#987987"), k("stroke"), t("#333"), k("stroke-opacity"), n(0.5), k("stroke-width"), n(stroke_width)]);
        expected.push((Tag::Path, path));
    }
    let drawing = joy_division(
        Scalar::ratio(120, 2),
        (width, height),
        &pulses,
        ("#333", Scalar::ratio(1, 2), Scalar::ratio(5, 2)),
        padding_top,
        "#987987",
    );
    check(&drawing, width as f64 * step, (height + 1 + padding_top) as f64 * step, "#987987", expected);
}

#[test]
fn piet_mondrian_follows_the_splits() {
    let splits = vec![
        (PietMondrianSplitType::X, Scalar::whole(80)),
        (PietMondrianSplitType::Y, Scalar::whole(220)),
        (PietMondrianSplitType::X, Scalar::whole(0)),
        (PietMondrianSplitType::Y, Scalar::whole(300)),
        (PietMondrianSplitType::X, Scalar::whole(150)),
    ];
    let (width, height) = (300.0, 300.0);
    let mut squares = vec![(0.0, 0.0, width, height)];
    for (kind, location) in [(0, 80.0), (1, 220.0), (0, 0.0), (1, 300.0), (0, 150.0)] {
        let mut next = vec![];
        for s in squares {
            let (x, y, w, h) = s;
            if kind == 0 {
                if x < location && x + w > location {
                    next.push((x, y, w - (x + w - location), h));
                    next.push((location, y, x + w - location, h));
                } else {
                    next.push(s);
                }
            } else if y < location && y + h > location {
                next.push((x, y, w, h - (y + h - location)));
                next.push((x, location, w, y + h - location));
            } else {
                next.push(s);
            }
        }
        squares = next;
    }
    assert_eq!(squares.len(), 6);
    let expected = squares
        .iter()
        .enumerate()
        .map(|(i, (x, y, w, h))| {
            (
                Tag::Rectangle,
                list(vec![
                    vec![k("x"), n(*x), k("y"), n(*y), k("width"), n(*w), k("height"), n(*h)],
                    fill(i),
                    vec![k("stroke"), t("#222"), k("stroke-width"), n(8.0), k("stroke-opacity"), n(1.0)],
                ]),
            )
        })
        .collect();
    let size = (Scalar::whole(300), Scalar::whole(300));
    assert_eq!(panes_of(&splits, size).len(), 6);
    let drawing = piet_mondrian(&splits, size, &paints(6), ("#222", Scalar::whole(8), Scalar::whole(1)), "#FFF");
    check(&drawing, width, height, "#FFF", expected);
    let whole = piet_mondrian(&[], size, &paints(1), ("#222", Scalar::whole(8), Scalar::whole(1)), "#FFF");
    assert_eq!(whole.shapes.len(), 2);
}

#[test]
fn circle_packing_follows_the_centres() {
    let centers: Vec<(f64, f64)> = vec![
        (50.0, 50.0), (60.0, 55.0), (150.0, 150.0), (198.5, 100.0), (100.0, 100.0), (10.0, 190.0), (140.0, 60.0), (120.5, 170.5), (30.0, 120.0), (1.0, 1.0),
    ];
    let (minr, maxr) = (2.0, 24.0);
    let (width, height) = (200.0, 200.0);
    let mut circles: Vec<(f64, f64, f64)> = Vec::new();
    let has_collision = |(x, y, r): (f64, f64, f64), circles: &Vec<(f64, f64, f64)>| {
        if x + r > width || x - r < 0.0 {
            return true;
        }
        if y + r > height || y - r < 0.0 {
            return true;
        }
        for c in circles.iter() {
            let a = r + c.2;
            let dx = x - c.0;
            let dy = y - c.1;
            if a * a >= dx * dx + dy * dy {
                return true;
            }
        }
        false
    };
    let mut expected = Vec::new();
    for (i, (x, y)) in centers.iter().enumerate() {
        let (x, y) = (*x, *y);
        if has_collision((x, y, minr), &circles) {
            continue;
        }
        let mut r = minr;
        while r < maxr {
            if has_collision((x, y, r), &circles) {
                r -= 1.0;
                break;
            }
            r += 1.0;
        }
        circles.push((x, y, r));
        expected.push((
            Tag::Circle,
            list(vec![vec![k("cx"), n(x), k("cy"), n(y), k("r"), n(r)], fill(i), vec![k("stroke"), t("#ddd"), k("stroke-width"), n(1.0), k("stroke-opacity"), n(0.2)]]),
        ));
    }
    assert!(expected.len() >= 6 && expected.len() < centers.len());
    let exact: Vec<(Scalar, Scalar)> = centers.iter().map(|(x, y)| (Scalar::ratio((x * 2.0) as i64, 2), Scalar::ratio((y * 2.0) as i64, 2))).collect();
    let drawing = circle_packing(
        &exact,
        (Scalar::ratio(4, 2), Scalar::ratio(48, 2)),
        (Scalar::ratio(400, 2), Scalar::ratio(400, 2)),
        &paints(centers.len()),
        ("#ddd", Scalar::ratio(2, 2), Scalar::ratio(2, 10)),
        "#EEE",
    );
    check(&drawing, width, height, "#EEE", expected);
}

#[test]
fn wrapping_grids_draw_one_more_row_and_column() {
    for (width, height) in [(1usize, 1usize), (3, 2), (2, 5)] {
        let fill = paints(width * height);
        let count = 1 + (width + 1) * (height + 1);
        let stroke = ("#ddd", Scalar::ratio(2, 10));
        assert_eq!(diamonds((Scalar::whole(20), Scalar::whole(30)), (width, height), &fill, stroke, "#fff").shapes.len(), count);
        assert_eq!(hexagons(Scalar::whole(20), (width, height), &fill, stroke, "#fff").shapes.len(), count);
        assert_eq!(chevrons(Scalar::whole(20), (width, height), &fill, stroke, "#fff").shapes.len(), count);
        assert_eq!(triangles(Scalar::whole(20), (width, height), &fill, stroke, "#fff").shapes.len(), count);
        assert_eq!(plus_signs(Scalar::whole(20), (width, height), &fill, stroke, "#fff").shapes.len(), count);
        assert_eq!(overlapping_circles(Scalar::whole(20), (width, height), &fill, "#fff").shapes.len(), count);
        assert_eq!(overlapping_rings(Scalar::whole(20), (width, height), &fill, "#fff").shapes.len(), count);
        assert_eq!(xes(Scalar::whole(20), (width, height), &fill, "#fff").shapes.len(), count);
    }
}

#[test]
fn a_wrapping_grid_paints_the_copies_like_the_cell() {
    let (width, height) = (3usize, 2usize);
    let drawing = overlapping_circles(Scalar::whole(10), (width, height), &paints(6), "#fff");
    let mut seen = vec![0usize; 6];
    for shape in &drawing.shapes[1..] {
        let tokens = toks(&shape.pieces);
        let opacity = match &tokens[9] {
            Tok::N(v) => *v,
            other => panic!("{:?}", other),
        };
        let cell = ((opacity - 0.02) * 4.0).round() as usize;
        seen[cell] += 1;
    }
    assert_eq!(seen, vec![4, 2, 2, 2, 1, 1]);
    let centres: Vec<(f64, f64)> = drawing.shapes[1..5]
        .iter()
        .map(|shape| match (&toks(&shape.pieces)[1], &toks(&shape.pieces)[3]) {
            (Tok::N(x), Tok::N(y)) => (*x, *y),
            other => panic!("{:?}", other),
        })
        .collect();
    assert_eq!(centres, vec![(0.0, 0.0), (30.0, 0.0), (0.0, 20.0), (30.0, 20.0)]);
}

#[test]
fn attributes_read_a_run_of_pieces() {
    let drawing = plus_signs(Scalar::whole(60), (1, 1), &paints(1), ("#ddd", Scalar::ratio(2, 10)), "#987987");
    let pieces = &drawing.shapes[1].pieces;
    assert_eq!(children(pieces), vec![Tag::Rectangle, Tag::Rectangle]);
    let list = attributes(pieces);
    let keys: Vec<(usize, &str, usize)> = list
        .iter()
        .map(|a| match pieces[a.key] {
            Piece::Key(name) => (a.element, name, a.end - a.key - 1),
            other => panic!("{:?}", other),
        })
        .collect();
    assert_eq!(
        keys,
        vec![
            (0, "fill", 1), (0, "stroke", 1), (0, "stroke-opacity", 1), (0, "fill-opacity", 1), (0, "transform", 5),
            (1, "x", 1), (1, "y", 1), (1, "width", 1), (1, "height", 1),
            (2, "x", 1), (2, "y", 1), (2, "width", 1), (2, "height", 1),
        ]
    );
    assert_eq!(list[4], Attribute { element: 0, key: 8, end: 14 });
    assert_eq!(attributes(&vec![]), vec![]);
    assert_eq!(attributes(&vec![Piece::Key("a")]), vec![Attribute { element: 0, key: 0, end: 1 }]);
    assert_eq!(
        attributes(&vec![Piece::Text("x"), Piece::Key("a"), Piece::Text("1"), Piece::Hex(2), Piece::Child(Tag::Path), Piece::Key("b")]),
        vec![Attribute { element: 0, key: 1, end: 4 }, Attribute { element: 1, key: 5, end: 6 }]
    );
}
