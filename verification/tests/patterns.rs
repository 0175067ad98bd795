use geopattern::digest::PatternError;
use geopattern::patterns::{
    draw, Chevrons, ConcentricCircles, Diamonds, Hexagons, MosaicSquares, NestedSquares, Octagons,
    OverlappingCircles, OverlappingRings, Pattern, Patterns, Plaid, PlusSigns, SineWaves, Squares,
    Tessellation, Triangles, Xes,
};
use geopattern::scalar::Scalar;
use geopattern::shape::{fill_color, opacity, Drawing, Piece, Shape, Tag};

const DIGESTS: [&str; 4] = [
    "51551ffd119cd1cea023f9a13890ee014f8d53b7",
    "da39a3ee5e6b4b0d3255bfef95601890afd80709",
    "5442e2b64fa09764b9f593867e59a97292c84059",
    "E8DF966767FBD3A383C53216799BEB4B4564CB74",
];

#[derive(Debug, Clone)]
enum Tok {
    K(String),
    T(String),
    N(f64),
    C(Tag),
}

fn k(s: &str) -> Tok {
    Tok::K(s.to_string())
}

fn t(s: &str) -> Tok {
    Tok::T(s.to_string())
}

fn n(v: f64) -> Tok {
    Tok::N(v)
}

fn c(tag: Tag) -> Tok {
    Tok::C(tag)
}

fn value(s: Scalar) -> f64 {
    (s.num as f64 + s.root3 as f64 * 3f64.sqrt()) / s.den as f64
}

/// The pieces of a shape with neighbouring texts joined.
fn toks(pieces: &[Piece]) -> Vec<Tok> {
    let mut out: Vec<Tok> = Vec::new();
    for p in pieces {
        let next = match p {
            Piece::Key(s) => Tok::K(s.to_string()),
            Piece::Text(s) => Tok::T(s.to_string()),
            Piece::Number(v) => Tok::N(value(*v)),
            Piece::Hex(v) => Tok::T(format!("{:X}", v)),
            Piece::Child(tag) => Tok::C(*tag),
        };
        match (out.last_mut(), &next) {
            (Some(Tok::T(a)), Tok::T(b)) => a.push_str(b),
            _ => out.push(next),
        }
    }
    out
}

fn joined(tokens: Vec<Tok>) -> Vec<Tok> {
    let mut out: Vec<Tok> = Vec::new();
    for next in tokens {
        match (out.last_mut(), &next) {
            (Some(Tok::T(a)), Tok::T(b)) => a.push_str(b),
            _ => out.push(next),
        }
    }
    out
}

fn close(a: f64, b: f64) -> bool {
    (a - b).abs() <= 1e-9 * (1.0 + a.abs().max(b.abs()))
}

fn check_shape(shape: &Shape, tag: Tag, expected: Vec<Tok>) {
    assert_eq!(shape.tag, tag);
    let got = toks(&shape.pieces);
    let expected = joined(expected);
    assert_eq!(got.len(), expected.len(), "{:?} against {:?}", got, expected);
    for (a, b) in got.iter().zip(expected.iter()) {
        let same = match (a, b) {
            (Tok::K(x), Tok::K(y)) => x == y,
            (Tok::T(x), Tok::T(y)) => x == y,
            (Tok::N(x), Tok::N(y)) => close(*x, *y),
            (Tok::C(x), Tok::C(y)) => x == y,
            _ => false,
        };
        assert!(same, "{:?} against {:?} in {:?}", a, b, got);
    }
}

fn check(drawing: &Drawing, width: f64, height: f64, expected: Vec<(Tag, Vec<Tok>)>) {
    assert!(close(value(drawing.width), width));
    assert!(close(value(drawing.height), height));
    assert_eq!(drawing.shapes.len(), expected.len());
    for (shape, (tag, tokens)) in drawing.shapes.iter().zip(expected.into_iter()) {
        check_shape(shape, tag, tokens);
    }
}

fn digit(hash: &str, i: usize) -> u8 {
    u8::from_str_radix(&hash[i..i + 1], 16).unwrap()
}

fn rescale(v: f64, amin: f64, amax: f64, bmin: f64, bmax: f64) -> f64 {
    bmax - (amax - v) * ((bmax - bmin) / (amax - amin))
}

fn first(hash: &str, i: usize, lo: f64, hi: f64) -> f64 {
    rescale(digit(hash, i) as f64, 0.0, 15.0, lo, hi)
}

fn fill(v: u8) -> &'static str {
    if v & 1 == 1 {
        "#222"
    } else {
        "#ddd"
    }
}

fn alpha(v: u8) -> f64 {
    rescale(v as f64, 0.0, 15.0, 0.02, 0.15)
}

fn paint(v: u8) -> Vec<Tok> {
    vec![k("fill"), t(fill(v)), k("fill-opacity"), n(alpha(v))]
}

fn outline() -> Vec<Tok> {
    vec![k("stroke"), t("#000"), k("stroke-opacity"), n(0.02)]
}

fn translate(x: f64, y: f64) -> Vec<Tok> {
    vec![k("transform"), t("translate("), n(x), t(", "), n(y), t(")")]
}

fn list(parts: Vec<Vec<Tok>>) -> Vec<Tok> {
    parts.into_iter().flatten().collect()
}

#[test]
fn fill_color_goes_by_parity() {
    for v in 0..=15u8 {
        assert_eq!(fill_color(v), fill(v));
    }
    assert_eq!(fill_color(0), "#ddd");
    assert_eq!(fill_color(1), "#222");
}

#[test]
fn opacity_spans_the_band() {
    assert_eq!(opacity(0), Scalar { num: 30, root3: 0, den: 1500 });
    assert_eq!(opacity(15), Scalar { num: 225, root3: 0, den: 1500 });
    for v in 0..=15u8 {
        assert!(close(value(opacity(v)), alpha(v)));
    }
}

#[test]
fn diamonds_follow_the_recipe() {
    for hash in DIGESTS {
        let w = first(hash, 0, 10.0, 50.0);
        let h = first(hash, 1, 10.0, 50.0);
        let mut expected = Vec::new();
        for y in 0..6 {
            for x in 0..6 {
                let v = digit(hash, y * 6 + x);
                let dx = if y % 2 == 1 { w / 2.0 } else { 0.0 };
                let base = list(vec![
                    vec![k("points"), n(w / 2.0), t(",0,"), n(w), t(","), n(h / 2.0), t(","), n(w / 2.0), t(","), n(h), t(",0,"), n(h / 2.0)],
                    paint(v),
                    outline(),
                ]);
                let at = |tx: f64, ty: f64| (Tag::Polyline, list(vec![base.clone(), translate(tx, ty)]));
                expected.push(at(dx + (x as f64) * w - (w / 2.0), (h / 2.0) * (y as f64) - (h / 2.0)));
                if x == 0 {
                    expected.push(at(dx + 6.0 * w - (w / 2.0), (h / 2.0) * (y as f64) - (h / 2.0)));
                }
                if y == 0 {
                    expected.push(at(dx + (x as f64) * w - (w / 2.0), h / 2.0 * 6.0 - h / 2.0));
                }
                if x == 0 && y == 0 {
                    expected.push(at(dx + 6.0 * w - (w / 2.0), (h / 2.0) * 6.0 - (h / 2.0)));
                }
            }
        }
        let drawing = Diamonds::new(hash).draw().unwrap();
        assert_eq!(drawing.shapes.len(), 49);
        check(&drawing, w * 6.0, h * 3.0, expected);
    }
}

#[test]
fn diamonds_give_exact_numbers() {
    let drawing = Diamonds::new(DIGESTS[0]).draw().unwrap();
    assert_eq!(drawing.width, Scalar { num: 6 * 350, root3: 0, den: 15 });
    assert_eq!(drawing.height, Scalar { num: 3 * 190, root3: 0, den: 15 });
    let shape = &drawing.shapes[0];
    assert_eq!(shape.pieces[0], Piece::Key("points"));
    assert_eq!(shape.pieces[1], Piece::Number(Scalar { num: 350, root3: 0, den: 30 }));
    assert_eq!(shape.pieces[2], Piece::Text(",0,"));
    assert_eq!(shape.pieces[3], Piece::Number(Scalar { num: 350, root3: 0, den: 15 }));
    assert_eq!(shape.pieces[13], Piece::Text("#222"));
    assert_eq!(shape.pieces[15], Piece::Number(Scalar { num: 95, root3: 0, den: 1500 }));
}

#[test]
fn concentric_circles_follow_the_recipe() {
    for hash in DIGESTS {
        let rs = first(hash, 0, 10.0, 60.0);
        let sw = rs / 5.0;
        let mut expected = Vec::new();
        for y in 0..6 {
            for x in 0..6 {
                let i = y * 6 + x;
                let v = digit(hash, i);
                let (cx, cy) = ((x as f64) * rs + (x as f64) * sw + (rs + sw) / 2.0, (y as f64) * rs + (y as f64) * sw + (rs + sw) / 2.0);
                expected.push((
                    Tag::Circle,
                    vec![k("cx"), n(cx), k("cy"), n(cy), k("r"), n(rs / 2.0), k("stroke"), t(fill(v)), k("style"), t("opacity:"), n(alpha(v)), t(&format!("; stroke-width:0x{:X};", sw as i64))],
                ));
                let v = digit(hash, 39 - i);
                expected.push((Tag::Circle, list(vec![vec![k("cx"), n(cx), k("cy"), n(cy), k("r"), n(rs / 4.0)], paint(v)])));
            }
        }
        let drawing = ConcentricCircles::new(hash).draw().unwrap();
        assert_eq!(drawing.shapes.len(), 72);
        check(&drawing, (rs + sw) * 6.0, (rs + sw) * 6.0, expected);
    }
}

#[test]
fn concentric_circles_read_the_disc_from_the_back() {
    let hash = "1000000000000000000000000000000000000005";
    let drawing = ConcentricCircles::new(hash).draw().unwrap();
    let ring = toks(&drawing.shapes[0].pieces);
    let disc = toks(&drawing.shapes[1].pieces);
    assert!(matches!(&ring[7], Tok::T(s) if s == "#222"));
    assert!(matches!(&disc[7], Tok::T(s) if s == "#222"));
    assert!(matches!(&disc[9], Tok::N(v) if close(*v, alpha(5))));
    let last = toks(&drawing.shapes[71].pieces);
    assert!(matches!(&last[9], Tok::N(v) if close(*v, alpha(0))));
}

#[test]
fn hexagons_follow_the_recipe() {
    for hash in DIGESTS {
        let l = first(hash, 0, 8.0, 60.0);
        let hw = l * 2.0;
        let hh = l * 3f64.sqrt();
        let a = l / 2.0;
        let b = (std::f64::consts::PI / 3.0).sin() * l;
        let mut expected = Vec::new();
        for y in 0..6 {
            for x in 0..6 {
                let v = digit(hash, y * 6 + x);
                let dy = if x % 2 == 1 { (y as f64) * hh + hh / 2.0 } else { (y as f64) * hh };
                let base = list(vec![
                    vec![
                        k("points"), t("0,"), n(b), t(","), n(a), t(",0,"), n(a + l), t(",0,"), n(2.0 * l), t(","), n(b), t(","), n(a + l), t(","),
                        n(2.0 * b), t(","), n(a), t(","), n(2.0 * b), t(",0,"), n(b),
                    ],
                    paint(v),
                    outline(),
                ]);
                let at = |tx: f64, ty: f64| (Tag::Polyline, list(vec![base.clone(), translate(tx, ty)]));
                expected.push(at((x as f64) * l * 1.5 - hw / 2.0, dy - hh / 2.0));
                if x == 0 {
                    expected.push(at(6.0 * l * 1.5 - hw / 2.0, dy - hh / 2.0));
                }
                if y == 0 {
                    let dy = if x % 2 == 1 { 6.0 * hh + hh / 2.0 } else { 6.0 * hh };
                    expected.push(at((x as f64) * l * 1.5 - hw / 2.0, dy - hh / 2.0));
                }
                if x == 0 && y == 0 {
                    expected.push(at(6.0 * l * 1.5 - hw / 2.0, 5.0 * hh + hh / 2.0));
                }
            }
        }
        let drawing = Hexagons::new(hash).draw().unwrap();
        check(&drawing, hw * 3.0 + l * 3.0, hh * 3.0, expected);
    }
}

#[test]
fn mosaic_squares_follow_the_recipe() {
    for hash in DIGESTS {
        let s = first(hash, 0, 15.0, 50.0);
        let tri = |v: u8, tx: f64, ty: f64, scale: &str| {
            (
                Tag::Polyline,
                list(vec![
                    vec![k("points"), t("0,0,"), n(s), t(","), n(s), t(",0,"), n(s), t(",0,0")],
                    paint(v),
                    outline(),
                    vec![k("transform"), t("translate("), n(tx), t(", "), n(ty), t(&format!(") scale({})", scale))],
                ]),
            )
        };
        let mut expected = Vec::new();
        for y in 0..4 {
            for x in 0..4 {
                let i = y * 4 + x;
                let v1 = digit(hash, i);
                let v2 = digit(hash, i + 1);
                let (px, py) = ((x as f64) * s * 2.0, (y as f64) * s * 2.0);
                if x % 2 == y % 2 {
                    expected.push(tri(v1, px, py + s, "1, -1"));
                    expected.push(tri(v1, px + s * 2.0, py + s, "-1, -1"));
                    expected.push(tri(v1, px, py + s, "1, 1"));
                    expected.push(tri(v1, px + s * 2.0, py + s, "-1, 1"));
                } else {
                    expected.push(tri(v1, px + s, py, "-1, 1"));
                    expected.push(tri(v1, px + s, py + s * 2.0, "1, -1"));
                    expected.push(tri(v2, px + s, py + s * 2.0, "-1, -1"));
                    expected.push(tri(v2, px + s, py, "1, 1"));
                }
            }
        }
        let drawing = MosaicSquares::new(hash).draw().unwrap();
        assert_eq!(drawing.shapes.len(), 64);
        check(&drawing, s * 8.0, s * 8.0, expected);
    }
}

#[test]
fn nested_squares_follow_the_recipe() {
    for hash in DIGESTS {
        let s = first(hash, 0, 4.0, 12.0);
        let ss = s * 7.0;
        let mut expected = Vec::new();
        for y in 0..6 {
            for x in 0..6 {
                let i = y * 6 + x;
                let v = digit(hash, i);
                expected.push((
                    Tag::Rectangle,
                    vec![
                        k("x"), n((x as f64) * ss + (x as f64) * s * 2.0 + s / 2.0), k("y"), n((y as f64) * ss + (y as f64) * s * 2.0 + s / 2.0),
                        k("width"), n(ss), k("height"), n(ss), k("fill"), t("none"), k("stroke"), t(fill(v)),
                        k("style"), t("opacity:"), n(alpha(v)), t(&format!(";stroke-width:0x{:X};", s as u64)),
                    ],
                ));
                let v = digit(hash, 39 - i);
                expected.push((
                    Tag::Rectangle,
                    vec![
                        k("x"), n((x as f64) * ss + (x as f64) * s * 2.0 + s / 2.0 + s * 2.0),
                        k("y"), n((y as f64) * ss + (y as f64) * s * 2.0 + s / 2.0 + s * 2.0),
                        k("width"), n(s * 3.0), k("height"), n(s * 3.0), k("fill"), t("none"), k("stroke"), t(fill(v)),
                        k("style"), t("opacity:"), n(alpha(v)), t(&format!(";stroke-width:0x{:X};", s as u64)),
                    ],
                ));
            }
        }
        let drawing = NestedSquares::new(hash).draw().unwrap();
        check(&drawing, (s + ss) * 6.0 + s * 6.0, (s + ss) * 6.0 + s * 6.0, expected);
    }
}

#[test]
fn octagons_follow_the_recipe() {
    for hash in DIGESTS {
        let s = first(hash, 0, 10.0, 60.0);
        let c = 0.33 * s;
        let mut expected = Vec::new();
        for y in 0..6 {
            for x in 0..6 {
                let v = digit(hash, y * 6 + x);
                expected.push((
                    Tag::Polyline,
                    list(vec![
                        vec![
                            k("points"), n(c), t(",0,"), n(s - c), t(",0,"), n(s), t(","), n(c), t(","), n(s), t(","), n(s - c), t(","), n(s - c), t(","),
                            n(s), t(","), n(c), t(","), n(s), t(",0,"), n(s - c), t(",0,"), n(c), t(","), n(c), t(",0"),
                        ],
                        paint(v),
                        outline(),
                        translate((x as f64) * s, (y as f64) * s),
                    ]),
                ));
            }
        }
        let drawing = Octagons::new(hash).draw().unwrap();
        assert_eq!(drawing.shapes.len(), 36);
        check(&drawing, s * 6.0, s * 6.0, expected);
    }
}

#[test]
fn overlapping_circles_follow_the_recipe() {
    for hash in DIGESTS {
        let d = first(hash, 0, 25.0, 200.0);
        let r = d / 2.0;
        let mut expected = Vec::new();
        for y in 0..6 {
            for x in 0..6 {
                let v = digit(hash, y * 6 + x);
                let at = |cx: f64, cy: f64| {
                    (Tag::Circle, vec![k("cx"), n(cx), k("cy"), n(cy), k("r"), n(r), k("fill"), t(fill(v)), k("style"), t("opacity:"), n(alpha(v)), t(";")])
                };
                expected.push(at((x as f64) * r, (y as f64) * r));
                if x == 0 {
                    expected.push(at(6.0 * r, (y as f64) * r));
                }
                if y == 0 {
                    expected.push(at((x as f64) * r, 6.0 * r));
                }
                if x == 0 && y == 0 {
                    expected.push(at(6.0 * r, 6.0 * r));
                }
            }
        }
        let drawing = OverlappingCircles::new(hash).draw().unwrap();
        check(&drawing, r * 6.0, r * 6.0, expected);
    }
}

#[test]
fn overlapping_rings_follow_the_recipe() {
    for hash in DIGESTS {
        let s = first(hash, 0, 10.0, 60.0);
        let mut expected = Vec::new();
        for y in 0..6 {
            for x in 0..6 {
                let v = digit(hash, y * 6 + x);
                let at = |cx: f64, cy: f64| {
                    (
                        Tag::Circle,
                        vec![
                            k("cx"), n(cx), k("cy"), n(cy), k("r"), n(s - s / 8.0), k("fill"), t("none"), k("stroke"), t(fill(v)),
                            k("style"), t("opacity:"), n(alpha(v)), t(&format!(";stroke-width:0x{:X};", (s / 4.0) as u64)),
                        ],
                    )
                };
                expected.push(at((x as f64) * s, (y as f64) * s));
                if x == 0 {
                    expected.push(at(6.0 * s, (y as f64) * s));
                }
                if y == 0 {
                    expected.push(at((x as f64) * s, 6.0 * s));
                }
                if x == 0 && y == 0 {
                    expected.push(at(6.0 * s, 6.0 * s));
                }
            }
        }
        let drawing = OverlappingRings::new(hash).draw().unwrap();
        check(&drawing, s * 6.0, s * 6.0, expected);
    }
}

#[test]
fn plaid_follows_the_recipe() {
    for hash in DIGESTS {
        let (mut w, mut h) = (0.0, 0.0);
        let mut expected = Vec::new();
        for i in 1..19 {
            let j = 2 * (i - 1);
            h += digit(hash, j) as f64 + 5.0;
            let val = digit(hash, j + 1);
            let sh = val as f64 + 5.0;
            expected.push((
                Tag::Rectangle,
                vec![k("x"), n(0.0), k("y"), n(h), k("width"), t("100%"), k("height"), n(sh), k("opacity"), n(alpha(val)), k("fill"), t(fill(val))],
            ));
            h += sh;
        }
        for i in 1..19 {
            let j = 2 * (i - 1);
            w += digit(hash, j) as f64 + 5.0;
            let val = digit(hash, j + 1);
            let sw = val as f64 + 5.0;
            expected.push((
                Tag::Rectangle,
                vec![k("x"), n(w), k("y"), n(0.0), k("width"), n(sw), k("height"), t("100%"), k("opacity"), n(alpha(val)), k("fill"), t(fill(val))],
            ));
            w += sw;
        }
        let drawing = Plaid::new(hash).draw().unwrap();
        assert_eq!(drawing.shapes.len(), 36);
        check(&drawing, w, h, expected);
    }
}

fn plus(s: f64) -> Vec<Tok> {
    vec![
        c(Tag::Rectangle), k("x"), n(s), k("y"), n(0.0), k("width"), n(s), k("height"), n(s * 3.0),
        c(Tag::Rectangle), k("x"), n(0.0), k("y"), n(s), k("width"), n(s * 3.0), k("height"), n(s),
    ]
}

#[test]
fn plus_signs_follow_the_recipe() {
    for hash in DIGESTS {
        let s = first(hash, 0, 10.0, 25.0);
        let ps = s * 3.0;
        let mut expected = Vec::new();
        for y in 0..6 {
            for x in 0..6 {
                let v = digit(hash, y * 6 + x);
                let dx = (y % 2) as f64;
                let at = |tx: f64, ty: f64| {
                    (
                        Tag::Group,
                        list(vec![
                            vec![k("fill"), t(fill(v))],
                            outline(),
                            vec![k("style"), t("fill-opacity:"), n(alpha(v)), t(";")],
                            translate(tx, ty),
                            plus(s),
                        ]),
                    )
                };
                expected.push(at((x as f64) * (ps - s) + dx * s - s, (y as f64) * (ps - s) - ps / 2.0));
                if x == 0 {
                    expected.push(at(4.0 * ps - (x as f64) * s + dx * s - s, (y as f64) * (ps - s) - ps / 2.0));
                }
                if y == 0 {
                    expected.push(at((x as f64) * (ps - s) + dx * s - s, 4.0 * ps - (y as f64) * s - ps / 2.0));
                }
                if x == 0 && y == 0 {
                    expected.push(at(4.0 * ps - (x as f64) * s + dx * s - s, 4.0 * ps - (y as f64) * s - ps / 2.0));
                }
            }
        }
        let drawing = PlusSigns::new(hash).draw().unwrap();
        check(&drawing, s * 12.0, s * 12.0, expected);
    }
}

#[test]
fn sine_waves_follow_the_recipe() {
    for hash in DIGESTS {
        let p = first(hash, 0, 100.0, 400.0);
        let a = first(hash, 1, 30.0, 100.0);
        let ww = first(hash, 2, 3.0, 30.0);
        let mut expected = Vec::new();
        for i in 0..36 {
            let v = digit(hash, i);
            let xoff = (p / 4.0) * 0.7;
            let at = |ty: f64| {
                (
                    Tag::Path,
                    vec![
                        k("d"), t("M0 "), n(a), t(" C "), n(xoff), t(" 0, "), n(p / 2.0 - xoff), t(" 0, "), n(p / 2.0), t(" "), n(a), t(" S "), n(p - xoff),
                        t(" "), n(a * 2.0), t(", "), n(p), t(" "), n(a), t(" S "), n(p * 1.5 - xoff), t(" 0, "), n(p * 1.5), t(", "), n(a),
                        k("fill"), t("none"), k("stroke"), t(fill(v)),
                        k("style"), t("opacity:"), n(alpha(v)), t(&format!(";stroke-width:0x{:X};", ww as u64)),
                        k("transform"), t("translate(-"), n(p / 4.0), t(", "), n(ty), t(")"),
                    ],
                )
            };
            expected.push(at((ww * (i as f64)) - (a * 1.5)));
            expected.push(at((ww * (i as f64)) - (a * 1.5) + ww * 36.0));
        }
        let drawing = SineWaves::new(hash).draw().unwrap();
        assert_eq!(drawing.shapes.len(), 72);
        check(&drawing, p, ww * 36.0, expected);
    }
}

#[test]
fn squares_follow_the_recipe() {
    for hash in DIGESTS {
        let s = first(hash, 0, 10.0, 60.0);
        let mut expected = Vec::new();
        for y in 0..6 {
            for x in 0..6 {
                let v = digit(hash, y * 6 + x);
                expected.push((
                    Tag::Rectangle,
                    list(vec![vec![k("x"), n((x as f64) * s), k("y"), n((y as f64) * s), k("width"), n(s), k("height"), n(s)], paint(v), outline()]),
                ));
            }
        }
        let drawing = Squares::new(hash).draw().unwrap();
        check(&drawing, s * 6.0, s * 6.0, expected);
    }
}

#[test]
fn chevrons_follow_the_recipe() {
    for hash in DIGESTS {
        let cw = first(hash, 0, 30.0, 80.0);
        let (w, h) = (cw, cw);
        let e = h * 0.66;
        let mut expected = Vec::new();
        for y in 0..6 {
            for x in 0..6 {
                let v = digit(hash, y * 6 + x);
                let mut places = vec![(x, y)];
                if x == 0 {
                    places.push((6, y));
                }
                if y == 0 {
                    places.push((x, 6));
                }
                if x == 0 && y == 0 {
                    places.push((6, 6));
                }
                for (col, row) in places {
                    expected.push((
                        Tag::Group,
                        list(vec![
                            paint(v),
                            outline(),
                            vec![k("stroke-width"), n(1.0)],
                            translate((col as f64) * cw, (row as f64) * cw * 0.66 - cw / 2.0),
                            vec![c(Tag::Polyline), k("points"), t("0,0,"), n(w / 2.0), t(","), n(h - e), t(","), n(w / 2.0), t(","), n(h), t(",0,"), n(e), t(",0,0")],
                            vec![
                                c(Tag::Polyline), k("points"), n(w / 2.0), t(","), n(h - e), t(","), n(w), t(",0,"), n(w), t(","), n(e), t(","), n(w / 2.0),
                                t(","), n(h), t(","), n(w / 2.0), t(","), n(h - e),
                            ],
                        ]),
                    ));
                }
            }
        }
        let drawing = Chevrons::new(hash).draw().unwrap();
        assert_eq!(drawing.shapes.len(), 49);
        check(&drawing, cw * 6.0, cw * 6.0 * 0.66, expected);
    }
}

#[test]
fn triangles_follow_the_recipe() {
    for hash in DIGESTS {
        let s = first(hash, 0, 15.0, 80.0);
        let th = 3f64.sqrt() * s / 2.0;
        let mut expected = Vec::new();
        for y in 0..6 {
            for x in 0..6 {
                let v = digit(hash, y * 6 + x);
                let rot = if (y % 2 == 0 && x % 2 == 0) || (y % 2 != 0 && x % 2 != 0) { 180.0 } else { 0.0 };
                let mut places = vec![(x, y)];
                if x == 0 {
                    places.push((6, y));
                }
                if y == 0 {
                    places.push((x, 6));
                }
                if x == 0 && y == 0 {
                    places.push((6, 6));
                }
                for (col, row) in places {
                    expected.push((
                        Tag::Polyline,
                        list(vec![
                            vec![k("points"), n(s / 2.0), t(",0,"), n(s), t(","), n(th), t(",0,"), n(th), t(","), n(s / 2.0), t(",0")],
                            paint(v),
                            outline(),
                            vec![
                                k("transform"), t("translate("), n((col as f64) * s * 0.5 - s / 2.0), t(", "), n(th * (row as f64)), t(") rotate("), n(rot), t(", "),
                                n(s / 2.0), t(", "), n(th / 2.0), t(")"),
                            ],
                        ]),
                    ));
                }
            }
        }
        let drawing = Triangles::new(hash).draw().unwrap();
        assert_eq!(drawing.shapes.len(), 49);
        check(&drawing, s * 3.0, th * 6.0, expected);
    }
}

#[test]
fn xes_follow_the_recipe() {
    for hash in DIGESTS {
        let s = first(hash, 0, 10.0, 25.0);
        let xs = s * 3.0 * 0.943;
        let mut expected = Vec::new();
        for y in 0..6 {
            for x in 0..6 {
                let v = digit(hash, y * 6 + x);
                let mut places = vec![(x, y)];
                if x == 0 {
                    places.push((6, y));
                }
                if y == 0 {
                    places.push((x, 6));
                }
                if x == 0 && y == 0 {
                    places.push((6, 6));
                }
                for (col, row) in places {
                    let dy = if x % 2 == 1 { (row as f64) * xs - xs * 0.5 + xs / 4.0 } else { (row as f64) * xs - xs * 0.5 };
                    expected.push((
                        Tag::Group,
                        list(vec![
                            vec![k("fill"), t(fill(v)), k("style"), t("opacity:"), n(alpha(v)), t(";")],
                            vec![
                                k("transform"), t("translate("), n((col as f64) * xs / 2.0 - xs / 2.0), t(", "), n(dy - (row as f64) * xs / 2.0), t(") rotate(45, "),
                                n(xs / 2.0), t(", "), n(xs / 2.0), t(")"),
                            ],
                            plus(s),
                        ]),
                    ));
                }
            }
        }
        let drawing = Xes::new(hash).draw().unwrap();
        assert_eq!(drawing.shapes.len(), 49);
        check(&drawing, xs * 3.0, xs * 3.0, expected);
    }
}

#[test]
fn tessellation_follows_the_recipe() {
    for hash in DIGESTS {
        let l = first(hash, 0, 5.0, 40.0);
        let hexw = l * 2.0;
        let hexh = l * 3f64.sqrt();
        let th = l / 2.0 * 3f64.sqrt();
        let tilew = l * 3.0 + th * 2.0;
        let tileh = hexh * 2.0 + l * 2.0;
        let mut expected = Vec::new();
        for i in 0..20 {
            let v = digit(hash, i);
            let common = list(vec![paint(v), outline(), vec![k("stroke-width"), n(1.0)]]);
            let p = |transform: Vec<Tok>| {
                (
                    Tag::Polyline,
                    list(vec![vec![k("points"), t("0,0,"), n(th), t(","), n(l / 2.0), t(",0,"), n(l), t(",0,0")], common.clone(), vec![k("transform")], transform]),
                )
            };
            let r = |x: f64, y: f64| (Tag::Rectangle, list(vec![common.clone(), vec![k("x"), n(x), k("y"), n(y), k("width"), n(l), k("height"), n(l)]]));
            let q = |transform: Vec<Tok>| {
                (
                    Tag::Rectangle,
                    list(vec![common.clone(), vec![k("x"), n(0.0), k("y"), n(0.0), k("width"), n(l), k("height"), n(l), k("transform")], transform]),
                )
            };
            let tr = |pre: &str, x: f64, y: f64, post: &str| vec![t(&format!("{}translate(", pre)), n(x), t(", "), n(y), t(&format!("){}", post))];
            let turn = |pre: &str, x: f64, y: f64, mid: &str, z: f64, post: &str| {
                vec![t(&format!("{}translate(", pre)), n(x), t(", "), n(y), t(&format!("){}", mid)), n(z), t(post)]
            };
            match i {
                0 => {
                    expected.push(r(-l / 2.0, -l / 2.0));
                    expected.push(r(tilew - l / 2.0, -l / 2.0));
                    expected.push(r(-l / 2.0, tileh - l / 2.0));
                    expected.push(r(tilew - l / 2.0, tileh - l / 2.0));
                }
                1 => expected.push(r(hexw / 2.0 + th, hexh / 2.0)),
                2 => {
                    expected.push(r(-l / 2.0, tileh / 2.0 - l / 2.0));
                    expected.push(r(tilew - l / 2.0, tileh / 2.0 - l / 2.0));
                }
                3 => expected.push(r(hexw / 2.0 + th, hexh * 1.5 + l)),
                4 => {
                    expected.push(p(list(vec![tr("", l / 2.0, -l / 2.0, " rotate(0, "), vec![n(l / 2.0), t(", "), n(th / 2.0), t(")")]])));
                    expected.push(p(list(vec![tr("", l / 2.0, tileh + l / 2.0, " rotate(0, "), vec![n(l / 2.0), t(", "), n(th / 2.0), t(") scale(1, -1)")]])));
                }
                5 => {
                    expected.push(p(list(vec![tr("", tilew - l / 2.0, -l / 2.0, " rotate(0, "), vec![n(l / 2.0), t(", "), n(th / 2.0), t(") scale(-1, 1)")]])));
                    expected.push(p(list(vec![
                        tr("", tilew - l / 2.0, tileh + l / 2.0, " rotate(0, "),
                        vec![n(l / 2.0), t(", "), n(th / 2.0), t(") scale(-1, -1)")],
                    ])));
                }
                6 => expected.push(p(tr("", tilew / 2.0 + l / 2.0, hexh / 2.0, ""))),
                7 => expected.push(p(tr("", tilew / 2.0 - l / 2.0, hexh / 2.0, " scale(-1, 1)"))),
                8 => expected.push(p(tr("", tilew / 2.0 + l / 2.0, tileh - hexh / 2.0, " scale(1, -1)"))),
                9 => expected.push(p(tr("", tilew / 2.0 - l / 2.0, tileh - hexh / 2.0, " scale(-1, -1)"))),
                10 => expected.push(p(tr("", l / 2.0, tileh / 2.0 - l / 2.0, ""))),
                11 => expected.push(p(tr("", tilew - l / 2.0, tileh / 2.0 - l / 2.0, " scale(-1, 1)"))),
                12 => expected.push(q(tr("", l / 2.0, l / 2.0, " rotate(-30, 0, 0)"))),
                13 => expected.push(q(tr("scale(-1, 1) ", -tilew + l / 2.0, l / 2.0, " rotate(-30, 0, 0)"))),
                14 => expected.push(q(turn("", l / 2.0, tileh / 2.0 - l / 2.0 - l, " rotate(30, 0, ", l, ")"))),
                15 => expected.push(q(turn("scale(-1, 1) ", -tilew + l / 2.0, tileh / 2.0 - l / 2.0 - l, " rotate(30, 0, ", l, ")"))),
                16 => expected.push(q(turn("scale(1, -1) ", l / 2.0, -tileh / 2.0 - l / 2.0 - l, " rotate(30, 0, ", l, ")"))),
                17 => expected.push(q(turn("scale(-1, -1) ", -tilew + l / 2.0, -tileh / 2.0 - l / 2.0 - l, " rotate(30, 0, ", l, ")"))),
                18 => expected.push(q(tr("scale(1, -1) ", l / 2.0, -tileh + l / 2.0, " rotate(-30, 0, 0)"))),
                _ => expected.push(q(tr("scale(-1, -1) ", -tilew + l / 2.0, -tileh + l / 2.0, " rotate(-30, 0, 0)"))),
            }
        }
        let drawing = Tessellation::new(hash).draw().unwrap();
        assert_eq!(drawing.shapes.len(), 26);
        check(&drawing, tilew, tileh, expected);
    }
}

#[test]
fn every_pattern_refuses_a_short_digest() {
    let short = "51551ffd119cd1ce";
    for kind in [
        Patterns::Chevrons,
        Patterns::ConcentricCircles,
        Patterns::Diamonds,
        Patterns::Hexagons,
        Patterns::MosaicSquares,
        Patterns::NestedSquares,
        Patterns::Octagons,
        Patterns::OverlappingCircles,
        Patterns::OverlappingRings,
        Patterns::Plaid,
        Patterns::PlusSigns,
        Patterns::SineWaves,
        Patterns::Squares,
        Patterns::Tessellation,
        Patterns::Triangles,
        Patterns::Xes,
    ] {
        assert_eq!(draw(kind, short), Err(PatternError::MalformedDigest));
        assert_eq!(draw(kind, ""), Err(PatternError::MalformedDigest));
        assert!(draw(kind, DIGESTS[0]).is_ok());
    }
}

#[test]
fn a_pattern_reads_no_more_than_it_needs() {
    let hash = "51551ffd119cd1cea023f9a13890ee014f8dzzzz";
    assert!(Diamonds::new(hash).draw().is_ok());
    assert!(Tessellation::new(&hash[..20]).draw().is_ok());
    assert!(MosaicSquares::new(&hash[..17]).draw().is_ok());
    assert_eq!(MosaicSquares::new(&hash[..16]).draw(), Err(PatternError::MalformedDigest));
    assert_eq!(Tessellation::new(&hash[..19]).draw(), Err(PatternError::MalformedDigest));
    assert_eq!(Diamonds::new(&hash[..35]).draw(), Err(PatternError::MalformedDigest));
    assert_eq!(ConcentricCircles::new(hash).draw(), Err(PatternError::MalformedDigest));
    assert_eq!(NestedSquares::new(hash).draw(), Err(PatternError::MalformedDigest));
}

#[test]
fn a_pattern_refuses_a_foreign_character() {
    let hash = "51551ffd119cd1cea02+f9a13890ee014f8d53b7";
    assert_eq!(Diamonds::new(hash).draw(), Err(PatternError::MalformedDigest));
    assert_eq!(Plaid::new(hash).draw(), Err(PatternError::MalformedDigest));
    assert_eq!(SineWaves::new(hash).draw(), Err(PatternError::MalformedDigest));
    assert!(MosaicSquares::new(hash).draw().is_ok());
}

#[test]
fn draw_dispatches_by_kind() {
    let hash = DIGESTS[0];
    assert_eq!(draw(Patterns::Chevrons, hash), Chevrons::new(hash).draw());
    assert_eq!(draw(Patterns::ConcentricCircles, hash), ConcentricCircles::new(hash).draw());
    assert_eq!(draw(Patterns::Diamonds, hash), Diamonds::new(hash).draw());
    assert_eq!(draw(Patterns::Hexagons, hash), Hexagons::new(hash).draw());
    assert_eq!(draw(Patterns::MosaicSquares, hash), MosaicSquares::new(hash).draw());
    assert_eq!(draw(Patterns::NestedSquares, hash), NestedSquares::new(hash).draw());
    assert_eq!(draw(Patterns::Octagons, hash), Octagons::new(hash).draw());
    assert_eq!(draw(Patterns::OverlappingCircles, hash), OverlappingCircles::new(hash).draw());
    assert_eq!(draw(Patterns::OverlappingRings, hash), OverlappingRings::new(hash).draw());
    assert_eq!(draw(Patterns::Plaid, hash), Plaid::new(hash).draw());
    assert_eq!(draw(Patterns::PlusSigns, hash), PlusSigns::new(hash).draw());
    assert_eq!(draw(Patterns::SineWaves, hash), SineWaves::new(hash).draw());
    assert_eq!(draw(Patterns::Squares, hash), Squares::new(hash).draw());
    assert_eq!(draw(Patterns::Tessellation, hash), Tessellation::new(hash).draw());
    assert_eq!(draw(Patterns::Triangles, hash), Triangles::new(hash).draw());
    assert_eq!(draw(Patterns::Xes, hash), Xes::new(hash).draw());
    assert_ne!(draw(Patterns::Squares, hash), draw(Patterns::Octagons, hash));
}

#[test]
fn names_are_the_variant_names() {
    assert_eq!(Patterns::Chevrons.name(), "Chevrons");
    assert_eq!(Patterns::ConcentricCircles.name(), "ConcentricCircles");
    assert_eq!(Patterns::Xes.name(), "Xes");
    assert_eq!(format!("{:?}", Patterns::PlusSigns), Patterns::PlusSigns.name());
}
