//! Drawing primitives.
//!
//! A shape is a tag and a flat run of pieces. A `Key` piece opens an
//! attribute; the `Text`, `Number` and `Hex` pieces that follow it, read
//! one after another, are the attribute's value. A `Child` piece opens a
//! nested element, and the keys after it belong to that element.
//! `attributes` and `children` read a run of pieces in this way.

use vstd::prelude::*;
use crate::scalar::Scalar;

verus! {

/// The kind of element that a shape draws.
#[derive(Debug, Clone, Copy, PartialEq, Eq, Structural)]
pub enum Tag {
    Rectangle,
    Circle,
    Polyline,
    Path,
    Group,
}

/// One piece of a shape.
#[derive(Debug, Clone, Copy, PartialEq, Eq)]
pub enum Piece<'a> {
    /// Opens the attribute of this name.
    Key(&'a str),
    /// Literal text of the value.
    Text(&'a str),
    /// An exact number, to be written in decimal.
    Number(Scalar),
    /// An integer, to be written in upper-case hexadecimal.
    Hex(i64),
    /// Opens a nested element.
    Child(Tag),
}

/// One drawing primitive.
#[derive(Debug, Clone, PartialEq, Eq)]
pub struct Shape<'a> {
    pub tag: Tag,
    pub pieces: Vec<Piece<'a>>,
}

/// What a shape is: its tag and its pieces in order.
pub struct ShapeView<'a> {
    pub tag: Tag,
    pub pieces: Seq<Piece<'a>>,
}

impl<'a> View for Shape<'a> {
    type V = ShapeView<'a>;

    open spec fn view(&self) -> ShapeView<'a> {
        ShapeView { tag: self.tag, pieces: self.pieces@ }
    }
}

/// A finished drawing: the size of the canvas and the shapes on it, in the
/// order in which they are painted.
#[derive(Debug, Clone, PartialEq, Eq)]
pub struct Drawing<'a> {
    pub width: Scalar,
    pub height: Scalar,
    pub shapes: Vec<Shape<'a>>,
}

/// What a drawing is.
pub struct DrawingView<'a> {
    pub width: Scalar,
    pub height: Scalar,
    pub shapes: Seq<ShapeView<'a>>,
}

impl<'a> View for Drawing<'a> {
    type V = DrawingView<'a>;

    open spec fn view(&self) -> DrawingView<'a> {
        DrawingView { width: self.width, height: self.height, shapes: views(self.shapes@) }
    }
}

/// One attribute in a run of pieces.
#[derive(Debug, Clone, Copy, PartialEq, Eq, Structural)]
pub struct Attribute {
    /// The element that has the attribute: 0 is the shape itself, `k` its
    /// `k`-th nested element.
    pub element: usize,
    /// Where the `Key` piece of the attribute stands.
    pub key: usize,
    /// Where the value ends: the pieces from `key + 1` up to but without
    /// `end` are the value.
    pub end: usize,
}

/// The piece opens an attribute or a nested element, and so ends the value
/// before it.
pub open spec fn opens(p: Piece) -> bool {
    p is Key || p is Child
}

/// The first place from `from` on where a piece opens something, or the
/// length of the run where none does.
pub open spec fn next_opening(pieces: Seq<Piece>, from: int) -> int
    decreases pieces.len() - from,
{
    if from >= pieces.len() {
        pieces.len() as int
    } else if opens(pieces[from]) {
        from
    } else {
        next_opening(pieces, from + 1)
    }
}

/// The tags of the nested elements that the first `n` pieces open, in order.
pub open spec fn child_tags(pieces: Seq<Piece>, n: int) -> Seq<Tag>
    decreases n,
{
    if n <= 0 {
        Seq::empty()
    } else {
        match pieces[n - 1] {
            Piece::Child(tag) => child_tags(pieces, n - 1).push(tag),
            _ => child_tags(pieces, n - 1),
        }
    }
}

/// The attributes that the first `n` pieces open, in order. An attribute
/// belongs to the element that was opened last before its key, and its
/// value runs up to the next piece that opens something.
pub open spec fn attributes_of(pieces: Seq<Piece>, n: int) -> Seq<Attribute>
    decreases n,
{
    if n <= 0 {
        Seq::empty()
    } else if pieces[n - 1] is Key {
        attributes_of(pieces, n - 1).push(
            Attribute {
                element: child_tags(pieces, n - 1).len() as usize,
                key: (n - 1) as usize,
                end: next_opening(pieces, n) as usize,
            },
        )
    } else {
        attributes_of(pieces, n - 1)
    }
}

/// The tags of the nested elements of a run of pieces, in order.
pub fn children(pieces: &Vec<Piece>) -> (tags: Vec<Tag>)
    ensures
        tags@ == child_tags(pieces@, pieces@.len() as int),
{
    let mut tags: Vec<Tag> = Vec::new();
    let mut i: usize = 0;
    while i < pieces.len()
        invariant
            0 <= i <= pieces@.len(),
            tags@ == child_tags(pieces@, i as int),
        decreases pieces@.len() - i,
    {
        match pieces[i] {
            Piece::Child(tag) => {
                tags.push(tag);
            },
            _ => {},
        }
        i = i + 1;
    }
    tags
}

/// The attributes of a run of pieces, in order.
pub fn attributes(pieces: &Vec<Piece>) -> (list: Vec<Attribute>)
    ensures
        list@ == attributes_of(pieces@, pieces@.len() as int),
{
    let mut list: Vec<Attribute> = Vec::new();
    let mut element: usize = 0;
    let mut i: usize = 0;
    while i < pieces.len()
        invariant
            0 <= i <= pieces@.len(),
            element == child_tags(pieces@, i as int).len(),
            element <= i,
            list@ == attributes_of(pieces@, i as int),
        decreases pieces@.len() - i,
    {
        match pieces[i] {
            Piece::Key(_) => {
                let end = measure(pieces, i + 1);
                list.push(Attribute { element, key: i, end });
            },
            Piece::Child(_) => {
                element = element + 1;
            },
            _ => {},
        }
        i = i + 1;
    }
    list
}

/// The first place from `from` on where a piece opens something.
fn measure(pieces: &Vec<Piece>, from: usize) -> (end: usize)
    requires
        from <= pieces@.len(),
    ensures
        end == next_opening(pieces@, from as int),
        from <= end <= pieces@.len(),
{
    let mut j: usize = from;
    while j < pieces.len()
        invariant
            from <= j <= pieces@.len(),
            next_opening(pieces@, from as int) == next_opening(pieces@, j as int),
        decreases pieces@.len() - j,
    {
        let stop = match pieces[j] {
            Piece::Key(_) => true,
            Piece::Child(_) => true,
            _ => false,
        };
        if stop {
            return j;
        }
        j = j + 1;
    }
    j
}

/// The shapes of a list, each by its view.
pub open spec fn views<'a>(shapes: Seq<Shape<'a>>) -> Seq<ShapeView<'a>> {
    shapes.map_values(|s: Shape| s@)
}

/// The first `n` runs `f(0)`, `f(1)`, ... laid end to end.
pub open spec fn collect<A>(n: nat, f: spec_fn(int) -> Seq<A>) -> Seq<A>
    decreases n,
{
    if n == 0 {
        Seq::empty()
    } else {
        collect((n - 1) as nat, f) + f(n - 1)
    }
}

/// Where every run holds one entry, the runs laid end to end hold one
/// entry for each run, in the order of the runs.
pub proof fn lemma_collect_singles<A>(n: nat, f: spec_fn(int) -> Seq<A>)
    requires
        forall|k: int| 0 <= k < n ==> (#[trigger] f(k)).len() == 1,
    ensures
        collect(n, f).len() == n,
        forall|k: int| 0 <= k < n ==> #[trigger] collect(n, f)[k] == f(k)[0],
    decreases n,
{
    if n > 0 {
        lemma_collect_singles((n - 1) as nat, f);
        assert(f(n - 1).len() == 1);
        assert forall|k: int| 0 <= k < n implies #[trigger] collect(n, f)[k] == f(k)[0] by {
            if k < n - 1 {
                assert(collect(n, f)[k] == collect((n - 1) as nat, f)[k]);
            }
        }
    }
}

/// Appending a shape appends its view.
pub proof fn lemma_views_push<'a>(shapes: Seq<Shape<'a>>, s: Shape<'a>)
    ensures
        views(shapes.push(s)) == views(shapes).push(s@),
{
    assert(views(shapes.push(s)) =~= views(shapes).push(s@));
}

/// `pieces`, then the attribute `key` with the text `value`.
pub open spec fn with_text<'a>(pieces: Seq<Piece<'a>>, key: &'a str, value: &'a str) -> Seq<
    Piece<'a>,
> {
    pieces.push(Piece::Key(key)).push(Piece::Text(value))
}

/// `pieces`, then the attribute `key` with the number `value`.
pub open spec fn with_number<'a>(pieces: Seq<Piece<'a>>, key: &'a str, value: Scalar) -> Seq<
    Piece<'a>,
> {
    pieces.push(Piece::Key(key)).push(Piece::Number(value))
}

/// `pieces`, then the fill of a digit: its swatch, at its opacity.
pub open spec fn with_paint<'a>(pieces: Seq<Piece<'a>>, v: u8) -> Seq<Piece<'a>> {
    with_number(with_text(pieces, "fill", swatch(v)), "fill-opacity", opacity_of(v))
}

/// `pieces`, then the attribute `transform` with `translate(x, y)`.
pub open spec fn with_translate<'a>(pieces: Seq<Piece<'a>>, x: Scalar, y: Scalar) -> Seq<
    Piece<'a>,
> {
    pieces.push(Piece::Key("transform")).push(Piece::Text("translate(")).push(
        Piece::Number(x),
    ).push(Piece::Text(", ")).push(Piece::Number(y)).push(Piece::Text(")"))
}

/// `pieces`, then the stroke that outlines every filled tile: black, at an
/// opacity of 0.02.
pub open spec fn with_outline<'a>(pieces: Seq<Piece<'a>>) -> Seq<Piece<'a>> {
    with_number(
        with_text(pieces, "stroke", "#000"),
        "stroke-opacity",
        Scalar::spec_ratio(2, 100),
    )
}

/// The swatch of a digit: dark for an odd digit, light for an even one.
pub open spec fn swatch(v: u8) -> &'static str {
    if v % 2 == 1 {
        "#222"
    } else {
        "#ddd"
    }
}

/// The opacity of a digit: 0 to 15 carried to the band from 0.02 to 0.15.
pub open spec fn opacity_of(v: u8) -> Scalar {
    Scalar::spec_rescale(v as int, 0, 15, 2, 15).spec_times(1, 0, 100)
}

/// Appends the attribute `key` with the text `value`.
pub fn put_text<'a>(pieces: &mut Vec<Piece<'a>>, key: &'a str, value: &'a str)
    ensures
        final(pieces)@ == with_text(old(pieces)@, key, value),
{
    pieces.push(Piece::Key(key));
    pieces.push(Piece::Text(value));
}

/// Appends the attribute `key` with the number `value`.
pub fn put_number<'a>(pieces: &mut Vec<Piece<'a>>, key: &'a str, value: Scalar)
    ensures
        final(pieces)@ == with_number(old(pieces)@, key, value),
{
    pieces.push(Piece::Key(key));
    pieces.push(Piece::Number(value));
}

/// Appends the fill of a digit: its swatch, at its opacity.
pub fn put_paint<'a>(pieces: &mut Vec<Piece<'a>>, v: u8)
    ensures
        final(pieces)@ == with_paint(old(pieces)@, v),
{
    put_text(pieces, "fill", fill_color(v));
    put_number(pieces, "fill-opacity", opacity(v));
}

/// Appends a shape with the tag `tag` and the pieces `pieces`.
pub fn push_shape<'a>(shapes: &mut Vec<Shape<'a>>, tag: Tag, pieces: Vec<Piece<'a>>)
    ensures
        views(final(shapes)@) == views(old(shapes)@).push(ShapeView { tag, pieces: pieces@ }),
{
    let shape = Shape { tag, pieces };
    proof {
        lemma_views_push(shapes@, shape);
    }
    shapes.push(shape);
}

/// Appends the attribute `transform` with `translate(x, y)`.
pub fn put_translate<'a>(pieces: &mut Vec<Piece<'a>>, x: Scalar, y: Scalar)
    ensures
        final(pieces)@ == with_translate(old(pieces)@, x, y),
{
    pieces.push(Piece::Key("transform"));
    pieces.push(Piece::Text("translate("));
    pieces.push(Piece::Number(x));
    pieces.push(Piece::Text(", "));
    pieces.push(Piece::Number(y));
    pieces.push(Piece::Text(")"));
}

/// Appends the stroke that outlines every filled tile.
pub fn put_outline<'a>(pieces: &mut Vec<Piece<'a>>)
    ensures
        final(pieces)@ == with_outline(old(pieces)@),
{
    put_text(pieces, "stroke", "#000");
    put_number(pieces, "stroke-opacity", Scalar::ratio(2, 100));
}

/// The opacity of a digit: 0 to 15 carried to the band from 0.02 to 0.15.
pub fn opacity(v: u8) -> (r: Scalar)
    ensures
        r == opacity_of(v),
        r.wf(),
{
    let band = Scalar::rescale(v as i64, 0, 15, 2, 15);
    band.times(1, 0, 100)
}

/// The swatch of a digit: dark for an odd digit, light for an even one.
pub fn fill_color(v: u8) -> (r: &'static str)
    ensures
        r == swatch(v),
{
    if v % 2 == 1 {
        "#222"
    } else {
        "#ddd"
    }
}

} // verus!
