//! A session that turns one string into one document.
//!
//! The string is hashed with SHA-1, whose digest of 160 bits is written as
//! 40 hexadecimal digits. Everything else follows from that digest and from
//! the settings of the session, so the same string with the same settings
//! always gives the same document.

use vstd::prelude::*;
use vstd::string::StringSliceAdditionalSpecFns;
use crate::color::{color_shift, shift_of, shift_ok, Color, ColorShift};
use crate::digest::{digits_ok, lemma_hex_text_decodes, lemma_window_of_digits, lower_hex};
use crate::encoding::{
    base64, base64_data_uri, base64_data_uri_text, base64_text, data_uri, data_uri_text, minified,
    minify,
};
use crate::patterns::{draw, pattern_drawing, Patterns};
use crate::selector::{select, selected};
use crate::shape::{Drawing, DrawingView};

verus! {

/// The colour that the digest shifts where no other base colour is set.
pub const DEFAULT_BASE_COLOR: &'static str = "#933c3c";

/// Why a session has no output.
#[derive(Debug, Clone, Copy, PartialEq, Eq, Structural)]
pub enum GeoPatternError {
    /// A window of the digest does not decode.
    MalformedDigest,
    /// The catalogue to choose a pattern from is empty.
    EmptyPatternCatalog,
    /// Output was asked for before the document was built.
    NotBuilt,
}

/// How the background of a document is coloured.
#[derive(Debug, Clone, Copy, PartialEq, Eq, Structural)]
pub enum Background {
    /// With this colour as it stands.
    Fixed(Color),
    /// With the base colour, its hue and chroma shifted as the digest says.
    Shifted(Color, ColorShift),
}

/// A built document: its background, the pattern that was chosen, and the
/// drawing of that pattern.
#[derive(Debug, Clone, PartialEq, Eq)]
pub struct Document {
    pub background: Background,
    pub pattern: Patterns,
    pub drawing: Drawing<'static>,
}

/// What a document is.
pub struct DocumentView {
    pub background: Background,
    pub pattern: Patterns,
    pub drawing: DrawingView<'static>,
}

impl View for Document {
    type V = DocumentView;

    open spec fn view(&self) -> DocumentView {
        DocumentView { background: self.background, pattern: self.pattern, drawing: self.drawing@ }
    }
}

/// A session: the digest of the string it was made for, the settings, and
/// the document once it is built.
#[derive(Debug)]
pub struct GeoPattern {
    svg: Option<Document>,
    base_color: Color,
    color: Option<Color>,
    hash: String,
    patterns: Vec<Patterns>,
}

/// What a session is.
pub struct GeoPatternView {
    /// The bytes of the digest.
    pub digest: Seq<u8>,
    /// The colour that the digest shifts, unless a colour is set.
    pub base_color: Color,
    /// The colour of the background, if one is set.
    pub color: Option<Color>,
    /// The catalogue that the pattern is chosen from.
    pub patterns: Seq<Patterns>,
    /// The document, once built.
    pub svg: Option<DocumentView>,
}

/// What `Sha1::from(text).digest().to_string()` returns: the SHA-1 digest of
/// the UTF-8 bytes of the text, written as hexadecimal digits.
pub uninterp spec fn sha1_hex(text: Seq<char>) -> Seq<char>;

/// The sixteen patterns, in the order of the catalogue.
pub open spec fn all_patterns() -> Seq<Patterns> {
    seq![
        Patterns::Chevrons,
        Patterns::ConcentricCircles,
        Patterns::Diamonds,
        Patterns::Hexagons,
        Patterns::MosaicSquares,
        Patterns::NestedSquares,
        Patterns::Octagons,
        Patterns::OverlappingCircles,
        Patterns::OverlappingRings,
        Patterns::Plaid,
        Patterns::PlusSigns,
        Patterns::SineWaves,
        Patterns::Squares,
        Patterns::Tessellation,
        Patterns::Triangles,
        Patterns::Xes,
    ]
}

/// The session that `GeoPattern::new` makes for a string: the digest of
/// the string, the default base colour, no colour set, the whole catalogue,
/// nothing built.
pub open spec fn new_session(text: Seq<char>) -> GeoPatternView {
    GeoPatternView {
        digest: vstd::utf8::encode_utf8(sha1_hex(text)),
        base_color: Color { r: 0x93, g: 0x3c, b: 0x3c },
        color: None,
        patterns: all_patterns(),
        svg: None,
    }
}

/// The background of a session: the colour that is set, or else the base
/// colour shifted as the digest says, which needs the windows of the shift.
pub open spec fn background_of(v: GeoPatternView) -> Result<Background, GeoPatternError> {
    match v.color {
        Some(c) => Ok(Background::Fixed(c)),
        None => if shift_ok(v.digest) {
            Ok(Background::Shifted(v.base_color, shift_of(v.digest)))
        } else {
            Err(GeoPatternError::MalformedDigest)
        },
    }
}

/// The document that building a session gives, or the first failure on the
/// way: of the background, then of the choice of a pattern, then of its
/// drawing.
pub open spec fn built(v: GeoPatternView) -> Result<DocumentView, GeoPatternError> {
    match background_of(v) {
        Err(e) => Err(e),
        Ok(background) => match selected(v.digest, v.patterns) {
            Err(e) => Err(e),
            Ok(pattern) => match pattern_drawing(pattern, v.digest) {
                None => Err(GeoPatternError::MalformedDigest),
                Some(drawing) => Ok(DocumentView { background, pattern, drawing }),
            },
        },
    }
}

/// Building succeeds wherever the first 40 digits of the digest decode, as
/// they do in every session that `new` makes, and the catalogue is not
/// empty.
pub proof fn lemma_build_succeeds(v: GeoPatternView)
    requires
        digits_ok(v.digest, 40),
        v.patterns.len() > 0,
    ensures
        built(v) is Ok,
{
    lemma_window_of_digits(v.digest, 40, 14, 3);
    lemma_window_of_digits(v.digest, 40, 17, 1);
    lemma_window_of_digits(v.digest, 40, 20, 1);
    let pattern = selected(v.digest, v.patterns)->Ok_0;
    assert forall|i: int| 0 <= i < crate::patterns::digits_read(pattern) implies #[trigger] crate::digest::window_ok(
        v.digest,
        i,
        1,
    ) by {
        lemma_window_of_digits(v.digest, 40, i, 1);
    }
}

/// Building depends on nothing but the session: two sessions that are the
/// same build the same document or fail in the same way. Two sessions that
/// `new` makes for one string are the same, and stay so under the same
/// settings.
pub proof fn lemma_build_deterministic(a: GeoPatternView, b: GeoPatternView)
    requires
        a == b,
    ensures
        built(a) == built(b),
{
}

/// The digest of a string, by `Sha1::from(s).digest().to_string()` of the
/// `sha1` crate. Not proved: that the text depends on the bytes of `s`
/// alone, which is all that the name `sha1_hex` says; and that it is 40
/// lower-case hexadecimal digits long, the crate writing the five 32-bit
/// words of a digest with eight such digits each.
#[verifier::external_body]
fn sha1_hexdigest(s: &str) -> (r: String)
    ensures
        r@ == sha1_hex(s@),
        r@.len() == 40,
        forall|i: int| 0 <= i < 40 ==> lower_hex(#[trigger] r@[i]),
{
    sha1::Sha1::from(s).digest().to_string()
}

/// The default base colour, read from its hex form.
pub fn default_base_color() -> (c: Color)
    ensures
        c == (Color { r: 0x93, g: 0x3c, b: 0x3c }),
{
    proof {
        reveal_strlit("#933c3c");
        vstd::utf8::is_ascii_chars_encode_utf8("#933c3c"@);
        let text = "#933c3c".spec_bytes();
        assert(text =~= seq![0x23u8, 0x39u8, 0x33u8, 0x33u8, 0x63u8, 0x33u8, 0x63u8]);
        assert(crate::color::hex_color_ok(text));
        reveal_with_fuel(crate::digest::hex_number, 3);
        let red = crate::digest::window(text, 1, 2);
        let green = crate::digest::window(text, 3, 2);
        let blue = crate::digest::window(text, 5, 2);
        assert(red =~= seq![0x39u8, 0x33u8]);
        assert(green =~= seq![0x33u8, 0x63u8]);
        assert(blue =~= seq![0x33u8, 0x63u8]);
        assert(red.drop_last() =~= seq![0x39u8]);
        assert(green.drop_last() =~= seq![0x33u8]);
        assert(blue.drop_last() =~= seq![0x33u8]);
        assert(seq![0x39u8].drop_last() =~= Seq::<u8>::empty());
        assert(seq![0x33u8].drop_last() =~= Seq::<u8>::empty());
        assert(crate::digest::hex_number(red) == 0x93);
        assert(crate::digest::hex_number(green) == 0x3c);
        assert(crate::digest::hex_number(blue) == 0x3c);
    }
    match Color::hex(DEFAULT_BASE_COLOR) {
        Ok(c) => c,
        Err(_) => unreached(),
    }
}

impl View for GeoPattern {
    type V = GeoPatternView;

    closed spec fn view(&self) -> GeoPatternView {
        GeoPatternView {
            digest: vstd::utf8::encode_utf8(self.hash@),
            base_color: self.base_color,
            color: self.color,
            patterns: self.patterns@,
            svg: match self.svg {
                Some(d) => Some(d@),
                None => None,
            },
        }
    }
}

impl GeoPattern {
    /// A session for the string `s`: its SHA-1 digest, the default base
    /// colour `#933c3c`, no colour set, the whole catalogue, nothing built.
    pub fn new(s: &str) -> (r: GeoPattern)
        ensures
            r@ == new_session(s@),
            digits_ok(r@.digest, 40),
    {
        let mut patterns: Vec<Patterns> = Vec::new();
        patterns.push(Patterns::Chevrons);
        patterns.push(Patterns::ConcentricCircles);
        patterns.push(Patterns::Diamonds);
        patterns.push(Patterns::Hexagons);
        patterns.push(Patterns::MosaicSquares);
        patterns.push(Patterns::NestedSquares);
        patterns.push(Patterns::Octagons);
        patterns.push(Patterns::OverlappingCircles);
        patterns.push(Patterns::OverlappingRings);
        patterns.push(Patterns::Plaid);
        patterns.push(Patterns::PlusSigns);
        patterns.push(Patterns::SineWaves);
        patterns.push(Patterns::Squares);
        patterns.push(Patterns::Tessellation);
        patterns.push(Patterns::Triangles);
        patterns.push(Patterns::Xes);
        let hash = sha1_hexdigest(s);
        proof {
            lemma_hex_text_decodes(hash@);
        }
        assert(patterns@ =~= all_patterns());
        GeoPattern { svg: None, base_color: default_base_color(), color: None, hash, patterns }
    }

    /// Sets the colour of the background; the digest then shifts nothing.
    pub fn color(self, color: Color) -> (r: Self)
        ensures
            r@ == (GeoPatternView { color: Some(color), ..self@ }),
    {
        let mut me = self;
        me.color = Some(color);
        me
    }

    /// Sets the colour that the digest shifts.
    pub fn base_color(self, base_color: Color) -> (r: Self)
        ensures
            r@ == (GeoPatternView { base_color, ..self@ }),
    {
        let mut me = self;
        me.base_color = base_color;
        me
    }

    /// Sets the catalogue that the pattern is chosen from.
    pub fn patterns(self, patterns: &[Patterns]) -> (r: Self)
        ensures
            r@ == (GeoPatternView { patterns: patterns@, ..self@ }),
    {
        let mut list: Vec<Patterns> = Vec::new();
        let mut i: usize = 0;
        while i < patterns.len()
            invariant
                0 <= i <= patterns@.len(),
                list@ == patterns@.take(i as int),
            decreases patterns@.len() - i,
        {
            list.push(patterns[i]);
            assert(list@ =~= patterns@.take(i + 1));
            i = i + 1;
        }
        assert(patterns@.take(patterns@.len() as int) =~= patterns@);
        let mut me = self;
        me.patterns = list;
        me
    }

    /// Builds the document. It is built whole or not at all: on a failure
    /// the first one is returned and no document exists.
    pub fn build(self) -> (r: Result<Self, GeoPatternError>)
        ensures
            built(self@) is Ok ==> r is Ok && r.unwrap()@ == (GeoPatternView {
                svg: Some(built(self@).unwrap()),
                ..self@
            }),
            built(self@) is Err ==> r is Err && r->Err_0 == built(self@)->Err_0,
    {
        let mut me = self;
        let background = match me.color {
            Some(c) => Background::Fixed(c),
            None => match color_shift(me.hash.as_str()) {
                Ok(shift) => Background::Shifted(me.base_color, shift),
                Err(_) => {
                    return Err(GeoPatternError::MalformedDigest);
                },
            },
        };
        let pattern = match select(me.hash.as_str(), me.patterns.as_slice()) {
            Ok(p) => p,
            Err(e) => {
                return Err(e);
            },
        };
        let drawing = match draw(pattern, me.hash.as_str()) {
            Ok(d) => d,
            Err(_) => {
                return Err(GeoPatternError::MalformedDigest);
            },
        };
        me.svg = Some(Document { background, pattern, drawing });
        Ok(me)
    }

    /// The document, if one has been built.
    pub fn to_svg(&self) -> (r: Result<&Document, GeoPatternError>)
        ensures
            self@.svg is Some ==> r is Ok && r.unwrap()@ == self@.svg.unwrap(),
            self@.svg is None ==> r is Err && r->Err_0 == GeoPatternError::NotBuilt,
    {
        match &self.svg {
            Some(d) => Ok(d),
            None => Err(GeoPatternError::NotBuilt),
        }
    }

    /// The minified form of `serialized`, the built document written out as
    /// text; before the document is built there is none.
    pub fn to_minified_svg(&self, serialized: &str) -> (r: Result<String, GeoPatternError>)
        ensures
            self@.svg is Some ==> r is Ok && r.unwrap()@ == minified(serialized@),
            self@.svg is None ==> r is Err && r->Err_0 == GeoPatternError::NotBuilt,
    {
        match &self.svg {
            Some(_) => Ok(minify(serialized)),
            None => Err(GeoPatternError::NotBuilt),
        }
    }

    /// The data URI `data:image/svg+xml;utf8,...` of the minified form of
    /// `serialized`; before the document is built there is none.
    pub fn to_data_uri(&self, serialized: &str) -> (r: Result<String, GeoPatternError>)
        ensures
            self@.svg is Some ==> r is Ok && r.unwrap()@ == data_uri_text(serialized@),
            self@.svg is None ==> r is Err && r->Err_0 == GeoPatternError::NotBuilt,
    {
        match &self.svg {
            Some(_) => Ok(data_uri(serialized)),
            None => Err(GeoPatternError::NotBuilt),
        }
    }

    /// The minified form of `serialized` in base64; before the document is
    /// built there is none.
    pub fn to_base64(&self, serialized: &str) -> (r: Result<String, GeoPatternError>)
        ensures
            self@.svg is Some ==> r is Ok && r.unwrap()@ == base64_text(minified(serialized@)),
            self@.svg is None ==> r is Err && r->Err_0 == GeoPatternError::NotBuilt,
    {
        match &self.svg {
            Some(_) => Ok(base64(serialized)),
            None => Err(GeoPatternError::NotBuilt),
        }
    }

    /// The data URI `data:image/svg+xml;base64,...` of the minified form of
    /// `serialized`; before the document is built there is none.
    pub fn to_base64_data_uri(&self, serialized: &str) -> (r: Result<String, GeoPatternError>)
        ensures
            self@.svg is Some ==> r is Ok && r.unwrap()@ == base64_data_uri_text(serialized@),
            self@.svg is None ==> r is Err && r->Err_0 == GeoPatternError::NotBuilt,
    {
        match &self.svg {
            Some(_) => Ok(base64_data_uri(serialized)),
            None => Err(GeoPatternError::NotBuilt),
        }
    }
}

} // verus!
