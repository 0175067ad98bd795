//! Text forms of a finished document.

use vstd::prelude::*;
use vstd::std_specs::iter::IteratorSpec;

verus! {

/// Minified text: the text with every line feed left out and every other
/// character kept, in order.
pub open spec fn minified(text: Seq<char>) -> Seq<char>
    decreases text.len(),
{
    if text.len() == 0 {
        Seq::empty()
    } else if text.last() == '\n' {
        minified(text.drop_last())
    } else {
        minified(text.drop_last()).push(text.last())
    }
}

/// How many line feeds a text holds.
pub open spec fn line_feeds(text: Seq<char>) -> nat
    decreases text.len(),
{
    if text.len() == 0 {
        0
    } else if text.last() == '\n' {
        line_feeds(text.drop_last()) + 1
    } else {
        line_feeds(text.drop_last())
    }
}

/// What `base64::encode` returns for the UTF-8 bytes of a text: their
/// base64 form in the standard alphabet, with padding.
pub uninterp spec fn base64_text(text: Seq<char>) -> Seq<char>;

/// The data URI that carries minified text as it is.
pub open spec fn data_uri_text(text: Seq<char>) -> Seq<char> {
    "data:image/svg+xml;utf8,"@ + minified(text)
}

/// The data URI that carries minified text in base64.
pub open spec fn base64_data_uri_text(text: Seq<char>) -> Seq<char> {
    "data:image/svg+xml;base64,"@ + base64_text(minified(text))
}

/// Minified text holds no line feed, and is shorter than the text by the
/// number of line feeds that the text holds. A text without line feeds is
/// its own minified text.
pub proof fn lemma_minified_has_no_line_feed(text: Seq<char>)
    ensures
        minified(text).len() + line_feeds(text) == text.len(),
        forall|i: int| 0 <= i < minified(text).len() ==> #[trigger] minified(text)[i] != '\n',
        line_feeds(text) == 0 ==> minified(text) == text,
    decreases text.len(),
{
    if text.len() > 0 {
        lemma_minified_has_no_line_feed(text.drop_last());
        if line_feeds(text) == 0 {
            assert(text =~= text.drop_last().push(text.last()));
        }
    } else {
        assert(minified(text) =~= text);
    }
}

/// Appends one character to a string, by `String::push` of the standard
/// library. That the string is then the old one followed by `c` is what the
/// standard library documents; it is not proved here.
#[verifier::external_body]
fn push_char(s: &mut String, c: char)
    ensures
        final(s)@ == old(s)@.push(c),
{
    s.push(c)
}

/// Leaves every line feed out of `text`.
pub fn minify(text: &str) -> (r: String)
    ensures
        r@ == minified(text@),
{
    let mut out = String::new();
    let mut it = text.chars();
    let ghost mut k: int = 0;
    proof {
        assert(text@.take(0) =~= Seq::<char>::empty());
    }
    loop
        invariant
            it.remaining() == text@.skip(k),
            0 <= k <= text@.len(),
            out@ == minified(text@.take(k)),
        ensures
            out@ == minified(text@),
        decreases text@.len() - k,
    {
        match it.next() {
            None => {
                assert(text@.take(k) =~= text@);
                break;
            },
            Some(c) => {
                proof {
                    assert(text@.take(k + 1).drop_last() =~= text@.take(k));
                    k = k + 1;
                }
                if c != '\n' {
                    push_char(&mut out, c);
                }
            },
        }
    }
    out
}

/// The base64 form of a text, by `base64::encode` on its UTF-8 bytes. The
/// call encodes with the standard alphabet and with padding. Not proved:
/// that its result depends on those bytes alone, which is all that the name
/// `base64_text` says. The call panics only where four thirds of the length
/// do not fit in a machine word, which the length of a string never reaches.
#[verifier::external_body]
fn base64_encode(text: &str) -> (r: String)
    ensures
        r@ == base64_text(text@),
{
    base64::encode(text)
}

/// The data URI `data:image/svg+xml;utf8,...` of the minified text.
pub fn data_uri(text: &str) -> (r: String)
    ensures
        r@ == data_uri_text(text@),
{
    let body = minify(text);
    let mut out = String::from_str("data:image/svg+xml;utf8,");
    out.append(body.as_str());
    out
}

/// The minified text in base64.
pub fn base64(text: &str) -> (r: String)
    ensures
        r@ == base64_text(minified(text@)),
{
    let body = minify(text);
    base64_encode(body.as_str())
}

/// The data URI `data:image/svg+xml;base64,...` of the minified text.
pub fn base64_data_uri(text: &str) -> (r: String)
    ensures
        r@ == base64_data_uri_text(text@),
{
    let body = base64(text);
    let mut out = String::from_str("data:image/svg+xml;base64,");
    out.append(body.as_str());
    out
}

} // verus!
