//! Reading numbers out of a hex digest.
//!
//! A digest is a string of hexadecimal digits. A *window* is a run of
//! consecutive bytes of it, read as one big-endian base-16 number.

use vstd::prelude::*;
use vstd::string::StringSliceAdditionalSpecFns;

verus! {

/// Why a pattern could not be drawn.
#[derive(Debug, Clone, Copy, PartialEq, Eq, Structural)]
pub enum PatternError {
    /// A window reached past the end of the digest, or held a byte that is
    /// no hexadecimal digit, or a number too large for 64 bits.
    MalformedDigest,
}

/// The value of one ASCII hexadecimal digit, in either case.
pub open spec fn hex_value(b: u8) -> Option<int> {
    if 0x30 <= b <= 0x39 {
        Some(b - 0x30)
    } else if 0x61 <= b <= 0x66 {
        Some(b - 0x61 + 10)
    } else if 0x41 <= b <= 0x46 {
        Some(b - 0x41 + 10)
    } else {
        None
    }
}

/// Every byte is a hexadecimal digit.
pub open spec fn all_hex(bytes: Seq<u8>) -> bool {
    forall|i: int| 0 <= i < bytes.len() ==> (#[trigger] hex_value(bytes[i])) is Some
}

/// The number that a run of hexadecimal digits writes, most significant
/// digit first. The empty run writes zero.
pub open spec fn hex_number(bytes: Seq<u8>) -> int
    decreases bytes.len(),
{
    if bytes.len() == 0 {
        0
    } else {
        16 * hex_number(bytes.drop_last()) + hex_value(bytes.last()).unwrap()
    }
}

/// The bytes of the window that starts at `offset` and is `length` long.
pub open spec fn window(digest: Seq<u8>, offset: int, length: int) -> Seq<u8> {
    digest.subrange(offset, offset + length)
}

/// A window can be decoded: it lies inside the digest, is not empty, holds
/// hexadecimal digits only, and its number fits in 64 bits.
pub open spec fn window_ok(digest: Seq<u8>, offset: int, length: int) -> bool {
    &&& 0 <= offset
    &&& 1 <= length
    &&& offset + length <= digest.len()
    &&& all_hex(window(digest, offset, length))
    &&& hex_number(window(digest, offset, length)) <= u64::MAX
}

/// Decodes one hexadecimal digit.
pub fn hex_digit(b: u8) -> (r: Option<u8>)
    ensures
        r is Some <==> hex_value(b) is Some,
        r is Some ==> r.unwrap() == hex_value(b).unwrap() && r.unwrap() < 16,
{
    if 0x30 <= b && b <= 0x39 {
        Some(b - 0x30)
    } else if 0x61 <= b && b <= 0x66 {
        Some(b - 0x61 + 10)
    } else if 0x41 <= b && b <= 0x46 {
        Some(b - 0x41 + 10)
    } else {
        None
    }
}


/// Reading one digit more multiplies by sixteen and adds the digit.
pub proof fn lemma_hex_number_step(bytes: Seq<u8>, k: int)
    requires
        0 <= k < bytes.len(),
    ensures
        hex_number(bytes.subrange(0, k + 1)) == 16 * hex_number(bytes.subrange(0, k)) + hex_value(
            bytes[k],
        ).unwrap(),
{
    assert(bytes.subrange(0, k + 1).drop_last() =~= bytes.subrange(0, k));
}

/// A run of `n` hexadecimal digits writes a number from 0 to 16^n - 1.
pub proof fn lemma_hex_number_range(bytes: Seq<u8>)
    requires
        all_hex(bytes),
    ensures
        0 <= hex_number(bytes) < vstd::arithmetic::power::pow(16, bytes.len()),
    decreases bytes.len(),
{
    reveal(vstd::arithmetic::power::pow);
    if bytes.len() > 0 {
        let front = bytes.drop_last();
        assert forall|i: int| 0 <= i < front.len() implies (#[trigger] hex_value(front[i])) is Some by {
            assert(front[i] == bytes[i]);
        }
        lemma_hex_number_range(front);
        assert(hex_value(bytes.last()) is Some);
        assert(vstd::arithmetic::power::pow(16, bytes.len()) == 16 * vstd::arithmetic::power::pow(
            16,
            front.len(),
        ));
    }
}

/// The number written by the first `k` digits does not exceed the number
/// written by all of them.
pub proof fn lemma_hex_number_prefix(bytes: Seq<u8>, k: int)
    requires
        all_hex(bytes),
        0 <= k <= bytes.len(),
    ensures
        0 <= hex_number(bytes.subrange(0, k)) <= hex_number(bytes),
    decreases bytes.len() - k,
{
    if k == bytes.len() {
        assert(bytes.subrange(0, k) =~= bytes);
        lemma_hex_number_range(bytes);
    } else {
        lemma_hex_number_prefix(bytes, k + 1);
        lemma_hex_number_step(bytes, k);
        let front = bytes.subrange(0, k);
        assert forall|i: int| 0 <= i < front.len() implies (#[trigger] hex_value(front[i])) is Some by {
            assert(front[i] == bytes[i]);
        }
        lemma_hex_number_range(front);
        assert(hex_value(bytes[k]) is Some);
    }
}

/// Decodes the window of `length` bytes that starts at `offset`.
///
/// Succeeds exactly on the windows that `window_ok` admits, with the number
/// the digits write; every other window is a malformed digest.
pub fn decode_window(digest: &str, offset: usize, length: usize) -> (r: Result<u64, PatternError>)
    ensures
        window_ok(
            digest.spec_bytes(),
            offset as int,
            length as int,
        ) ==> r == Ok::<u64, PatternError>(
            hex_number(window(digest.spec_bytes(), offset as int, length as int)) as u64,
        ),
        !window_ok(digest.spec_bytes(), offset as int, length as int) ==> r == Err::<
            u64,
            PatternError,
        >(PatternError::MalformedDigest),
{
    let bytes = digest.as_bytes();
    if length == 0 || length > bytes.len() || offset > bytes.len() - length {
        return Err(PatternError::MalformedDigest);
    }
    let ghost w = window(digest.spec_bytes(), offset as int, length as int);
    let mut acc: u64 = 0;
    let mut k: usize = 0;
    while k < length
        invariant
            0 <= k <= length,
            offset + length <= bytes@.len(),
            bytes@ == digest.spec_bytes(),
            w == window(digest.spec_bytes(), offset as int, length as int),
            acc == hex_number(w.subrange(0, k as int)),
            forall|i: int| 0 <= i < k ==> (#[trigger] hex_value(w[i])) is Some,
        decreases length - k,
    {
        let b = bytes[offset + k];
        assert(b == w[k as int]);
        match hex_digit(b) {
            None => {
                return Err(PatternError::MalformedDigest);
            },
            Some(d) => {
                proof {
                    lemma_hex_number_step(w, k as int);
                }
                if acc > (u64::MAX - d as u64) / 16 {
                    proof {
                        if all_hex(w) {
                            lemma_hex_number_prefix(w, k + 1);
                        }
                    }
                    return Err(PatternError::MalformedDigest);
                }
                acc = acc * 16 + d as u64;
                k = k + 1;
            },
        }
    }
    assert(w.subrange(0, length as int) =~= w);
    Ok(acc)
}


/// The digit at `index`: the number of the one-byte window there.
pub open spec fn digit_at(digest: Seq<u8>, index: int) -> int {
    hex_number(window(digest, index, 1))
}

/// Each of the first `n` bytes of the digest is a window that decodes.
pub open spec fn digits_ok(digest: Seq<u8>, n: int) -> bool {
    forall|i: int| 0 <= i < n ==> #[trigger] window_ok(digest, i, 1)
}

/// The first `n` digits of the digest.
pub open spec fn digits(digest: Seq<u8>, n: int) -> Seq<u8> {
    Seq::new(n as nat, |i: int| digit_at(digest, i) as u8)
}

/// Every entry is a digit from 0 to 15.
pub open spec fn all_digits(values: Seq<u8>) -> bool {
    forall|i: int| 0 <= i < values.len() ==> #[trigger] values[i] < 16
}

/// A one-byte window that decodes holds a number from 0 to 15.
pub proof fn lemma_digit_range(digest: Seq<u8>, index: int)
    requires
        window_ok(digest, index, 1),
    ensures
        0 <= digit_at(digest, index) < 16,
{
    lemma_hex_number_range(window(digest, index, 1));
    reveal_with_fuel(vstd::arithmetic::power::pow, 2);
}

/// Decodes the first `n` bytes of the digest, each as a window of its own.
///
/// Succeeds exactly when all `n` windows decode; a digest that is too short
/// or holds another byte among them is malformed, and nothing is returned.
pub fn read_digits(digest: &str, n: usize) -> (r: Result<Vec<u8>, PatternError>)
    ensures
        digits_ok(digest.spec_bytes(), n as int) ==> r is Ok && r.unwrap()@ == digits(
            digest.spec_bytes(),
            n as int,
        ) && all_digits(r.unwrap()@),
        !digits_ok(digest.spec_bytes(), n as int) ==> r == Err::<Vec<u8>, PatternError>(
            PatternError::MalformedDigest,
        ),
{
    let mut out: Vec<u8> = Vec::new();
    let mut i: usize = 0;
    while i < n
        invariant
            0 <= i <= n,
            digits_ok(digest.spec_bytes(), i as int),
            out@ == digits(digest.spec_bytes(), i as int),
            all_digits(out@),
        decreases n - i,
    {
        match decode_window(digest, i, 1) {
            Err(e) => {
                return Err(e);
            },
            Ok(v) => {
                proof {
                    lemma_digit_range(digest.spec_bytes(), i as int);
                }
                out.push(v as u8);
                assert(out@ =~= digits(digest.spec_bytes(), i + 1));
                i = i + 1;
            },
        }
    }
    Ok(out)
}


/// A digit from `0` to `9` or a letter from `a` to `f`.
pub open spec fn lower_hex(c: char) -> bool {
    ('0' <= c && c <= '9') || ('a' <= c && c <= 'f')
}

/// A text of lower-case hexadecimal digits is, as bytes, a digest all of
/// whose digits decode.
pub proof fn lemma_hex_text_decodes(text: Seq<char>)
    requires
        forall|i: int| 0 <= i < text.len() ==> lower_hex(#[trigger] text[i]),
    ensures
        vstd::utf8::encode_utf8(text).len() == text.len(),
        digits_ok(vstd::utf8::encode_utf8(text), text.len() as int),
{
    let bytes = vstd::utf8::encode_utf8(text);
    assert(vstd::utf8::is_ascii_chars(text)) by {
        assert forall|i: int| 0 <= i < text.len() implies '\0' <= #[trigger] text[i] <= '\u{7f}' by {
            assert(lower_hex(text[i]));
        }
    }
    vstd::utf8::is_ascii_chars_encode_utf8(text);
    assert forall|i: int| 0 <= i < text.len() implies #[trigger] window_ok(bytes, i, 1) by {
        assert(lower_hex(text[i]));
        assert(bytes[i] == text[i] as u8);
        let w = window(bytes, i, 1);
        assert(w[0] == bytes[i]);
        assert(hex_value(w[0]) is Some);
        lemma_hex_number_range(w);
        reveal_with_fuel(vstd::arithmetic::power::pow, 2);
    }
}

/// In a digest whose first `n` digits decode, every window inside those
/// digits that is at most fifteen digits long decodes.
pub proof fn lemma_window_of_digits(digest: Seq<u8>, n: int, offset: int, length: int)
    requires
        digits_ok(digest, n),
        0 <= offset,
        1 <= length <= 15,
        offset + length <= n,
    ensures
        window_ok(digest, offset, length),
{
    let w = window(digest, offset, length);
    assert(window_ok(digest, offset + length - 1, 1));
    assert forall|i: int| 0 <= i < w.len() implies (#[trigger] hex_value(w[i])) is Some by {
        assert(window_ok(digest, offset + i, 1));
        assert(window(digest, offset + i, 1)[0] == w[i]);
    }
    lemma_hex_number_range(w);
    vstd::arithmetic::power::lemma_pow_increases(16, length as nat, 15);
    reveal_with_fuel(vstd::arithmetic::power::pow, 16);
    assert(vstd::arithmetic::power::pow(16, 15) == 1152921504606846976);
}

} // verus!
