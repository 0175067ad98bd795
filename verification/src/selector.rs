//! Choosing a pattern from a catalogue.

use vstd::prelude::*;
use vstd::string::StringSliceAdditionalSpecFns;
use crate::digest::{decode_window, digit_at, lemma_digit_range, window_ok};
use crate::geo_pattern::GeoPatternError;
use crate::patterns::Patterns;
use crate::scalar::{rescale_num, round_half_away};

verus! {

/// Where in the digest the digit stands that chooses the pattern.
pub const SELECTOR_OFFSET: usize = 20;

/// The place in a catalogue of `count` patterns that a digit chooses: the
/// digit, 0 to 15, carried to the range from 0 to `count - 1` and rounded
/// to the nearest integer, a tie going away from zero.
pub open spec fn selected_index(digit: int, count: int) -> int {
    round_half_away(rescale_num(digit, 0, 15, 0, count - 1), 15)
}

/// What choosing from the catalogue `patterns` by the digest gives.
pub open spec fn selected(digest: Seq<u8>, patterns: Seq<Patterns>) -> Result<
    Patterns,
    GeoPatternError,
> {
    if patterns.len() == 0 {
        Err(GeoPatternError::EmptyPatternCatalog)
    } else if !window_ok(digest, SELECTOR_OFFSET as int, 1) {
        Err(GeoPatternError::MalformedDigest)
    } else {
        Ok(patterns[selected_index(
            digit_at(digest, SELECTOR_OFFSET as int),
            patterns.len() as int,
        )])
    }
}

/// The chosen place lies in the catalogue: for every digit from 0 to 15 and
/// every catalogue of at least one pattern it is at least 0 and less than
/// the size of the catalogue.
pub proof fn lemma_selected_index_bounds(digit: int, count: int)
    requires
        0 <= digit <= 15,
        1 <= count,
    ensures
        0 <= selected_index(digit, count) < count,
        selected_index(digit, count) == (2 * digit * (count - 1) + 15) / 30,
{
    let n = count - 1;
    assert(rescale_num(digit, 0, 15, 0, n) == digit * n) by (nonlinear_arith);
    assert(0 <= digit * n <= 15 * n) by (nonlinear_arith)
        requires
            0 <= digit <= 15,
            0 <= n,
    ;
    assert(2 * (digit * n) == 2 * digit * n) by (nonlinear_arith);
    let top = 2 * (digit * n) + 15;
    vstd::arithmetic::div_mod::lemma_fundamental_div_mod(top, 30);
    vstd::arithmetic::div_mod::lemma_mod_bound(top, 30);
    vstd::arithmetic::div_mod::lemma_div_pos_is_pos(top, 30);
}

/// Chooses a place in a catalogue of `count` patterns by a digit.
pub fn select_index(digit: u8, count: usize) -> (r: usize)
    requires
        digit <= 15,
        count >= 1,
    ensures
        r == selected_index(digit as int, count as int),
        r < count,
{
    proof {
        lemma_selected_index_bounds(digit as int, count as int);
        assert(0 <= 2 * digit * (count - 1) <= 30 * (count - 1)) by (nonlinear_arith)
            requires
                0 <= digit <= 15,
                count >= 1,
        ;
    }
    let n: u128 = (count - 1) as u128;
    let top: u128 = 2 * (digit as u128) * n + 15;
    (top / 30) as usize
}

/// Chooses a pattern from the catalogue by the digit at offset 20 of the
/// digest. An empty catalogue is refused; nothing is put in its place.
pub fn select(digest: &str, patterns: &[Patterns]) -> (r: Result<Patterns, GeoPatternError>)
    ensures
        r == selected(digest.spec_bytes(), patterns@),
{
    if patterns.len() == 0 {
        return Err(GeoPatternError::EmptyPatternCatalog);
    }
    match decode_window(digest, SELECTOR_OFFSET, 1) {
        Err(_) => Err(GeoPatternError::MalformedDigest),
        Ok(v) => {
            proof {
                lemma_digit_range(digest.spec_bytes(), SELECTOR_OFFSET as int);
            }
            let index = select_index(v as u8, patterns.len());
            Ok(patterns[index])
        },
    }
}

} // verus!
