//! Colours that are written as hex literals, and what a digest says about
//! shifting one.

use vstd::prelude::*;
use vstd::string::StringSliceAdditionalSpecFns;
use crate::digest::{
    all_hex, decode_window, hex_number, lemma_hex_number_range, window, window_ok, PatternError,
};
use crate::scalar::Scalar;

verus! {

/// Why a colour could not be read.
#[derive(Debug, Clone, Copy, PartialEq, Eq, Structural)]
pub enum ColorError {
    /// The text is not `#` followed by three or by six hexadecimal digits.
    InvalidHexColor,
}

/// A colour by its red, green and blue channel, each a number of 255ths
/// from 0 to 255.
#[derive(Debug, Clone, Copy, PartialEq, Eq, Structural)]
pub struct Color {
    pub r: u8,
    pub g: u8,
    pub b: u8,
}

/// What a digest says about shifting a base colour: how far to turn its hue
/// and how far to move its chroma, and in which direction.
#[derive(Debug, Clone, Copy, PartialEq, Eq, Structural)]
pub struct ColorShift {
    /// Degrees to turn the hue by, from 0 to 359. The new hue is the
    /// distance between the old hue and this offset.
    pub hue: Scalar,
    /// The amount to move the chroma by, from 0 to 1.
    pub chroma: Scalar,
    /// The chroma grows by that amount; otherwise it shrinks by it.
    pub add: bool,
}

/// The windows that say how to shift a colour decode: three digits from
/// offset 14 for the hue and one digit at offset 17 for the chroma.
pub open spec fn shift_ok(digest: Seq<u8>) -> bool {
    window_ok(digest, 14, 3) && window_ok(digest, 17, 1)
}

/// The shift that a digest asks for. The hue window, 0 to 4095, is carried
/// to the range from 0 to 359; the chroma digit, 0 to 15, to the range from
/// 0 to 1. An even chroma digit adds, an odd one takes away.
pub open spec fn shift_of(digest: Seq<u8>) -> ColorShift {
    let hue = hex_number(window(digest, 14, 3));
    let sat = hex_number(window(digest, 17, 1));
    ColorShift {
        hue: Scalar::spec_rescale(hue, 0, 4095, 0, 359),
        chroma: Scalar::spec_rescale(sat, 0, 15, 0, 1),
        add: sat % 2 == 0,
    }
}

/// Reads from a digest how to shift a colour.
pub fn color_shift(digest: &str) -> (r: Result<ColorShift, PatternError>)
    ensures
        shift_ok(digest.spec_bytes()) ==> r == Ok::<ColorShift, PatternError>(
            shift_of(digest.spec_bytes()),
        ),
        !shift_ok(digest.spec_bytes()) ==> r == Err::<ColorShift, PatternError>(
            PatternError::MalformedDigest,
        ),
{
    let hue = match decode_window(digest, 14, 3) {
        Ok(v) => v,
        Err(e) => {
            return Err(e);
        },
    };
    let sat = match decode_window(digest, 17, 1) {
        Ok(v) => v,
        Err(e) => {
            return Err(e);
        },
    };
    proof {
        lemma_hex_number_range(window(digest.spec_bytes(), 14, 3));
        lemma_hex_number_range(window(digest.spec_bytes(), 17, 1));
        reveal_with_fuel(vstd::arithmetic::power::pow, 4);
    }
    Ok(
        ColorShift {
            hue: Scalar::rescale(hue as i64, 0, 4095, 0, 359),
            chroma: Scalar::rescale(sat as i64, 0, 15, 0, 1),
            add: sat % 2 == 0,
        },
    )
}

/// The text is a hex colour: `#`, then three or six hexadecimal digits.
pub open spec fn hex_color_ok(text: Seq<u8>) -> bool {
    &&& text.len() == 4 || text.len() == 7
    &&& text[0] == 0x23
    &&& all_hex(text.subrange(1, text.len() as int))
}

/// Channel `c` (0, 1 or 2) of a hex colour. In the short form the one
/// digit of the channel is written twice; in the long form its two digits
/// are read as they stand.
pub open spec fn hex_channel(text: Seq<u8>, c: int) -> int {
    if text.len() == 4 {
        17 * hex_number(window(text, 1 + c, 1))
    } else {
        hex_number(window(text, 1 + 2 * c, 2))
    }
}

/// How far apart two channels are.
pub open spec fn channel_gap(a: u8, b: u8) -> int {
    if a >= b {
        a - b
    } else {
        b - a
    }
}

impl Color {
    /// The three channels.
    pub open spec fn channels(self) -> (u8, u8, u8) {
        (self.r, self.g, self.b)
    }

    /// The colour with the channels `r`, `g` and `b`.
    pub fn new(r: u8, g: u8, b: u8) -> (c: Color)
        ensures
            c.channels() == (r, g, b),
    {
        Color { r, g, b }
    }

    /// Reads `#rgb` or `#rrggbb`. Every other text is an invalid colour.
    pub fn hex(s: &str) -> (r: Result<Color, ColorError>)
        ensures
            hex_color_ok(s.spec_bytes()) ==> r is Ok && r.unwrap().r == hex_channel(
                s.spec_bytes(),
                0,
            ) && r.unwrap().g == hex_channel(s.spec_bytes(), 1) && r.unwrap().b == hex_channel(
                s.spec_bytes(),
                2,
            ),
            !hex_color_ok(s.spec_bytes()) ==> r == Err::<Color, ColorError>(
                ColorError::InvalidHexColor,
            ),
    {
        let bytes = s.as_bytes();
        let n = bytes.len();
        if n != 4 && n != 7 {
            return Err(ColorError::InvalidHexColor);
        }
        if bytes[0] != 0x23 {
            return Err(ColorError::InvalidHexColor);
        }
        let width: usize = if n == 4 {
            1
        } else {
            2
        };
        let ghost text = s.spec_bytes();
        let ghost tail = text.subrange(1, n as int);
        let mut out: [u8; 3] = [0, 0, 0];
        let mut c: usize = 0;
        while c < 3
            invariant
                0 <= c <= 3,
                n == 4 || n == 7,
                width == (if n == 4 { 1usize } else { 2usize }),
                text == s.spec_bytes(),
                text.len() == n,
                tail == text.subrange(1, n as int),
                forall|i: int| 0 <= i < c * width ==> (#[trigger] crate::digest::hex_value(tail[i])) is Some,
                forall|k: int| 0 <= k < c ==> (#[trigger] out@[k]) == hex_channel(text, k),
            decreases 3 - c,
        {
            let ghost w = window(text, 1 + c * width, width as int);
            proof {
                assert(1 + c * width + width <= n) by (nonlinear_arith)
                    requires
                        c < 3,
                        (width == 1 && n == 4) || (width == 2 && n == 7),
                ;
                assert(c * width + width == (c + 1) * width) by (nonlinear_arith);
                assert forall|i: int| 0 <= i < width implies w[i] == tail[c * width + i] by {}
            }
            match decode_window(s, 1 + c * width, width) {
                Err(_) => {
                    proof {
                        if all_hex(tail) {
                            assert forall|i: int| 0 <= i < w.len() implies (
                            #[trigger] crate::digest::hex_value(w[i])) is Some by {
                                assert(w[i] == tail[c * width + i]);
                            }
                            crate::digest::lemma_hex_number_range(w);
                            reveal_with_fuel(vstd::arithmetic::power::pow, 3);
                        }
                    }
                    return Err(ColorError::InvalidHexColor);
                },
                Ok(v) => {
                    proof {
                        crate::digest::lemma_hex_number_range(w);
                        reveal_with_fuel(vstd::arithmetic::power::pow, 3);
                        assert forall|i: int| 0 <= i < (c + 1) * width implies (
                        #[trigger] crate::digest::hex_value(tail[i])) is Some by {
                            if i >= c * width {
                                assert(tail[i] == w[i - c * width]);
                            }
                        }
                    }
                    let value: u8 = if n == 4 {
                        (17 * v) as u8
                    } else {
                        v as u8
                    };
                    out[c] = value;
                    c = c + 1;
                },
            }
        }
        proof {
            assert(3 * width == tail.len()) by (nonlinear_arith)
                requires
                    (width == 1 && tail.len() == 3) || (width == 2 && tail.len() == 6),
            ;
        }
        Ok(Color { r: out[0], g: out[1], b: out[2] })
    }

    /// The three channels.
    pub fn rgb(&self) -> (c: (u8, u8, u8))
        ensures
            c == self.channels(),
    {
        (self.r, self.g, self.b)
    }

    /// Two colours are almost the same: their channels differ by less than
    /// 3/255 in all.
    pub fn almost_equal(&self, other: &Self) -> (same: bool)
        ensures
            same == (channel_gap(self.channels().0, other.channels().0) + channel_gap(
                self.channels().1,
                other.channels().1,
            ) + channel_gap(self.channels().2, other.channels().2) < 3),
    {
        let dr: u16 = if self.r >= other.r {
            (self.r - other.r) as u16
        } else {
            (other.r - self.r) as u16
        };
        let dg: u16 = if self.g >= other.g {
            (self.g - other.g) as u16
        } else {
            (other.g - self.g) as u16
        };
        let db: u16 = if self.b >= other.b {
            (self.b - other.b) as u16
        } else {
            (other.b - self.b) as u16
        };
        dr + dg + db < 3
    }
}

} // verus!
