//! Exact numbers for lengths, positions and opacities.
//!
//! Every number that a drawing holds has the form `(num + root3 * sqrt(3)) / den`
//! with integer `num`, `root3` and a positive integer `den`. Rescaling a digit,
//! halving a length or taking the height of an equilateral triangle all stay
//! inside this form, so no rounding ever happens here.

use vstd::prelude::*;

verus! {

/// Largest magnitude of a field of a scalar that `times` multiplies.
pub const FIELD_LIMIT: i64 = 1_099_511_627_776;

/// Largest magnitude of a factor that `times` multiplies by, of a weight
/// that `blend` combines with, and of a field of a scalar that `blend`
/// combines.
pub const FACTOR_LIMIT: i64 = 1_048_576;

/// Largest magnitude of an argument of `rescale`.
pub const RESCALE_LIMIT: i64 = 1_073_741_824;

/// The exact number `(num + root3 * sqrt(3)) / den`.
#[derive(Debug, Clone, Copy, PartialEq, Eq, Structural)]
pub struct Scalar {
    pub num: i64,
    pub root3: i64,
    pub den: i64,
}

/// The numerator of `bmax - (amax - v) * (bmax - bmin) / (amax - amin)` over
/// the denominator `amax - amin`.
pub open spec fn rescale_num(v: int, amin: int, amax: int, bmin: int, bmax: int) -> int {
    bmax * (amax - amin) - (amax - v) * (bmax - bmin)
}

/// The integer nearest to `num / den`, a tie going away from zero.
pub open spec fn round_half_away(num: int, den: int) -> int
    recommends
        den > 0,
{
    if num >= 0 {
        (2 * num + den) / (2 * den)
    } else {
        -((2 * (-num) + den) / (2 * den))
    }
}

/// `num / den` cut off toward zero.
pub open spec fn truncate(num: int, den: int) -> int
    recommends
        den > 0,
{
    if num >= 0 {
        num / den
    } else {
        -((-num) / den)
    }
}

impl Scalar {
    /// The denominator is positive.
    pub open spec fn wf(self) -> bool {
        self.den > 0
    }

    /// Well formed, and no field exceeds `bound` in magnitude.
    pub open spec fn within(self, bound: int) -> bool {
        &&& -bound <= self.num <= bound
        &&& -bound <= self.root3 <= bound
        &&& 0 < self.den <= bound
    }

    /// No part in `sqrt(3)`.
    pub open spec fn rational(self) -> bool {
        self.root3 == 0
    }

    /// Two scalars denote the same number. Because `sqrt(3)` is irrational,
    /// that is so exactly when both parts agree after cross-multiplying.
    pub open spec fn same_value(self, other: Scalar) -> bool {
        &&& self.num * other.den == other.num * self.den
        &&& self.root3 * other.den == other.root3 * self.den
    }

    /// The integer part of a rational scalar, cut off toward zero.
    pub open spec fn spec_trunc(self) -> i64 {
        truncate(self.num as int, self.den as int) as i64
    }

    /// The integer `n`.
    pub open spec fn spec_whole(n: int) -> Scalar {
        Scalar { num: n as i64, root3: 0, den: 1 }
    }

    /// The fraction `n / d`.
    pub open spec fn spec_ratio(n: int, d: int) -> Scalar {
        Scalar { num: n as i64, root3: 0, den: d as i64 }
    }

    /// `self * (k + r * sqrt(3)) / m`.
    pub open spec fn spec_times(self, k: int, r: int, m: int) -> Scalar {
        Scalar {
            num: (self.num * k + 3 * self.root3 * r) as i64,
            root3: (self.num * r + self.root3 * k) as i64,
            den: (self.den * m) as i64,
        }
    }

    /// `(ka * a + kb * b) / m`.
    pub open spec fn spec_blend(a: Scalar, ka: int, b: Scalar, kb: int, m: int) -> Scalar {
        Scalar {
            num: (ka * a.num * b.den + kb * b.num * a.den) as i64,
            root3: (ka * a.root3 * b.den + kb * b.root3 * a.den) as i64,
            den: (a.den * b.den * m) as i64,
        }
    }

    /// `v` carried from the range `[amin, amax]` to the range `[bmin, bmax]`.
    pub open spec fn spec_rescale(v: int, amin: int, amax: int, bmin: int, bmax: int) -> Scalar {
        if amin < amax {
            Scalar {
                num: rescale_num(v, amin, amax, bmin, bmax) as i64,
                root3: 0,
                den: (amax - amin) as i64,
            }
        } else {
            Scalar {
                num: (-rescale_num(v, amin, amax, bmin, bmax)) as i64,
                root3: 0,
                den: (amin - amax) as i64,
            }
        }
    }

    /// The integer `n`.
    pub fn whole(n: i64) -> (r: Scalar)
        ensures
            r == Scalar::spec_whole(n as int),
            r.wf(),
    {
        Scalar { num: n, root3: 0, den: 1 }
    }

    /// The fraction `n / d`.
    pub fn ratio(n: i64, d: i64) -> (r: Scalar)
        requires
            d > 0,
        ensures
            r == Scalar::spec_ratio(n as int, d as int),
            r.wf(),
    {
        Scalar { num: n, root3: 0, den: d }
    }

    /// Multiplies by `(k + r * sqrt(3)) / m`.
    pub fn times(self, k: i64, r: i64, m: i64) -> (out: Scalar)
        requires
            self.within(FIELD_LIMIT as int),
            -FACTOR_LIMIT <= k <= FACTOR_LIMIT,
            -FACTOR_LIMIT <= r <= FACTOR_LIMIT,
            0 < m <= FACTOR_LIMIT,
        ensures
            out == self.spec_times(k as int, r as int, m as int),
            out.num == self.num * k + 3 * self.root3 * r,
            out.root3 == self.num * r + self.root3 * k,
            out.den == self.den * m,
            out.wf(),
    {
        proof {
            lemma_product_bound(self.num as int, k as int, FIELD_LIMIT as int, FACTOR_LIMIT as int);
            lemma_product_bound(
                self.root3 as int,
                r as int,
                FIELD_LIMIT as int,
                FACTOR_LIMIT as int,
            );
            lemma_product_bound(self.num as int, r as int, FIELD_LIMIT as int, FACTOR_LIMIT as int);
            lemma_product_bound(
                self.root3 as int,
                k as int,
                FIELD_LIMIT as int,
                FACTOR_LIMIT as int,
            );
            lemma_product_bound(self.den as int, m as int, FIELD_LIMIT as int, FACTOR_LIMIT as int);
            assert(self.den * m > 0) by (nonlinear_arith)
                requires
                    self.den > 0,
                    m > 0,
            ;
            assert(3 * self.root3 * r == 3 * (self.root3 * r)) by (nonlinear_arith);
        }
        let a: i64 = self.num * k;
        let b: i64 = self.root3 * r;
        let c: i64 = self.num * r;
        let d: i64 = self.root3 * k;
        Scalar { num: a + 3 * b, root3: c + d, den: self.den * m }
    }

    /// The weighted sum `(ka * a + kb * b) / m`.
    pub fn blend(a: Scalar, ka: i64, b: Scalar, kb: i64, m: i64) -> (out: Scalar)
        requires
            a.within(FACTOR_LIMIT as int),
            b.within(FACTOR_LIMIT as int),
            -FACTOR_LIMIT <= ka <= FACTOR_LIMIT,
            -FACTOR_LIMIT <= kb <= FACTOR_LIMIT,
            0 < m <= FACTOR_LIMIT,
        ensures
            out == Scalar::spec_blend(a, ka as int, b, kb as int, m as int),
            out.num == ka * a.num * b.den + kb * b.num * a.den,
            out.root3 == ka * a.root3 * b.den + kb * b.root3 * a.den,
            out.den == a.den * b.den * m,
            out.wf(),
    {
        let ghost l: int = FACTOR_LIMIT as int;
        proof {
            lemma_product_bound(ka as int, a.num as int, l, l);
            lemma_product_bound(kb as int, b.num as int, l, l);
            lemma_product_bound(ka as int, a.root3 as int, l, l);
            lemma_product_bound(kb as int, b.root3 as int, l, l);
            lemma_product_bound(a.den as int, b.den as int, l, l);
        }
        let an: i64 = ka * a.num;
        let bn: i64 = kb * b.num;
        let ar: i64 = ka * a.root3;
        let br: i64 = kb * b.root3;
        let dd: i64 = a.den * b.den;
        proof {
            lemma_product_bound(an as int, b.den as int, l * l, l);
            lemma_product_bound(bn as int, a.den as int, l * l, l);
            lemma_product_bound(ar as int, b.den as int, l * l, l);
            lemma_product_bound(br as int, a.den as int, l * l, l);
            lemma_product_bound(dd as int, m as int, l * l, l);
            assert(dd > 0) by (nonlinear_arith)
                requires
                    dd == a.den * b.den,
                    a.den > 0,
                    b.den > 0,
            ;
            assert(dd * m > 0) by (nonlinear_arith)
                requires
                    dd > 0,
                    m > 0,
            ;
        }
        Scalar { num: an * b.den + bn * a.den, root3: ar * b.den + br * a.den, den: dd * m }
    }

    /// Carries `v` from the range `[amin, amax]` to the range `[bmin, bmax]`:
    /// `bmax - (amax - v) * (bmax - bmin) / (amax - amin)`, exactly. The ends
    /// of the one range go to the ends of the other.
    pub fn rescale(v: i64, amin: i64, amax: i64, bmin: i64, bmax: i64) -> (out: Scalar)
        requires
            amin != amax,
            -RESCALE_LIMIT <= v <= RESCALE_LIMIT,
            -RESCALE_LIMIT <= amin <= RESCALE_LIMIT,
            -RESCALE_LIMIT <= amax <= RESCALE_LIMIT,
            -RESCALE_LIMIT <= bmin <= RESCALE_LIMIT,
            -RESCALE_LIMIT <= bmax <= RESCALE_LIMIT,
        ensures
            out == Scalar::spec_rescale(
                v as int,
                amin as int,
                amax as int,
                bmin as int,
                bmax as int,
            ),
            out.wf(),
            out.rational(),
            out.num * (amax - amin) == rescale_num(
                v as int,
                amin as int,
                amax as int,
                bmin as int,
                bmax as int,
            ) * out.den,
            v == amin ==> out.num == bmin * out.den,
            v == amax ==> out.num == bmax * out.den,
    {
        let ghost l: int = RESCALE_LIMIT as int;
        proof {
            lemma_product_bound(bmax as int, amax - amin, l, 2 * l);
            lemma_product_bound(amax - v, bmax - bmin, 2 * l, 2 * l);
            assert(bmax * (amax - amin) - (amax - amin) * (bmax - bmin) == bmin * (amax - amin))
                by (nonlinear_arith);
            assert((amax - amax) * (bmax - bmin) == 0) by (nonlinear_arith);
            assert(-(bmin * (amax - amin)) == bmin * -(amax - amin)) by (nonlinear_arith);
            assert(-(bmax * (amax - amin)) == bmax * -(amax - amin)) by (nonlinear_arith);
        }
        let span: i64 = amax - amin;
        let n: i64 = bmax * span - (amax - v) * (bmax - bmin);
        if amin < amax {
            Scalar { num: n, root3: 0, den: span }
        } else {
            assert((-n) * (amax - amin) == n * (-span)) by (nonlinear_arith)
                requires
                    span == amax - amin,
            ;
            Scalar { num: -n, root3: 0, den: -span }
        }
    }

    /// Carries a digit from 0 to 15 to the range from `lo` to `hi`. The
    /// result is a number of fifteenths that lies between the two.
    pub fn of_digit(v: u8, lo: i64, hi: i64) -> (out: Scalar)
        requires
            v < 16,
            -RESCALE_LIMIT <= lo <= RESCALE_LIMIT,
            -RESCALE_LIMIT <= hi <= RESCALE_LIMIT,
        ensures
            out == Scalar::spec_rescale(v as int, 0, 15, lo as int, hi as int),
            out.rational(),
            out.den == 15,
            lo <= hi ==> 15 * lo <= out.num <= 15 * hi,
            hi <= lo ==> 15 * hi <= out.num <= 15 * lo,
    {
        let out = Scalar::rescale(v as i64, 0, 15, lo, hi);
        proof {
            if lo <= hi {
                assert(0 <= (15 - v) * (hi - lo) <= 15 * (hi - lo)) by (nonlinear_arith)
                    requires
                        0 <= 15 - v <= 15,
                        0 <= hi - lo,
                ;
            } else {
                assert(15 * (hi - lo) <= (15 - v) * (hi - lo) <= 0) by (nonlinear_arith)
                    requires
                        0 <= 15 - v <= 15,
                        hi - lo <= 0,
                ;
            }
            assert(hi * (15 - 0) == 15 * hi) by (nonlinear_arith);
        }
        out
    }

    /// The nearest integer, a tie going away from zero.
    pub fn round(self) -> (n: i64)
        requires
            self.wf(),
            self.rational(),
            -RESCALE_LIMIT <= self.num <= RESCALE_LIMIT,
            self.den <= RESCALE_LIMIT,
        ensures
            n == round_half_away(self.num as int, self.den as int),
    {
        if self.num >= 0 {
            (2 * self.num + self.den) / (2 * self.den)
        } else {
            let up: i64 = (2 * (-self.num) + self.den) / (2 * self.den);
            -up
        }
    }

    /// The integer part, cut off toward zero.
    pub fn trunc(self) -> (n: i64)
        requires
            self.wf(),
            self.rational(),
            self.num > i64::MIN,
        ensures
            n == truncate(self.num as int, self.den as int),
            n == self.spec_trunc(),
    {
        if self.num >= 0 {
            self.num / self.den
        } else {
            let up: i64 = (-self.num) / self.den;
            -up
        }
    }
}

/// Rescaling carries the ends of the source range to the ends of the target
/// range exactly: `amin` goes to `bmin` and `amax` goes to `bmax`.
pub proof fn lemma_rescale_endpoints(amin: int, amax: int, bmin: int, bmax: int)
    requires
        amin < amax,
    ensures
        rescale_num(amin, amin, amax, bmin, bmax) == bmin * (amax - amin),
        rescale_num(amax, amin, amax, bmin, bmax) == bmax * (amax - amin),
{
    assert(bmax * (amax - amin) - (amax - amin) * (bmax - bmin) == bmin * (amax - amin))
        by (nonlinear_arith);
    assert((amax - amax) * (bmax - bmin) == 0) by (nonlinear_arith);
}

/// The scalar that `rescale` returns for `amin` denotes `bmin`, and the one
/// it returns for `amax` denotes `bmax`.
pub proof fn lemma_rescale_endpoints_exact(amin: i64, amax: i64, bmin: i64, bmax: i64)
    requires
        amin < amax,
        -RESCALE_LIMIT <= amin <= RESCALE_LIMIT,
        -RESCALE_LIMIT <= amax <= RESCALE_LIMIT,
        -RESCALE_LIMIT <= bmin <= RESCALE_LIMIT,
        -RESCALE_LIMIT <= bmax <= RESCALE_LIMIT,
    ensures
        Scalar::spec_rescale(amin as int, amin as int, amax as int, bmin as int, bmax as int)
            .same_value(Scalar::spec_whole(bmin as int)),
        Scalar::spec_rescale(amax as int, amin as int, amax as int, bmin as int, bmax as int)
            .same_value(Scalar::spec_whole(bmax as int)),
{
    lemma_rescale_endpoints(amin as int, amax as int, bmin as int, bmax as int);
    lemma_product_bound(bmin as int, amax - amin, RESCALE_LIMIT as int, 2 * RESCALE_LIMIT);
    lemma_product_bound(bmax as int, amax - amin, RESCALE_LIMIT as int, 2 * RESCALE_LIMIT);
}

/// Rescaling is monotonic: over a rising source range and a target range
/// that does not fall, a larger input gives a numerator that is no smaller
/// (the denominator `amax - amin` is the same and positive).
pub proof fn lemma_rescale_monotonic(v1: int, v2: int, amin: int, amax: int, bmin: int, bmax: int)
    requires
        amin < amax,
        bmin <= bmax,
        v1 <= v2,
    ensures
        rescale_num(v1, amin, amax, bmin, bmax) <= rescale_num(v2, amin, amax, bmin, bmax),
{
    assert((amax - v2) * (bmax - bmin) <= (amax - v1) * (bmax - bmin)) by (nonlinear_arith)
        requires
            v1 <= v2,
            bmin <= bmax,
    ;
}

/// What rounding to the nearest integer means: the result is at most one
/// half away from `num / den`, and where it is exactly one half away it is
/// the one of the two neighbours that lies farther from zero.
pub proof fn lemma_round_half_away(num: int, den: int)
    requires
        den > 0,
    ensures
        ({
            let r = round_half_away(num, den);
            &&& -den <= 2 * (r * den - num) <= den
            &&& num >= 0 ==> 2 * (r * den - num) > -den
            &&& num < 0 ==> 2 * (r * den - num) < den
            &&& (num >= 0 <==> r >= 0) || r == 0
        }),
{
    let m = if num >= 0 {
        num
    } else {
        -num
    };
    let q = (2 * m + den) / (2 * den);
    vstd::arithmetic::div_mod::lemma_fundamental_div_mod(2 * m + den, 2 * den);
    vstd::arithmetic::div_mod::lemma_mod_bound(2 * m + den, 2 * den);
    assert(2 * den * q == 2 * (q * den)) by (nonlinear_arith);
    vstd::arithmetic::div_mod::lemma_div_pos_is_pos(2 * m + den, 2 * den);
    if num < 0 {
        assert((-q) * den == -(q * den)) by (nonlinear_arith);
    }
}

/// A product of two bounded integers is bounded by the product of the bounds.
pub proof fn lemma_product_bound(a: int, b: int, la: int, lb: int)
    requires
        -la <= a <= la,
        -lb <= b <= lb,
    ensures
        -(la * lb) <= a * b <= la * lb,
{
    assert(-(la * lb) <= a * b <= la * lb) by (nonlinear_arith)
        requires
            -la <= a <= la,
            -lb <= b <= lb,
    ;
}

} // verus!
