//! Fixed-point helpers: the unit, clamping and the blend of two integers.

use vstd::prelude::*;
use vstd::arithmetic::div_mod::{
    lemma_div_is_ordered, lemma_div_multiples_vanish, lemma_fundamental_div_mod,
    lemma_fundamental_div_mod_converse,
};

verus! {

/// One whole, in millionths.
pub const UNIT: i64 = 1_000_000;

/// `t` limited to the unit interval.
pub open spec fn clamp_unit_spec(t: int) -> int {
    if t < 0 {
        0
    } else if t > UNIT {
        UNIT as int
    } else {
        t
    }
}

/// `v` limited to the closed range from `lo` to `hi`.
pub open spec fn clamp_range(v: int, lo: int, hi: int) -> int {
    if v < lo {
        lo
    } else if v > hi {
        hi
    } else {
        v
    }
}

/// The quotient of `a` by a positive `b`, rounded toward zero.
pub open spec fn trunc_div(a: int, b: int) -> int
    recommends
        b > 0,
{
    if a >= 0 {
        a / b
    } else {
        -((-a) / b)
    }
}

/// The blend of `a` and `b` at fraction `t` (in millionths), rounded toward
/// zero: `a + (b - a) * t / UNIT` computed as one quotient. Fractions outside
/// the unit interval extrapolate.
pub open spec fn blend(a: int, b: int, t: int) -> int {
    trunc_div(a * UNIT + (b - a) * t, UNIT as int)
}

/// Limits a progress value to the unit interval.
pub fn clamp_unit(t: i64) -> (r: i64)
    ensures
        r == clamp_unit_spec(t as int),
        0 <= r <= UNIT,
{
    if t < 0 {
        0
    } else if t > UNIT {
        UNIT
    } else {
        t
    }
}

/// A quotient rounded toward zero, read off a split of the dividend into a
/// multiple of the divisor and a remainder smaller than it.
pub proof fn trunc_div_split(s: int, r: int, u: int)
    requires
        u > 0,
        -u < r < u,
    ensures
        trunc_div(s * u + r, u) == if s > 0 && r < 0 {
            s - 1
        } else if s < 0 && r > 0 {
            s + 1
        } else {
            s
        },
{
    let v = s * u + r;
    if s > 0 && r < 0 {
        assert(v == (s - 1) * u + (r + u)) by (nonlinear_arith)
            requires
                v == s * u + r,
        ;
        assert(v >= 0) by (nonlinear_arith)
            requires
                v == (s - 1) * u + (r + u),
                s >= 1,
                r + u > 0,
                u > 0,
        ;
        lemma_fundamental_div_mod_converse(v, u, s - 1, r + u);
    } else if s >= 0 && r >= 0 {
        assert(v >= 0) by (nonlinear_arith)
            requires
                v == s * u + r,
                s >= 0,
                r >= 0,
                u > 0,
        ;
        lemma_fundamental_div_mod_converse(v, u, s, r);
    } else if s == 0 {
        assert(v == r) by (nonlinear_arith)
            requires
                v == s * u + r,
                s == 0,
        ;
        assert(-v == 0 * u + (-r));
        lemma_fundamental_div_mod_converse(-v, u, 0, -r);
    } else if r <= 0 {
        assert(-v == (-s) * u + (-r)) by (nonlinear_arith)
            requires
                v == s * u + r,
        ;
        assert(v < 0) by (nonlinear_arith)
            requires
                v == s * u + r,
                s <= -1,
                r <= 0,
                u > 0,
        ;
        lemma_fundamental_div_mod_converse(-v, u, -s, -r);
    } else {
        assert(-v == (-s - 1) * u + (u - r)) by (nonlinear_arith)
            requires
                v == s * u + r,
        ;
        assert(v < 0) by (nonlinear_arith)
            requires
                v == s * u + r,
                s <= -1,
                r < u,
                u > 0,
        ;
        lemma_fundamental_div_mod_converse(-v, u, -s - 1, u - r);
    }
}

/// Blends two integers at fraction `t` and limits the result to the range
/// from `lo` to `hi`, as a conversion to a narrower integer type would.
pub fn blend_clamped(a: i64, b: i64, t: i64, lo: i64, hi: i64) -> (r: i64)
    requires
        lo <= hi,
    ensures
        r == clamp_range(blend(a as int, b as int, t as int), lo as int, hi as int),
{
    let d: i128 = (b as i128) - (a as i128);
    let tt: i128 = t as i128;
    assert(-0x7fff_ffff_ffff_ffff_ffff_ffff_ffff_0000 <= d * tt
        <= 0x7fff_ffff_ffff_ffff_ffff_ffff_ffff_0000) by (nonlinear_arith)
        requires
            -0xffff_ffff_ffff_ffff <= d <= 0xffff_ffff_ffff_ffff,
            -0x8000_0000_0000_0000 <= tt <= 0x7fff_ffff_ffff_ffff,
    ;
    let prod: i128 = d * tt;
    let unit: i128 = UNIT as i128;
    let whole: i128 = prod / unit;
    let part: i128 = prod % unit;
    let s: i128 = (a as i128) + whole;
    let q: i128 = if s > 0 && part < 0 {
        s - 1
    } else if s < 0 && part > 0 {
        s + 1
    } else {
        s
    };
    proof {
        assert(prod == whole * unit + part) by {
            if prod >= 0 {
                lemma_fundamental_div_mod(prod as int, unit as int);
            } else {
                lemma_fundamental_div_mod(-(prod as int), unit as int);
            }
            assert(whole * unit == unit * whole) by (nonlinear_arith);
        }
        assert(a * UNIT + (b - a) * t == s * unit + part) by (nonlinear_arith)
            requires
                prod == whole * unit + part,
                prod == d * tt,
                d == b - a,
                tt == t,
                s == a + whole,
                unit == UNIT,
        ;
        trunc_div_split(s as int, part as int, unit as int);
    }
    if q < lo as i128 {
        lo
    } else if q > hi as i128 {
        hi
    } else {
        q as i64
    }
}

/// At fraction zero the blend is its first argument.
pub proof fn blend_at_zero(a: int, b: int)
    ensures
        blend(a, b, 0) == a,
{
    assert(b - a == b - a);
    assert((b - a) * 0 == 0);
    assert(a * UNIT / (UNIT as int) == a) by (nonlinear_arith);
    assert((-a) * UNIT / (UNIT as int) == -a) by (nonlinear_arith);
    assert(-(a * UNIT) == (-a) * UNIT) by (nonlinear_arith);
}

/// At fraction one the blend is its second argument.
pub proof fn blend_at_one(a: int, b: int)
    ensures
        blend(a, b, UNIT as int) == b,
{
    assert(a * UNIT + (b - a) * UNIT == b * UNIT) by (nonlinear_arith);
    assert(b * UNIT / (UNIT as int) == b) by (nonlinear_arith);
    assert((-b) * UNIT / (UNIT as int) == -b) by (nonlinear_arith);
    assert(-(b * UNIT) == (-b) * UNIT) by (nonlinear_arith);
}

/// A quotient rounded toward zero lies between two numbers whose multiples
/// of the divisor enclose the dividend.
pub proof fn trunc_div_between(x: int, lo: int, hi: int, u: int)
    requires
        u > 0,
        lo * u <= x <= hi * u,
    ensures
        lo <= trunc_div(x, u) <= hi,
{
    if x >= 0 {
        lemma_div_is_ordered(x, hi * u, u);
        lemma_div_multiples_vanish(hi, u);
        assert(hi * u == u * hi) by (nonlinear_arith);
        if lo >= 0 {
            lemma_div_is_ordered(lo * u, x, u);
            lemma_div_multiples_vanish(lo, u);
            assert(lo * u == u * lo) by (nonlinear_arith);
        } else {
            lemma_div_is_ordered(0, x, u);
        }
    } else {
        assert((-lo) * u == u * (-lo) && (-lo) * u == -(lo * u)) by (nonlinear_arith);
        lemma_div_is_ordered(-x, (-lo) * u, u);
        lemma_div_multiples_vanish(-lo, u);
        if hi <= 0 {
            assert((-hi) * u == u * (-hi) && (-hi) * u == -(hi * u)) by (nonlinear_arith);
            lemma_div_is_ordered((-hi) * u, -x, u);
            lemma_div_multiples_vanish(-hi, u);
        } else {
            lemma_div_is_ordered(0, -x, u);
        }
    }
}

/// At a fraction within the unit interval the blend lies between its two
/// arguments.
pub proof fn blend_stays_between(a: int, b: int, t: int)
    requires
        0 <= t <= UNIT,
    ensures
        a <= b ==> a <= blend(a, b, t) <= b,
        b <= a ==> b <= blend(a, b, t) <= a,
{
    let x = a * UNIT + (b - a) * t;
    if a <= b {
        assert(a * UNIT <= x <= b * UNIT) by (nonlinear_arith)
            requires
                x == a * UNIT + (b - a) * t,
                0 <= t <= UNIT,
                a <= b,
        ;
        trunc_div_between(x, a, b, UNIT as int);
    }
    if b <= a {
        assert(b * UNIT <= x <= a * UNIT) by (nonlinear_arith)
            requires
                x == a * UNIT + (b - a) * t,
                0 <= t <= UNIT,
                b <= a,
        ;
        trunc_div_between(x, b, a, UNIT as int);
    }
}

} // verus!
