//! Easing curves: pure maps from progress to eased progress.

use vstd::prelude::*;
use vstd::arithmetic::power2::{pow2, lemma2_to64, lemma_pow2_unfold};
use crate::fixed::{clamp_unit, clamp_unit_spec, trunc_div, UNIT};

verus! {

/// The shape of a curve that remaps progress.
#[derive(Debug, Clone, Copy, PartialEq, Eq, Structural)]
pub enum Easing {
    Linear,
    EaseIn,
    EaseOut,
    EaseInOut,
    Bounce,
    Elastic,
}

/// Ease-in: `t * t`, on progress in millionths.
pub open spec fn ease_in_curve(t: int) -> int {
    t * t / (UNIT as int)
}

/// Ease-out: `t * (2 - t)`, on progress in millionths.
pub open spec fn ease_out_curve(t: int) -> int {
    t * (2 * UNIT - t) / (UNIT as int)
}

/// Ease-in-out: `2 t^2` below one half, `-1 + (4 - 2 t) t` from there on.
pub open spec fn ease_in_out_curve(t: int) -> int {
    if 2 * t < UNIT {
        2 * t * t / (UNIT as int)
    } else {
        (4 * UNIT - 2 * t) * t / (UNIT as int) - UNIT
    }
}

/// The bounce-out curve: four parabolic arcs with the factor 121/16
/// (7.5625), whose pieces meet at 4/11, 8/11 and 10/11 and which rise to
/// 3/4, 15/16, 63/64 and one whole.
pub open spec fn bounce_curve(t: int) -> int {
    if 11 * t < 4 * UNIT {
        121 * t * t / (16 * UNIT)
    } else if 11 * t < 8 * UNIT {
        (11 * t - 6 * UNIT) * (11 * t - 6 * UNIT) / (16 * UNIT) + 750_000
    } else if 11 * t < 10 * UNIT {
        (11 * t - 9 * UNIT) * (11 * t - 9 * UNIT) / (16 * UNIT) + 937_500
    } else {
        (22 * t - 21 * UNIT) * (22 * t - 21 * UNIT) / (64 * UNIT) + 984_375
    }
}

/// Half a period of the elastic wave, in the units of [`wave`]'s argument.
pub const HALF_PERIOD: i64 = 1_500_000;

/// The sine of half a turn times `m / HALF_PERIOD`, in millionths, by the
/// rational form `16 x (1 - x) / (5 - 4 x (1 - x))`.
pub open spec fn half_wave(m: int) -> int {
    16 * (m * (HALF_PERIOD - m)) * UNIT / (5 * HALF_PERIOD * HALF_PERIOD - 4 * (m * (HALF_PERIOD
        - m)))
}

/// One period of the wave: a positive half followed by its mirror image.
/// `r` counts from the start of the period and is below two half periods.
pub open spec fn wave(r: int) -> int {
    if r < HALF_PERIOD {
        half_wave(r)
    } else {
        -half_wave(r - HALF_PERIOD)
    }
}

/// Two to the power `-f / UNIT` for a fraction `f` below one whole, in
/// millionths, by a parabola through the values at 0, 1/2 and 1.
pub open spec fn decay(f: int) -> int {
    UNIT - (671_570 * f - 171_570 * f * f / (UNIT as int)) / (UNIT as int)
}

/// The elastic curve, `-2^(10 (t - 1)) * sin((t - 1 - s) * 2 pi / p)` with
/// period `p = 0.3` and shift `s = p / 4`, in rational arithmetic: the
/// power of two is [`decay`] halved once for each whole in the exponent,
/// and the sine is [`wave`]. The two ends are fixed points.
pub open spec fn elastic_curve(t: int) -> int {
    if t <= 0 || t >= UNIT {
        t
    } else {
        let x = 10 * (UNIT - t);
        let envelope = decay(x % (UNIT as int)) / (pow2((x / (UNIT as int)) as nat) as int);
        let swing = wave((10 * (1_075_000 - t)) % (2 * HALF_PERIOD));
        trunc_div(envelope * swing, UNIT as int)
    }
}

impl Easing {
    /// The eased progress for raw progress `t`, which is first limited to the
    /// unit interval.
    pub open spec fn apply_spec(self, t: int) -> int {
        let c = clamp_unit_spec(t);
        match self {
            Easing::Linear => c,
            Easing::EaseIn => ease_in_curve(c),
            Easing::EaseOut => ease_out_curve(c),
            Easing::EaseInOut => ease_in_out_curve(c),
            Easing::Bounce => bounce_curve(c),
            Easing::Elastic => elastic_curve(c),
        }
    }

    /// Applies the curve to a progress value in millionths. Progress outside
    /// the unit interval is limited to it first.
    pub fn apply(&self, t: i64) -> (r: i64)
        ensures
            r == self.apply_spec(t as int),
            t <= 0 ==> r == 0,
            t >= UNIT ==> r == UNIT,
            -UNIT <= r <= UNIT,
            *self != Easing::Elastic ==> 0 <= r,
    {
        let c: i64 = clamp_unit(t);
        proof {
            easing_endpoints(*self);
            if *self != Easing::Elastic {
                stays_within_unit(*self, t as int);
            }
        }
        match self {
            Easing::Linear => c,
            Easing::EaseIn => ease_in(c),
            Easing::EaseOut => ease_out(c),
            Easing::EaseInOut => ease_in_out(c),
            Easing::Bounce => bounce(c),
            Easing::Elastic => elastic(c),
        }
    }
}

/// Computes [`ease_in_curve`].
fn ease_in(t: i64) -> (r: i64)
    requires
        0 <= t <= UNIT,
    ensures
        r == ease_in_curve(t as int),
{
    assert(0 <= t * t <= 1_000_000_000_000) by (nonlinear_arith)
        requires
            0 <= t <= 1_000_000,
    ;
    t * t / UNIT
}

/// Computes [`ease_out_curve`].
fn ease_out(t: i64) -> (r: i64)
    requires
        0 <= t <= UNIT,
    ensures
        r == ease_out_curve(t as int),
{
    let u: i64 = 2 * UNIT - t;
    assert(0 <= t * u <= 2_000_000_000_000) by (nonlinear_arith)
        requires
            0 <= t <= 1_000_000,
            0 <= u <= 2_000_000,
    ;
    t * u / UNIT
}

/// Computes [`ease_in_out_curve`].
fn ease_in_out(t: i64) -> (r: i64)
    requires
        0 <= t <= UNIT,
    ensures
        r == ease_in_out_curve(t as int),
{
    if 2 * t < UNIT {
        assert(0 <= 2 * t * t <= 2_000_000_000_000) by (nonlinear_arith)
            requires
                0 <= t <= 1_000_000,
        ;
        2 * t * t / UNIT
    } else {
        let u: i64 = 4 * UNIT - 2 * t;
        assert(0 <= u * t <= 4_000_000_000_000) by (nonlinear_arith)
            requires
                0 <= t <= 1_000_000,
                0 <= u <= 4_000_000,
        ;
        u * t / UNIT - UNIT
    }
}

/// One arc of the bounce: the square of `d` over `den`, plus `lift`.
fn arc(d: i64, den: i64, lift: i64) -> (r: i64)
    requires
        -30_000_000 <= d <= 30_000_000,
        0 < den <= 64 * UNIT,
        0 <= lift <= UNIT,
    ensures
        r == d * d / (den as int) + lift,
{
    assert(0 <= d * d <= 900_000_000_000_000) by (nonlinear_arith)
        requires
            -30_000_000 <= d <= 30_000_000,
    ;
    let sq: i64 = d * d;
    assert(0 <= sq / den <= sq) by (nonlinear_arith)
        requires
            0 <= sq,
            0 < den,
    ;
    sq / den + lift
}

/// Computes [`bounce_curve`].
fn bounce(t: i64) -> (r: i64)
    requires
        0 <= t <= UNIT,
    ensures
        r == bounce_curve(t as int),
{
    if 11 * t < 4 * UNIT {
        let r: i64 = arc(11 * t, 16 * UNIT, 0);
        assert(121 * t * t == (11 * t) * (11 * t)) by (nonlinear_arith);
        r
    } else if 11 * t < 8 * UNIT {
        arc(11 * t - 6 * UNIT, 16 * UNIT, 750_000)
    } else if 11 * t < 10 * UNIT {
        arc(11 * t - 9 * UNIT, 16 * UNIT, 937_500)
    } else {
        arc(22 * t - 21 * UNIT, 64 * UNIT, 984_375)
    }
}

/// Computes [`half_wave`], which lies within the unit interval.
fn half_wave_of(m: i64) -> (r: i64)
    requires
        0 <= m <= HALF_PERIOD,
    ensures
        r == half_wave(m as int),
        0 <= r <= UNIT,
{
    let n: i64 = HALF_PERIOD - m;
    assert(0 <= m * n && 4 * (m * n) <= 2_250_000_000_000) by (nonlinear_arith)
        requires
            0 <= m <= 1_500_000,
            n == 1_500_000 - m,
    ;
    let q: i64 = m * n;
    let num: i128 = 16 * (q as i128) * (UNIT as i128);
    let den: i128 = 5 * (HALF_PERIOD as i128) * (HALF_PERIOD as i128) - 4 * (q as i128);
    assert(0 <= num / den <= UNIT) by (nonlinear_arith)
        requires
            num == 16 * q * UNIT,
            den == 11_250_000_000_000 - 4 * q,
            0 <= q,
            4 * q <= 2_250_000_000_000,
    ;
    (num / den) as i64
}

/// Computes [`wave`], which lies between minus one and one whole.
fn wave_of(r: i64) -> (w: i64)
    requires
        0 <= r < 2 * HALF_PERIOD,
    ensures
        w == wave(r as int),
        -UNIT <= w <= UNIT,
{
    if r < HALF_PERIOD {
        half_wave_of(r)
    } else {
        -half_wave_of(r - HALF_PERIOD)
    }
}

/// Computes [`decay`], which lies within the unit interval.
fn decay_of(f: i64) -> (r: i64)
    requires
        0 <= f < UNIT,
    ensures
        r == decay(f as int),
        0 <= r <= UNIT,
{
    assert(0 <= f * f <= 1_000_000_000_000) by (nonlinear_arith)
        requires
            0 <= f <= 1_000_000,
    ;
    let bend: i64 = 171_570 * (f * f) / UNIT;
    assert(171_570 * f * f == 171_570 * (f * f)) by (nonlinear_arith);
    assert(0 <= bend <= 171_570 * f) by (nonlinear_arith)
        requires
            bend == 171_570 * (f * f) / 1_000_000,
            0 <= f <= 1_000_000,
    ;
    let drop: i64 = (671_570 * f - bend) / UNIT;
    assert(0 <= drop <= 671_570) by (nonlinear_arith)
        requires
            drop == (671_570 * f - bend) / 1_000_000,
            0 <= bend <= 171_570 * f,
            0 <= f <= 1_000_000,
    ;
    UNIT - drop
}

/// Two to the power `k`.
fn two_to(k: i64) -> (r: i64)
    requires
        0 <= k <= 10,
    ensures
        r == pow2(k as nat),
        1 <= r <= 1024,
{
    let mut r: i64 = 1;
    let mut i: i64 = 0;
    proof {
        lemma2_to64();
    }
    while i < k
        invariant
            0 <= i <= k <= 10,
            r == pow2(i as nat),
            1 <= r,
            pow2(10) == 1024,
        decreases k - i,
    {
        proof {
            lemma_pow2_unfold((i + 1) as nat);
            pow2_grows((i + 1) as nat, 10);
        }
        r = 2 * r;
        i = i + 1;
    }
    proof {
        pow2_grows(k as nat, 10);
    }
    r
}

/// Powers of two grow with the exponent.
proof fn pow2_grows(a: nat, b: nat)
    requires
        a <= b,
    ensures
        pow2(a) <= pow2(b),
    decreases b - a,
{
    if a < b {
        lemma_pow2_unfold(b);
        pow2_grows(a, (b - 1) as nat);
    }
}

/// Computes [`elastic_curve`], which lies between minus one and one whole.
fn elastic(t: i64) -> (r: i64)
    requires
        0 <= t <= UNIT,
    ensures
        r == elastic_curve(t as int),
        -UNIT <= r <= UNIT,
{
    if t == 0 || t == UNIT {
        t
    } else {
        let x: i64 = 10 * (UNIT - t);
        let halvings: i64 = x / UNIT;
        let envelope: i64 = decay_of(x % UNIT) / two_to(halvings);
        let swing: i64 = wave_of((10 * (1_075_000 - t)) % (2 * HALF_PERIOD));
        let ghost top: int = decay((x % UNIT) as int);
        let ghost div: int = pow2(halvings as nat) as int;
        assert(0 <= envelope <= UNIT) by (nonlinear_arith)
            requires
                envelope == top / div,
                0 <= top <= UNIT,
                1 <= div,
        ;
        assert(-1_000_000_000_000 <= envelope * swing <= 1_000_000_000_000) by (nonlinear_arith)
            requires
                0 <= envelope <= 1_000_000,
                -1_000_000 <= swing <= 1_000_000,
        ;
        let product: i64 = envelope * swing;
        assert(-1_000_000 <= product / 1_000_000 <= 1_000_000) by {
            if product >= 0 {
                assert(product / 1_000_000 <= 1_000_000) by (nonlinear_arith)
                    requires
                        0 <= product <= 1_000_000_000_000,
                ;
            } else {
                assert((-product) / 1_000_000 <= 1_000_000) by (nonlinear_arith)
                    requires
                        0 <= -product <= 1_000_000_000_000,
                ;
            }
        }
        product / UNIT
    }
}

/// Every curve starts at zero and ends at one whole.
pub proof fn easing_endpoints(e: Easing)
    ensures
        e.apply_spec(0) == 0,
        e.apply_spec(UNIT as int) == UNIT,
        forall|t: int| t <= 0 ==> #[trigger] e.apply_spec(t) == 0,
        forall|t: int| t >= UNIT ==> #[trigger] e.apply_spec(t) == UNIT,
{
    assert(ease_in_curve(UNIT as int) == UNIT);
    assert(ease_out_curve(UNIT as int) == UNIT);
    assert(ease_in_out_curve(UNIT as int) == UNIT);
    assert(bounce_curve(UNIT as int) == UNIT) by {
        assert((22 * UNIT - 21 * UNIT) * (22 * UNIT - 21 * UNIT) == 1_000_000_000_000int);
        assert(1_000_000_000_000int / 64_000_000int == 15_625);
    }
    assert(ease_in_curve(0) == 0);
    assert(ease_out_curve(0) == 0);
    assert(ease_in_out_curve(0) == 0);
    assert(bounce_curve(0) == 0);
}

/// The linear curve leaves progress within the unit interval as it is.
pub proof fn linear_is_identity(t: int)
    requires
        0 <= t <= UNIT,
    ensures
        Easing::Linear.apply_spec(t) == t,
{
}

/// Ease-in lags behind linear progress everywhere between the two ends,
/// and at the middle it stands at a quarter.
pub proof fn ease_in_lags(t: int)
    requires
        0 < t < UNIT,
    ensures
        Easing::EaseIn.apply_spec(t) < t,
        Easing::EaseIn.apply_spec(500_000) == 250_000,
{
    assert(t * t / (UNIT as int) < t) by (nonlinear_arith)
        requires
            0 < t < UNIT,
            UNIT == 1_000_000,
    ;
    assert(500_000int * 500_000int / 1_000_000int == 250_000);
}

/// Ease-out never lags behind linear progress, and at the middle it stands
/// at three quarters.
pub proof fn ease_out_leads(t: int)
    requires
        0 <= t <= UNIT,
    ensures
        Easing::EaseOut.apply_spec(t) >= t,
        Easing::EaseOut.apply_spec(500_000) == 750_000,
{
    assert(t * (2 * UNIT - t) / (UNIT as int) >= t) by (nonlinear_arith)
        requires
            0 <= t <= UNIT,
            UNIT == 1_000_000,
    ;
    assert(500_000int * (2 * 1_000_000int - 500_000int) / 1_000_000int == 750_000);
}

/// Every curve but the elastic one stays within the unit interval: the
/// bounce does not overshoot.
pub proof fn stays_within_unit(e: Easing, t: int)
    requires
        e != Easing::Elastic,
    ensures
        0 <= e.apply_spec(t) <= UNIT,
{
    let c = clamp_unit_spec(t);
    let u = UNIT as int;
    match e {
        Easing::Linear => {},
        Easing::EaseIn => {
            assert(0 <= c * c <= u * u) by (nonlinear_arith)
                requires
                    0 <= c <= u,
            ;
            within_after_division(c * c, u);
        },
        Easing::EaseOut => {
            assert(0 <= c * (2 * u - c) <= u * u) by (nonlinear_arith)
                requires
                    0 <= c <= u,
            ;
            within_after_division(c * (2 * u - c), u);
        },
        Easing::EaseInOut => {
            if 2 * c < u {
                assert(0 <= 2 * c * c <= u * u) by (nonlinear_arith)
                    requires
                        0 <= c,
                        2 * c < u,
                ;
                within_after_division(2 * c * c, u);
            } else {
                assert(u * u <= (4 * u - 2 * c) * c <= 2 * (u * u)) by (nonlinear_arith)
                    requires
                        0 <= c <= u,
                        2 * c >= u,
                ;
                assert(u <= (4 * u - 2 * c) * c / u <= 2 * u) by (nonlinear_arith)
                    requires
                        u * u <= (4 * u - 2 * c) * c <= 2 * (u * u),
                        u > 0,
                ;
            }
        },
        Easing::Bounce => {
            if 11 * c < 4 * u {
                assert(0 <= 121 * c * c <= 16 * u * u) by (nonlinear_arith)
                    requires
                        0 <= c,
                        11 * c < 4 * u,
                ;
                assert(0 <= 121 * c * c / (16 * u) <= u) by (nonlinear_arith)
                    requires
                        0 <= 121 * c * c <= 16 * u * u,
                        u > 0,
                ;
            } else if 11 * c < 8 * u {
                let d = 11 * c - 6 * u;
                assert(0 <= d * d <= 4 * u * u) by (nonlinear_arith)
                    requires
                        -2 * u <= d <= 2 * u,
                ;
                assert(0 <= d * d / (16 * u) <= 250_000) by (nonlinear_arith)
                    requires
                        0 <= d * d <= 4 * u * u,
                        u == 1_000_000,
                ;
            } else if 11 * c < 10 * u {
                let d = 11 * c - 9 * u;
                assert(0 <= d * d <= u * u) by (nonlinear_arith)
                    requires
                        -u <= d <= u,
                ;
                assert(0 <= d * d / (16 * u) <= 62_500) by (nonlinear_arith)
                    requires
                        0 <= d * d <= u * u,
                        u == 1_000_000,
                ;
            } else {
                let d = 22 * c - 21 * u;
                assert(0 <= d * d <= u * u) by (nonlinear_arith)
                    requires
                        -u <= d <= u,
                ;
                assert(0 <= d * d / (64 * u) <= 15_625) by (nonlinear_arith)
                    requires
                        0 <= d * d <= u * u,
                        u == 1_000_000,
                ;
            }
        },
        Easing::Elastic => {},
    }
}

/// A number between zero and the square of `u`, divided by `u`, lies
/// between zero and `u`.
proof fn within_after_division(x: int, u: int)
    requires
        u > 0,
        0 <= x <= u * u,
    ensures
        0 <= x / u <= u,
{
    assert(0 <= x / u <= u) by (nonlinear_arith)
        requires
            u > 0,
            0 <= x <= u * u,
    ;
}

} // verus!
