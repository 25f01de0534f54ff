//! Pure weighting and blending arithmetic: floor division by the scale,
//! linear and bilinear interpolation, and the two easing polynomials.
//!
//! Everything here is exact integer arithmetic on fixed-point values; each
//! executable function is pinned to a spec function that states its result
//! as a mathematical integer expression. Powers of `SCALE` appear as the
//! literals `1_000_000`, `1_000_000_000_000` (squared) and
//! `1_000_000_000_000_000_000_000_000` (fourth power).

use vstd::prelude::*;
use vstd::arithmetic::div_mod::lemma_div_is_ordered;
use vstd::arithmetic::div_mod::lemma_div_pos_is_pos;
use vstd::arithmetic::div_mod::lemma_fundamental_div_mod;
use vstd::arithmetic::div_mod::lemma_fundamental_div_mod_converse;
use vstd::arithmetic::div_mod::lemma_mod_bound;
use vstd::arithmetic::div_mod::lemma_div_multiples_vanish;
use vstd::arithmetic::div_mod::lemma_div_multiples_vanish_quotient;
use crate::SCALE;

verus! {

/// Largest magnitude accepted by `div_floor_scale`; comfortably holds every
/// product formed in this crate while staying clear of `i64` overflow.
pub const DIV_IN_MAX: i64 = 0x7fff_ffff_ffff_0000;

/// Floor division of a fixed-point product by `SCALE` (ghost `/` on `int`
/// is Euclidean division, which equals floor division for a positive
/// divisor).
pub fn div_floor_scale(n: i64) -> (q: i64)
    requires
        -DIV_IN_MAX <= n <= DIV_IN_MAX,
    ensures
        q == n as int / 1_000_000,
{
    if n >= 0 {
        let q: u64 = (n as u64) / 1_000_000;
        q as i64
    } else {
        let m: u64 = (-n) as u64;
        let qq: u64 = (m + 999_999) / 1_000_000;
        proof {
            let mi: int = m as int;
            assert(0 - ((mi + 999_999) / 1_000_000) == (0 - mi) / 1_000_000) by (nonlinear_arith)
                requires
                    mi >= 1,
            ;
        }
        -(qq as i64)
    }
}

/// `lerp(v0, v1, t) = (1 - t) v0 + t v1` in fixed point, rounded down.
pub open spec fn lerp_spec(v0: int, v1: int, t: int) -> int {
    (v0 * (1_000_000 - t) + v1 * t) / 1_000_000
}

/// A fixed-point lerp result never leaves the interval spanned by its two
/// endpoints: the numerator is a convex combination scaled by `SCALE`.
pub proof fn lemma_lerp_spec_bounds(v0: int, v1: int, t: int, lo: int, hi: int)
    requires
        0 <= t <= SCALE,
        lo <= v0 <= hi,
        lo <= v1 <= hi,
    ensures
        lo <= lerp_spec(v0, v1, t) <= hi,
{
    let num = v0 * (1_000_000 - t) + v1 * t;
    assert(lo * 1_000_000 <= num <= hi * 1_000_000) by (nonlinear_arith)
        requires
            0 <= t <= 1_000_000,
            lo <= v0 <= hi,
            lo <= v1 <= hi,
            num == v0 * (1_000_000 - t) + v1 * t,
    ;
    lemma_div_multiples_vanish(lo, 1_000_000);
    lemma_div_multiples_vanish(hi, 1_000_000);
    lemma_div_is_ordered(lo * 1_000_000, num, 1_000_000);
    lemma_div_is_ordered(num, hi * 1_000_000, 1_000_000);
}

/// A weight of zero returns the first endpoint exactly.
pub proof fn lemma_lerp_spec_at_zero(v0: int, v1: int)
    ensures
        lerp_spec(v0, v1, 0) == v0,
{
    lemma_div_multiples_vanish(v0, 1_000_000);
}

/// A weight of one (`SCALE`) returns the second endpoint exactly.
pub proof fn lemma_lerp_spec_at_one(v0: int, v1: int)
    ensures
        lerp_spec(v0, v1, SCALE as int) == v1,
{
    lemma_div_multiples_vanish(v1, 1_000_000);
}

/// Linear interpolation between `v0` and `v1` with fixed-point weight `t`.
pub fn lerp(v0: i64, v1: i64, t: i64) -> (r: i64)
    requires
        0 <= t <= SCALE,
        -4_000_000_000 <= v0 <= 4_000_000_000,
        -4_000_000_000 <= v1 <= 4_000_000_000,
    ensures
        r == lerp_spec(v0 as int, v1 as int, t as int),
        v0 <= v1 ==> v0 <= r <= v1,
        v1 <= v0 ==> v1 <= r <= v0,
{
    proof {
        assert(-4_000_000_000_000_000 <= v0 * (1_000_000 - t) <= 4_000_000_000_000_000
            && -4_000_000_000_000_000 <= v1 * t <= 4_000_000_000_000_000) by (nonlinear_arith)
            requires
                0 <= t <= 1_000_000,
                -4_000_000_000 <= v0 <= 4_000_000_000,
                -4_000_000_000 <= v1 <= 4_000_000_000,
        ;
        if v0 <= v1 {
            lemma_lerp_spec_bounds(v0 as int, v1 as int, t as int, v0 as int, v1 as int);
        } else {
            lemma_lerp_spec_bounds(v0 as int, v1 as int, t as int, v1 as int, v0 as int);
        }
    }
    let num: i64 = v0 * (1_000_000 - t) + v1 * t;
    div_floor_scale(num)
}

/// `bilerp`: blend the four corner values with `u` left to right and `v`
/// top to bottom, as two nested lerps.
pub open spec fn bilerp_spec(tl: int, tr: int, bl: int, br: int, u: int, v: int) -> int {
    lerp_spec(lerp_spec(tl, tr, u), lerp_spec(bl, br, u), v)
}

/// A bilerp of four values drawn from `[lo, hi]` stays in `[lo, hi]`.
pub proof fn lemma_bilerp_spec_bounds(tl: int, tr: int, bl: int, br: int, u: int, v: int, lo: int, hi: int)
    requires
        0 <= u <= SCALE,
        0 <= v <= SCALE,
        lo <= tl <= hi,
        lo <= tr <= hi,
        lo <= bl <= hi,
        lo <= br <= hi,
    ensures
        lo <= bilerp_spec(tl, tr, bl, br, u, v) <= hi,
{
    lemma_lerp_spec_bounds(tl, tr, u, lo, hi);
    lemma_lerp_spec_bounds(bl, br, u, lo, hi);
    lemma_lerp_spec_bounds(lerp_spec(tl, tr, u), lerp_spec(bl, br, u), v, lo, hi);
}

/// Blending four equal corners yields that corner value exactly, whatever
/// the weights: the interpolation introduces no drift on a constant field.
pub proof fn lemma_bilerp_spec_constant(a: int, u: int, v: int)
    ensures
        bilerp_spec(a, a, a, a, u, v) == a,
{
    assert(a * (1_000_000 - u) + a * u == a * 1_000_000) by (nonlinear_arith);
    assert(a * (1_000_000 - v) + a * v == a * 1_000_000) by (nonlinear_arith);
    lemma_div_multiples_vanish(a, 1_000_000);
}

/// Bilinear interpolation of the four corner values.
pub fn bilerp(tl: i64, tr: i64, bl: i64, br: i64, u: i64, v: i64) -> (r: i64)
    requires
        0 <= u <= SCALE,
        0 <= v <= SCALE,
        -4_000_000_000 <= tl <= 4_000_000_000,
        -4_000_000_000 <= tr <= 4_000_000_000,
        -4_000_000_000 <= bl <= 4_000_000_000,
        -4_000_000_000 <= br <= 4_000_000_000,
    ensures
        r == bilerp_spec(tl as int, tr as int, bl as int, br as int, u as int, v as int),
{
    let top: i64 = lerp(tl, tr, u);
    let bot: i64 = lerp(bl, br, u);
    lerp(top, bot, v)
}

/// `smoothstep(x) = x^2 (3 - 2x)` in fixed point over `[0, SCALE]`.
pub open spec fn smoothstep_spec(x: int) -> int {
    (x * x * (3_000_000 - 2 * x)) / 1_000_000_000_000
}

/// The cubic easing curve `x^2 (3 - 2x)`, rounded down to a millionth.
pub fn smoothstep(x: i64) -> (r: i64)
    requires
        0 <= x <= SCALE,
    ensures
        r == smoothstep_spec(x as int),
        0 <= r <= SCALE,
{
    let xs: u64 = x as u64;
    proof {
        assert(xs * xs <= 1_000_000_000_000
            && xs * xs * (3_000_000 - 2 * xs) <= 3_000_000_000_000_000_000) by (nonlinear_arith)
            requires
                xs <= 1_000_000,
        ;
    }
    let num: u64 = xs * xs * (3_000_000 - 2 * xs);
    let q: u64 = num / 1_000_000_000_000;
    proof {
        assert(num as int / 1_000_000_000_000 <= 1_000_000) by (nonlinear_arith)
            requires
                num == xs * xs * (3_000_000 - 2 * xs),
                xs <= 1_000_000,
        ;
        assert(num as int == x * x * (3_000_000 - 2 * x));
    }
    q as i64
}

/// Numerator of the quintic easing curve before the final scale-down:
/// `x^3 (10 - 15x + 6x^2)` with each coefficient carrying its power of
/// `SCALE`.
pub open spec fn smootherstep_num(x: int) -> int {
    x * x * x * (10_000_000_000_000 - 15_000_000 * x + 6 * x * x)
}

/// `smootherstep(x) = x^3 (6x^2 - 15x + 10)` in fixed point over
/// `[0, SCALE]`; the divisor is the fourth power of `SCALE`.
pub open spec fn smootherstep_spec(x: int) -> int {
    smootherstep_num(x) / 1_000_000_000_000_000_000_000_000
}

/// The quintic easing curve fixes both endpoints: 0 maps to 0 and 1 maps
/// to 1 exactly.
pub proof fn lemma_smootherstep_endpoints()
    ensures
        smootherstep_spec(0) == 0,
        smootherstep_spec(SCALE as int) == SCALE,
{
    assert(0int * 0 * 0 * (10_000_000_000_000 - 15_000_000 * 0 + 6 * 0 * 0) == 0) by (nonlinear_arith);
    assert(smootherstep_num(0) == 0);
    assert(0int / 1_000_000_000_000_000_000_000_000 == 0) by (nonlinear_arith);
    assert(smootherstep_spec(0) == 0);
    assert(1_000_000int * 1_000_000 * 1_000_000 * (10_000_000_000_000 - 15_000_000 * 1_000_000
        + 6 * 1_000_000 * 1_000_000) == 1_000_000_000_000_000_000_000_000_000_000) by (nonlinear_arith);
    assert(smootherstep_num(1_000_000) == 1_000_000_000_000_000_000_000_000_000_000);
    assert(1_000_000_000_000_000_000_000_000_000_000int / 1_000_000_000_000_000_000_000_000
        == 1_000_000) by (nonlinear_arith);
    assert(smootherstep_spec(1_000_000) == 1_000_000);
}

/// Near zero the quintic easing curve is cubically flat: `s(x)` is at most
/// `10 x^3 / SCALE^2`, so its slope vanishes at the left endpoint.
pub proof fn lemma_smootherstep_flat_start(x: int)
    requires
        0 <= x <= SCALE,
    ensures
        0 <= smootherstep_spec(x) <= (10 * x * x * x) / 1_000_000_000_000,
{
    let nn = smootherstep_num(x);
    let fx = x * x * x * (10_000_000_000_000 - 15_000_000 * x + 6 * x * x);
    assert(fx == nn);
    let aa = 10 * x * x * x;
    assert(0 <= fx && fx <= 1_000_000_000_000 * aa) by (nonlinear_arith)
        requires
            0 <= x <= 1_000_000,
            fx == x * x * x * (10_000_000_000_000 - 15_000_000 * x + 6 * x * x),
            aa == 10 * x * x * x,
    ;
    lemma_div_pos_is_pos(nn, 1_000_000_000_000_000_000_000_000);
    lemma_div_is_ordered(nn, 1_000_000_000_000 * aa, 1_000_000_000_000_000_000_000_000);
    lemma_div_multiples_vanish_quotient(1_000_000_000_000, aa, 1_000_000_000_000);
    assert(1_000_000_000_000int * 1_000_000_000_000 == 1_000_000_000_000_000_000_000_000) by (nonlinear_arith);
}

/// Near one the quintic easing curve is cubically flat as well: by the
/// exact point symmetry `s(1 - x) = 1 - s(x)` of the numerator, the value
/// at `SCALE - x` sits within one floor-rounding unit of `SCALE` minus the
/// cubic bound.
pub proof fn lemma_smootherstep_flat_end(x: int)
    requires
        0 <= x <= SCALE,
    ensures
        SCALE - (10 * x * x * x) / 1_000_000_000_000 - 1 <= smootherstep_spec(SCALE - x),
        smootherstep_spec(SCALE - x) <= SCALE,
{
    let p: int = 1_000_000_000_000_000_000_000_000;
    let nn = smootherstep_num(x);
    let fx = x * x * x * (10_000_000_000_000 - 15_000_000 * x + 6 * x * x);
    assert(fx == nn);
    let aa = 10 * x * x * x;
    let bound = aa / 1_000_000_000_000;
    assert(0 <= fx && fx <= 1_000_000_000_000 * aa) by (nonlinear_arith)
        requires
            0 <= x <= 1_000_000,
            fx == x * x * x * (10_000_000_000_000 - 15_000_000 * x + 6 * x * x),
            aa == 10 * x * x * x,
    ;
    // the exact point symmetry of the numerator
    let g = 1_000_000 - x;
    let fg = g * g * g * (10_000_000_000_000 - 15_000_000 * g + 6 * g * g);
    assert(fg == smootherstep_num(1_000_000 - x));
    assert(fg == p * 1_000_000 - fx) by (nonlinear_arith)
        requires
            g == 1_000_000 - x,
            p == 1_000_000_000_000_000_000_000_000,
            fg == g * g * g * (10_000_000_000_000 - 15_000_000 * g + 6 * g * g),
            fx == x * x * x * (10_000_000_000_000 - 15_000_000 * x + 6 * x * x),
    ;
    // split nn against the divisor and rebuild the quotient of p - nn
    let q1 = nn / p;
    let r1 = nn % p;
    lemma_fundamental_div_mod(nn, p);
    lemma_mod_bound(nn, p);
    if r1 == 0 {
        assert(fg == (1_000_000 - q1) * p + 0) by (nonlinear_arith)
            requires
                fg == p * 1_000_000 - nn,
                nn == p * q1 + r1,
                r1 == 0,
        ;
        lemma_fundamental_div_mod_converse(fg, p, 1_000_000 - q1, 0);
    } else {
        assert(fg == (1_000_000 - q1 - 1) * p + (p - r1)) by (nonlinear_arith)
            requires
                fg == p * 1_000_000 - nn,
                nn == p * q1 + r1,
        ;
        lemma_fundamental_div_mod_converse(fg, p, 1_000_000 - q1 - 1, p - r1);
    }
    // the quotient of nn is at most the cubic bound
    lemma_div_is_ordered(nn, 1_000_000_000_000 * aa, p);
    lemma_div_multiples_vanish_quotient(1_000_000_000_000, aa, 1_000_000_000_000);
    assert(1_000_000_000_000int * 1_000_000_000_000 == 1_000_000_000_000_000_000_000_000) by (nonlinear_arith);
    lemma_div_pos_is_pos(nn, p);
}

/// The quintic easing curve `x^3 (6x^2 - 15x + 10)`, rounded down to a
/// millionth; intermediates are widened to 128 bits, so the value is the
/// exact floor of the rational result.
pub fn smootherstep(x: i64) -> (r: i64)
    requires
        0 <= x <= SCALE,
    ensures
        r == smootherstep_spec(x as int),
        0 <= r <= SCALE,
{
    let xu: u128 = x as u128;
    proof {
        assert(15_000_000 * xu <= 10_000_000_000_000 + 6 * xu * xu
            && 10_000_000_000_000 + 6 * xu * xu - 15_000_000 * xu <= 10_000_000_000_000) by (nonlinear_arith)
            requires
                0 <= xu <= 1_000_000,
        ;
    }
    let poly: u128 = 10_000_000_000_000 + 6 * xu * xu - 15_000_000 * xu;
    proof {
        assert(xu * xu <= 1_000_000_000_000 && xu * xu * xu <= 1_000_000_000_000_000_000
            && xu * xu * xu * poly <= 10_000_000_000_000_000_000_000_000_000_000) by (nonlinear_arith)
            requires
                0 <= xu <= 1_000_000 && poly <= 10_000_000_000_000,
        ;
    }
    let num: u128 = xu * xu * xu * poly;
    let q: u128 = num / 1_000_000_000_000_000_000_000_000;
    proof {
        let xi = x as int;
        assert(num as int == smootherstep_num(xi)) by (nonlinear_arith)
            requires
                num == xu * xu * xu * poly,
                poly == 10_000_000_000_000 + 6 * xu * xu - 15_000_000 * xu,
                xu == xi,
        ;
        assert(xu * xu * xu * poly <= 1_000_000_000_000_000_000_000_000_000_000) by (nonlinear_arith)
            requires
                0 <= xu <= 1_000_000,
                poly == 10_000_000_000_000 + 6 * xu * xu - 15_000_000 * xu,
        ;
        lemma_div_is_ordered(0, num as int, 1_000_000_000_000_000_000_000_000);
        lemma_div_is_ordered(num as int, 1_000_000_000_000_000_000_000_000_000_000,
            1_000_000_000_000_000_000_000_000);
    }
    q as i64
}

} // verus!
