//! The exact scalar all color math is carried out in.
//!
//! A component value is a signed 64-bit fixed-point number with
//! [`FIXED_ONE`] steps per unit, so `0` means 0.0 and `FIXED_ONE` means
//! 1.0.  Working with an exact scalar lets every operation state
//! precisely which integer it returns; rounding happens only in
//! explicitly stated floor divisions.

use vstd::prelude::*;
use vstd::arithmetic::div_mod::lemma_fundamental_div_mod;
use vstd::arithmetic::div_mod::lemma_fundamental_div_mod_converse;
use vstd::arithmetic::div_mod::lemma_div_multiples_vanish;
use vstd::arithmetic::div_mod::lemma_div_is_ordered;
use vstd::arithmetic::div_mod::lemma_div_pos_is_pos;

verus! {

/// Number of fixed-point steps that represent the value 1.0.
pub const FIXED_ONE: i64 = 4096;

/// Magnitude bound on the components fed to the arithmetic helpers:
/// products of two bounded operands then stay well inside `i64`.
pub const FIXED_BOUND: i64 = 0x4000_0000;

/// The operating range of a fixed-point component.
pub open spec fn fixed_in_range(x: int) -> bool {
    -(FIXED_BOUND as int) <= x && x <= FIXED_BOUND as int
}

/// Euclidean (floor, for a positive divisor) quotient, as `/` means in
/// specifications; Rust's own signed `/` truncates toward zero instead.
pub fn div_floor(a: i64, d: i64) -> (q: i64)
    requires
        0 < d,
        i64::MIN < a,
    ensures
        q == a as int / d as int,
{
    if a >= 0 {
        let q = (a as u64) / (d as u64);
        proof {
            assert(a as int / d as int <= a as int) by (nonlinear_arith)
                requires 0 <= a as int, 0 < d as int;
        }
        q as i64
    } else {
        let n = (-a) as u64;
        let du = d as u64;
        let q = n / du;
        let r = n % du;
        if r == 0 {
            proof {
                lemma_fundamental_div_mod(n as int, d as int);
                assert(n as int == d as int * (q as int));
                lemma_div_multiples_vanish(-(q as int), d as int);
                assert(a as int == d as int * (-(q as int))) by (nonlinear_arith)
                    requires
                        n as int == d as int * (q as int),
                        a as int == -(n as int);
            }
            -(q as i64)
        } else {
            proof {
                lemma_fundamental_div_mod(n as int, d as int);
                assert(n as int == (q as int) * (d as int) + r as int);
                assert(a as int == (-(q as int) - 1) * (d as int) + (d as int - r as int))
                    by (nonlinear_arith)
                    requires
                        n as int == (q as int) * (d as int) + r as int,
                        a as int == -(n as int);
                lemma_fundamental_div_mod_converse(
                    a as int,
                    d as int,
                    -(q as int) - 1,
                    d as int - r as int,
                );
            }
            -(q as i64) - 1
        }
    }
}

/// Scale `a` by the fixed-point factor `f`, flooring the result:
/// the exact value of `a * f / FIXED_ONE` under Euclidean division.
pub fn fixed_scale(a: i64, f: i64) -> (r: i64)
    requires
        fixed_in_range(a as int),
        fixed_in_range(f as int),
    ensures
        r == fixed_scale_spec(a as int, f as int),
{
    proof {
        assert(-(0x4000_0000int * 0x4000_0000int) <= a as int * f as int
            <= 0x4000_0000int * 0x4000_0000int) by (nonlinear_arith)
            requires
                fixed_in_range(a as int),
                fixed_in_range(f as int);
    }
    let p = a * f;
    div_floor(p, FIXED_ONE)
}

/// What [`fixed_scale`] returns.
pub open spec fn fixed_scale_spec(a: int, f: int) -> int {
    a * f / FIXED_ONE as int
}

/// Scaling by a factor of zero yields zero.
pub proof fn lemma_fixed_scale_zero(a: int)
    ensures
        fixed_scale_spec(a, 0) == 0,
{
    assert(a * 0 == 0) by (nonlinear_arith);
    assert(0int / FIXED_ONE as int == 0);
}

/// Scaling by the unit factor yields the value itself.
pub proof fn lemma_fixed_scale_one(a: int)
    ensures
        fixed_scale_spec(a, FIXED_ONE as int) == a,
{
    assert(a * FIXED_ONE as int == FIXED_ONE as int * a) by (nonlinear_arith);
    lemma_div_multiples_vanish(a, FIXED_ONE as int);
}

/// Scaling a bounded component by a factor in the unit interval keeps
/// it bounded, and keeps a nonnegative component nonnegative.
pub proof fn lemma_fixed_scale_range(a: int, f: int)
    requires
        fixed_in_range(a),
        0 <= f <= FIXED_ONE as int,
    ensures
        fixed_in_range(fixed_scale_spec(a, f)),
        a >= 0 ==> 0 <= fixed_scale_spec(a, f) <= a,
{
    let one = FIXED_ONE as int;
    let bound = FIXED_BOUND as int;
    assert(-(one * bound) <= a * f <= one * bound) by (nonlinear_arith)
        requires
            -bound <= a <= bound,
            0 <= f <= one,
            one == 4096,
            bound == 0x4000_0000;
    lemma_div_multiples_vanish(bound, one);
    lemma_div_multiples_vanish(-bound, one);
    lemma_div_is_ordered(a * f, one * bound, one);
    lemma_div_is_ordered(-(one * bound), a * f, one);
    if a >= 0 {
        assert(0 <= a * f <= one * a) by (nonlinear_arith)
            requires
                0 <= a,
                0 <= f <= one;
        lemma_div_pos_is_pos(a * f, one);
        lemma_div_multiples_vanish(a, one);
        lemma_div_is_ordered(a * f, one * a, one);
    }
}

/// Scaling by a unit-interval factor keeps the unit interval.
pub proof fn lemma_fixed_scale_unit(a: int, f: int)
    requires
        0 <= a <= FIXED_ONE as int,
        0 <= f <= FIXED_ONE as int,
    ensures
        0 <= fixed_scale_spec(a, f) <= a,
{
    let one = FIXED_ONE as int;
    assert(0 <= a * f <= one * a) by (nonlinear_arith)
        requires
            0 <= a,
            0 <= f <= one;
    lemma_div_pos_is_pos(a * f, one);
    lemma_div_multiples_vanish(a, one);
    lemma_div_is_ordered(a * f, one * a, one);
}

/// What blending one component returns: `a + (b - a) * f / FIXED_ONE`,
/// the from-component moved toward the to-component by the factor.
pub open spec fn blend_comp_spec(a: int, b: int, f: int) -> int {
    a + fixed_scale_spec(b - a, f)
}

/// Blend one component of `a` toward the matching component of `b` by
/// the fixed-point factor `f`.
pub fn blend_comp(a: i64, b: i64, f: i64) -> (r: i64)
    requires
        fixed_in_range(a as int),
        fixed_in_range(b as int),
        fixed_in_range(f as int),
    ensures
        r as int == blend_comp_spec(a as int, b as int, f as int),
{
    let d = b - a;
    proof {
        assert(-(0x8000_0000int * 0x4000_0000int) <= d as int * f as int
            <= 0x8000_0000int * 0x4000_0000int) by (nonlinear_arith)
            requires
                -0x8000_0000int <= d as int <= 0x8000_0000int,
                -0x4000_0000int <= f as int <= 0x4000_0000int;
        let one = FIXED_ONE as int;
        let pb = 0x8000_0000int * 0x4000_0000int;
        let qb = 0x2_0000_0000_0000int;
        assert(pb == one * qb);
        lemma_div_multiples_vanish(qb, one);
        lemma_div_multiples_vanish(-qb, one);
        lemma_div_is_ordered(d as int * f as int, pb, one);
        lemma_div_is_ordered(-pb, d as int * f as int, one);
    }
    let scaled = div_floor(d * f, FIXED_ONE);
    a + scaled
}

/// Blending by a factor of zero returns the from-component.
pub proof fn lemma_blend_comp_zero(a: int, b: int)
    ensures
        blend_comp_spec(a, b, 0) == a,
{
    lemma_fixed_scale_zero(b - a);
}

/// Blending by the unit factor returns the to-component.
pub proof fn lemma_blend_comp_one(a: int, b: int)
    ensures
        blend_comp_spec(a, b, FIXED_ONE as int) == b,
{
    lemma_fixed_scale_one(b - a);
}

/// Clamp a component into the unit interval `[0, FIXED_ONE]`.
pub fn fixed_clamp_unit(x: i64) -> (r: i64)
    ensures
        r == fixed_clamp_unit_spec(x),
{
    if x < 0 {
        0
    } else if x > FIXED_ONE {
        FIXED_ONE
    } else {
        x
    }
}

/// What [`fixed_clamp_unit`] returns.
pub open spec fn fixed_clamp_unit_spec(x: i64) -> i64 {
    if x < 0 {
        0
    } else if x > FIXED_ONE {
        FIXED_ONE
    } else {
        x
    }
}

} // verus!
