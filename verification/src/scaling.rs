//! Saturating scale arithmetic on 32-bit operands.
//!
//! Scale factors are supplied by the user, so a product or a sum that does
//! not fit in 32 bits is clamped to the largest value and never wraps.

use vstd::prelude::*;

verus! {

/// `n` clamped into the range of `u32`.
pub open spec fn saturate(n: int) -> u32 {
    if n < 0 {
        0
    } else if n > u32::MAX {
        u32::MAX
    } else {
        n as u32
    }
}

/// A scale factor as the engine uses it: never below one.
pub open spec fn at_least_one(scale: u32) -> u32 {
    if scale < 1 {
        1
    } else {
        scale
    }
}

/// `existing` multiplied by the clamped `scale`, saturating.
pub open spec fn scaled(existing: u32, scale: u32) -> u32 {
    saturate(existing * at_least_one(scale))
}

/// What enlarging `existing` by `scale` adds on top of it, saturating.
pub open spec fn spillover(existing: u32, scale: u32) -> u32 {
    saturate(existing * (at_least_one(scale) - 1))
}

/// The larger of two values.
pub open spec fn larger(a: u32, b: u32) -> u32 {
    if a >= b {
        a
    } else {
        b
    }
}

/// Clamps a scale factor to at least one.
pub fn clamp_scale(scale: u32) -> (s: u32)
    ensures
        s == at_least_one(scale),
{
    if scale < 1 {
        1
    } else {
        scale
    }
}

/// The product of `a` and `b`, or the largest value when it does not fit.
pub fn saturating_product(a: u32, b: u32) -> (p: u32)
    ensures
        p == saturate(a * b),
{
    match a.checked_mul(b) {
        Some(p) => p,
        None => u32::MAX,
    }
}

/// The sum of `a` and `b`, or the largest value when it does not fit.
pub fn saturating_sum(a: u32, b: u32) -> (s: u32)
    ensures
        s == saturate(a + b),
{
    a.saturating_add(b)
}

/// A value scaled by a factor of at least one never shrinks, and a factor of
/// one leaves it as it is.
pub proof fn lemma_scaled_grows(existing: u32, scale: u32)
    ensures
        scaled(existing, scale) >= existing,
        at_least_one(scale) == 1 ==> scaled(existing, scale) == existing,
        spillover(existing, scale) <= scaled(existing, scale),
        existing * at_least_one(scale) <= u32::MAX ==> scaled(existing, scale) == existing
            * at_least_one(scale),
{
    let s = at_least_one(scale) as int;
    let e = existing as int;
    assert(e * s >= e && e * (s - 1) <= e * s && e * (s - 1) >= 0) by (nonlinear_arith)
        requires
            s >= 1,
            e >= 0,
    ;
    if s == 1 {
        assert(e * s == e) by (nonlinear_arith)
            requires
                s == 1,
        ;
    }
}

/// Saturating addition is commutative and associative: a running total does
/// not depend on the order in which its parts arrive.
pub proof fn lemma_saturating_sum_reorders(a: u32, b: u32, c: u32)
    ensures
        saturate(a + b) == saturate(b + a),
        saturate(saturate(a + b) + c) == saturate(a + saturate(b + c)),
        saturate(saturate(a + b) + c) == saturate(a + b + c),
{
}

} // verus!
