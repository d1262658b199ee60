//! Fixed-point scalars.
//!
//! Every coordinate, angle and scale factor in this crate is an `i64` holding
//! a real number times `FX_ONE` (six decimal places). Arithmetic saturates at
//! the `i64` range instead of wrapping; the spec functions here describe each
//! operation exactly, clamping included, so contracts elsewhere can state
//! results to the last unit.
use vstd::arithmetic::div_mod::{
    lemma_div_multiples_vanish, lemma_fundamental_div_mod, lemma_fundamental_div_mod_converse,
};
use vstd::prelude::*;

verus! {

/// One whole unit: the scale of every fixed-point value.
pub const FX_ONE: i64 = 1000000;

/// One half, as a fixed-point factor.
pub const FX_HALF: i64 = 500000;

/// Clamp a mathematical integer into the `i64` range.
pub open spec fn fx_clip(x: int) -> int {
    if x > i64::MAX {
        i64::MAX as int
    } else if x < i64::MIN {
        i64::MIN as int
    } else {
        x
    }
}

/// The fixed-point product: floor of the exact product, rescaled and clamped.
pub open spec fn fx_mul(a: int, b: int) -> int {
    fx_clip((a * b) / (FX_ONE as int))
}

/// The fixed-point sum, clamped.
pub open spec fn fx_add(a: int, b: int) -> int {
    fx_clip(a + b)
}

/// The fixed-point difference, clamped.
pub open spec fn fx_sub(a: int, b: int) -> int {
    fx_clip(a - b)
}

/// The fixed-point negation, clamped.
pub open spec fn fx_neg(a: int) -> int {
    fx_clip(-a)
}

/// The fixed-point absolute value, clamped.
pub open spec fn fx_abs(a: int) -> int {
    fx_clip(
        if a < 0 {
            -a
        } else {
            a
        },
    )
}

/// The fixed-point reciprocal: one over `a`, rounded toward zero; zero maps to zero.
pub open spec fn fx_recip(a: int) -> int {
    if a == 0 {
        0
    } else if a > 0 {
        fx_clip((FX_ONE as int * FX_ONE as int) / a)
    } else {
        fx_clip(-((FX_ONE as int * FX_ONE as int) / -a))
    }
}

/// Clamp an `i128` into the `i64` range.
fn clip_i128(x: i128) -> (r: i64)
    ensures
        r as int == fx_clip(x as int),
{
    if x > i64::MAX as i128 {
        i64::MAX
    } else if x < i64::MIN as i128 {
        i64::MIN
    } else {
        x as i64
    }
}

/// Floor division of a wide intermediate by the scale, then clamping.
fn floor_div_scale(p: i128) -> (r: i64)
    requires
        p > i128::MIN,
    ensures
        r as int == fx_clip(p as int / (FX_ONE as int)),
{
    let s: i128 = FX_ONE as i128;
    if p >= 0 {
        clip_i128(p / s)
    } else {
        let m: i128 = -p;
        let q: i128 = m / s;
        let rem: i128 = m % s;
        proof {
            lemma_fundamental_div_mod(m as int, s as int);
            if rem == 0 {
                assert(p as int == (-q) * s as int + 0) by {
                    assert(m as int == q as int * s as int);
                    assert((-q) as int * s as int == -(q as int * s as int))
                        by (nonlinear_arith);
                }
                lemma_fundamental_div_mod_converse(p as int, s as int, -q as int, 0);
            } else {
                assert(p as int == (-q - 1) * s as int + (s - rem) as int) by {
                    assert(m as int == q as int * s as int + rem as int);
                    assert((-q - 1) as int * s as int == -(q as int * s as int) - s as int)
                        by (nonlinear_arith);
                }
                lemma_fundamental_div_mod_converse(
                    p as int,
                    s as int,
                    (-q - 1) as int,
                    (s - rem) as int,
                );
            }
        }
        if rem == 0 {
            clip_i128(-q)
        } else {
            clip_i128(-q - 1)
        }
    }
}

/// The fixed-point product of two scalars.
pub fn mul_fx(a: i64, b: i64) -> (r: i64)
    ensures
        r as int == fx_mul(a as int, b as int),
{
    proof {
        assert(a as int * b as int <= i128::MAX && a as int * b as int >= i128::MIN)
            by (nonlinear_arith)
            requires
                i64::MIN <= a <= i64::MAX,
                i64::MIN <= b <= i64::MAX,
        ;
    }
    let p: i128 = (a as i128) * (b as i128);
    proof {
        assert(a as int * b as int > i128::MIN) by (nonlinear_arith)
            requires
                i64::MIN <= a <= i64::MAX,
                i64::MIN <= b <= i64::MAX,
        ;
    }
    floor_div_scale(p)
}

/// The fixed-point sum of two scalars.
pub fn add_fx(a: i64, b: i64) -> (r: i64)
    ensures
        r as int == fx_add(a as int, b as int),
{
    clip_i128(a as i128 + b as i128)
}

/// The fixed-point difference of two scalars.
pub fn sub_fx(a: i64, b: i64) -> (r: i64)
    ensures
        r as int == fx_sub(a as int, b as int),
{
    clip_i128(a as i128 - b as i128)
}

/// The fixed-point negation of a scalar.
pub fn neg_fx(a: i64) -> (r: i64)
    ensures
        r as int == fx_neg(a as int),
{
    clip_i128(-(a as i128))
}

/// The fixed-point absolute value of a scalar.
pub fn abs_fx(a: i64) -> (r: i64)
    ensures
        r as int == fx_abs(a as int),
{
    if a < 0 {
        clip_i128(-(a as i128))
    } else {
        a
    }
}

/// The fixed-point reciprocal of a scalar.
pub fn recip_fx(a: i64) -> (r: i64)
    ensures
        r as int == fx_recip(a as int),
{
    if a == 0 {
        0
    } else if a > 0 {
        proof {
            assert(FX_ONE as int * FX_ONE as int == 1000000000000int) by (nonlinear_arith);
        }
        let n: i128 = (FX_ONE as i128) * (FX_ONE as i128);
        clip_i128(n / (a as i128))
    } else {
        proof {
            assert(FX_ONE as int * FX_ONE as int == 1000000000000int) by (nonlinear_arith);
        }
        let n: i128 = (FX_ONE as i128) * (FX_ONE as i128);
        let m: i128 = -(a as i128);
        clip_i128(-(n / m))
    }
}

/// The fixed-point product, kept in the machine range.
pub open spec fn fxm(a: i64, b: i64) -> i64 {
    fx_mul(a as int, b as int) as i64
}

/// The fixed-point sum, kept in the machine range.
pub open spec fn fxa(a: i64, b: i64) -> i64 {
    fx_add(a as int, b as int) as i64
}

/// The fixed-point difference, kept in the machine range.
pub open spec fn fxs(a: i64, b: i64) -> i64 {
    fx_sub(a as int, b as int) as i64
}

/// The fixed-point negation, kept in the machine range.
pub open spec fn fxn(a: i64) -> i64 {
    fx_neg(a as int) as i64
}

/// Multiplying by one is exact, whatever the operand.
pub proof fn lemma_fx_mul_one(a: i64)
    ensures
        fx_mul(a as int, FX_ONE as int) == a as int,
        fx_mul(FX_ONE as int, a as int) == a as int,
{
    lemma_div_multiples_vanish(a as int, FX_ONE as int);
    assert(a as int * FX_ONE as int == FX_ONE as int * a as int) by (nonlinear_arith);
}

/// Multiplying by zero gives zero, whatever the operand.
pub proof fn lemma_fx_mul_zero(a: i64)
    ensures
        fx_mul(a as int, 0) == 0,
        fx_mul(0, a as int) == 0,
{
    assert(a as int * 0 == 0) by (nonlinear_arith);
    assert(0 * a as int == 0) by (nonlinear_arith);
}

/// The facts that make one and zero behave as units under every fixed-point
/// product and sum: stated over all machine scalars at once, so a single call
/// settles many entries of a matrix identity.
pub proof fn lemma_fx_unit()
    ensures
        forall|a: i64| #[trigger] fxm(a, FX_ONE) == a,
        forall|a: i64| #[trigger] fxm(FX_ONE, a) == a,
        forall|a: i64| #[trigger] fxm(a, 0) == 0,
        forall|a: i64| #[trigger] fxm(0, a) == 0,
        forall|a: i64| #[trigger] fxa(a, 0) == a,
        forall|a: i64| #[trigger] fxa(0, a) == a,
{
    assert forall|a: i64| #[trigger] fxm(a, FX_ONE) == a && #[trigger] fxm(FX_ONE, a) == a by {
        lemma_fx_mul_one(a);
    }
    assert forall|a: i64| #[trigger] fxm(a, 0) == 0 && #[trigger] fxm(0, a) == 0 by {
        lemma_fx_mul_zero(a);
    }
}

} // verus!
