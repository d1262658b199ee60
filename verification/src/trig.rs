//! Sine and cosine over fixed-point angles.
//!
//! Angles are fixed-point radians. Each function reduces its argument into one
//! turn, folds it into the first quadrant, and evaluates a truncated Taylor
//! series with fixed-point arithmetic. The spec functions state the computed
//! value exactly; `sin_fx(0)` is exactly zero and `cos_fx(0)` exactly one,
//! which keeps a rotation by zero an exact identity.
use crate::fx::{fx_mul, mul_fx, FX_ONE};
use vstd::arithmetic::div_mod::{
    lemma_div_is_ordered, lemma_div_pos_is_pos, lemma_fundamental_div_mod,
    lemma_fundamental_div_mod_converse,
};
use vstd::arithmetic::mul::lemma_mul_inequality;
use vstd::prelude::*;

verus! {

/// Pi, in fixed-point radians.
pub const FX_PI: i64 = 3141593;

/// Half pi, in fixed-point radians.
pub const FX_HALF_PI: i64 = 1570796;

/// One full turn, in fixed-point radians.
pub const FX_TWO_PI: i64 = 6283185;

/// A fixed-point product of non-negative bounded factors is non-negative and bounded.
proof fn lemma_fx_mul_nonneg_le(a: int, b: int, ba: int, bb: int)
    requires
        0 <= a <= ba,
        0 <= b <= bb,
        ba * bb <= i64::MAX,
    ensures
        0 <= fx_mul(a, b) <= (ba * bb) / (FX_ONE as int),
{
    lemma_mul_inequality(a, ba, b);
    assert(ba * b <= ba * bb) by (nonlinear_arith)
        requires
            0 <= b <= bb,
            0 <= ba,
    ;
    assert(0 <= a * b) by (nonlinear_arith)
        requires
            0 <= a,
            0 <= b,
    ;
    lemma_div_pos_is_pos(a * b, FX_ONE as int);
    lemma_div_is_ordered(a * b, ba * bb, FX_ONE as int);
    lemma_div_is_ordered(0, ba * bb, FX_ONE as int);
}

/// The sine series at `x`: valid as an approximation on the first quadrant.
pub open spec fn taylor_sin(x: int) -> int {
    let x2 = fx_mul(x, x);
    let x3 = fx_mul(x2, x);
    let x5 = fx_mul(x3, x2);
    let x7 = fx_mul(x5, x2);
    let x9 = fx_mul(x7, x2);
    x - x3 / 6 + x5 / 120 - x7 / 5040 + x9 / 362880
}

/// The cosine series at `x`: valid as an approximation on the first quadrant.
pub open spec fn taylor_cos(x: int) -> int {
    let x2 = fx_mul(x, x);
    let x4 = fx_mul(x2, x2);
    let x6 = fx_mul(x4, x2);
    let x8 = fx_mul(x6, x2);
    FX_ONE - x2 / 2 + x4 / 24 - x6 / 720 + x8 / 40320
}

/// Sine of an angle already reduced into one turn, by quadrant folding.
pub open spec fn sin_reduced(r: int) -> int {
    if r <= FX_HALF_PI {
        taylor_sin(r)
    } else if r <= FX_PI {
        taylor_sin(FX_PI - r)
    } else if r <= FX_PI + FX_HALF_PI {
        -taylor_sin(r - FX_PI)
    } else {
        -taylor_sin(FX_TWO_PI - r)
    }
}

/// Cosine of an angle already reduced into one turn, by quadrant folding.
pub open spec fn cos_reduced(r: int) -> int {
    if r <= FX_HALF_PI {
        taylor_cos(r)
    } else if r <= FX_PI {
        -taylor_cos(FX_PI - r)
    } else if r <= FX_PI + FX_HALF_PI {
        -taylor_cos(r - FX_PI)
    } else {
        taylor_cos(FX_TWO_PI - r)
    }
}

/// The sine this crate computes for any fixed-point angle.
pub open spec fn spec_sin(a: int) -> int {
    sin_reduced(a % (FX_TWO_PI as int))
}

/// The cosine this crate computes for any fixed-point angle.
pub open spec fn spec_cos(a: int) -> int {
    cos_reduced(a % (FX_TWO_PI as int))
}

/// Reduce an angle into `[0, FX_TWO_PI)` by a floor modulus.
fn mod_two_pi(a: i64) -> (r: i64)
    ensures
        r as int == a as int % (FX_TWO_PI as int),
        0 <= r < FX_TWO_PI,
{
    let t: i128 = FX_TWO_PI as i128;
    if a >= 0 {
        let r = (a as i128) % t;
        proof {
            lemma_fundamental_div_mod(a as int, t as int);
        }
        r as i64
    } else {
        let m: i128 = -(a as i128);
        let q: i128 = m / t;
        let rem: i128 = m % t;
        proof {
            lemma_fundamental_div_mod(m as int, t as int);
            if rem == 0 {
                assert(a as int == (-q) * t as int + 0) by {
                    assert(m as int == q as int * t as int);
                    assert((-q) as int * t as int == -(q as int * t as int)) by (nonlinear_arith);
                }
                lemma_fundamental_div_mod_converse(a as int, t as int, -q as int, 0);
            } else {
                assert(a as int == (-q - 1) * t as int + (t - rem) as int) by {
                    assert(m as int == q as int * t as int + rem as int);
                    assert((-q - 1) as int * t as int == -(q as int * t as int) - t as int)
                        by (nonlinear_arith);
                }
                lemma_fundamental_div_mod_converse(
                    a as int,
                    t as int,
                    (-q - 1) as int,
                    (t - rem) as int,
                );
            }
        }
        if rem == 0 {
            0
        } else {
            (t - rem) as i64
        }
    }
}

/// Evaluate the sine series on a first-quadrant argument.
fn taylor_sin_exec(x: i64) -> (r: i64)
    requires
        0 <= x <= 1570797,
    ensures
        r as int == taylor_sin(x as int),
{
    let x2 = mul_fx(x, x);
    proof {
        lemma_fx_mul_nonneg_le(x as int, x as int, 1570797, 1570797);
    }
    let x3 = mul_fx(x2, x);
    proof {
        lemma_fx_mul_nonneg_le(x2 as int, x as int, 2467403, 1570797);
    }
    let x5 = mul_fx(x3, x2);
    proof {
        lemma_fx_mul_nonneg_le(x3 as int, x2 as int, 3875789, 2467403);
    }
    let x7 = mul_fx(x5, x2);
    proof {
        lemma_fx_mul_nonneg_le(x5 as int, x2 as int, 9563133, 2467403);
    }
    let x9 = mul_fx(x7, x2);
    proof {
        lemma_fx_mul_nonneg_le(x7 as int, x2 as int, 23596103, 2467403);
    }
    x - x3 / 6 + x5 / 120 - x7 / 5040 + x9 / 362880
}

/// Evaluate the cosine series on a first-quadrant argument.
fn taylor_cos_exec(x: i64) -> (r: i64)
    requires
        0 <= x <= 1570797,
    ensures
        r as int == taylor_cos(x as int),
{
    let x2 = mul_fx(x, x);
    proof {
        lemma_fx_mul_nonneg_le(x as int, x as int, 1570797, 1570797);
    }
    let x4 = mul_fx(x2, x2);
    proof {
        lemma_fx_mul_nonneg_le(x2 as int, x2 as int, 2467403, 2467403);
    }
    let x6 = mul_fx(x4, x2);
    proof {
        lemma_fx_mul_nonneg_le(x4 as int, x2 as int, 6088077, 2467403);
    }
    let x8 = mul_fx(x6, x2);
    proof {
        lemma_fx_mul_nonneg_le(x6 as int, x2 as int, 15021739, 2467403);
    }
    FX_ONE - x2 / 2 + x4 / 24 - x6 / 720 + x8 / 40320
}

/// The sine of a fixed-point angle.
pub fn sin_fx(a: i64) -> (r: i64)
    ensures
        r as int == spec_sin(a as int),
{
    let red = mod_two_pi(a);
    if red <= FX_HALF_PI {
        taylor_sin_exec(red)
    } else if red <= FX_PI {
        taylor_sin_exec(FX_PI - red)
    } else if red <= FX_PI + FX_HALF_PI {
        let t = taylor_sin_exec(red - FX_PI);
        proof {
            lemma_taylor_sin_bounds(red as int - FX_PI as int);
        }
        -t
    } else {
        let t = taylor_sin_exec(FX_TWO_PI - red);
        proof {
            lemma_taylor_sin_bounds(FX_TWO_PI as int - red as int);
        }
        -t
    }
}

/// The cosine of a fixed-point angle.
pub fn cos_fx(a: i64) -> (r: i64)
    ensures
        r as int == spec_cos(a as int),
{
    let red = mod_two_pi(a);
    if red <= FX_HALF_PI {
        taylor_cos_exec(red)
    } else if red <= FX_PI {
        let t = taylor_cos_exec(FX_PI - red);
        proof {
            lemma_taylor_cos_bounds(FX_PI as int - red as int);
        }
        -t
    } else if red <= FX_PI + FX_HALF_PI {
        let t = taylor_cos_exec(red - FX_PI);
        proof {
            lemma_taylor_cos_bounds(red as int - FX_PI as int);
        }
        -t
    } else {
        taylor_cos_exec(FX_TWO_PI - red)
    }
}

/// The sine series stays within two units on the first quadrant.
proof fn lemma_taylor_sin_bounds(x: int)
    requires
        0 <= x <= 1570797,
    ensures
        -2000000 <= taylor_sin(x) <= 2000000,
{
    lemma_fx_mul_nonneg_le(x, x, 1570797, 1570797);
    lemma_fx_mul_nonneg_le(fx_mul(x, x), x, 2467403, 1570797);
    lemma_fx_mul_nonneg_le(fx_mul(fx_mul(x, x), x), fx_mul(x, x), 3875789, 2467403);
    lemma_fx_mul_nonneg_le(
        fx_mul(fx_mul(fx_mul(x, x), x), fx_mul(x, x)),
        fx_mul(x, x),
        9563133,
        2467403,
    );
    lemma_fx_mul_nonneg_le(
        fx_mul(fx_mul(fx_mul(fx_mul(x, x), x), fx_mul(x, x)), fx_mul(x, x)),
        fx_mul(x, x),
        23596103,
        2467403,
    );
}

/// The cosine series stays within two units on the first quadrant.
proof fn lemma_taylor_cos_bounds(x: int)
    requires
        0 <= x <= 1570797,
    ensures
        -2000000 <= taylor_cos(x) <= 2000000,
{
    lemma_fx_mul_nonneg_le(x, x, 1570797, 1570797);
    lemma_fx_mul_nonneg_le(fx_mul(x, x), fx_mul(x, x), 2467403, 2467403);
    lemma_fx_mul_nonneg_le(fx_mul(fx_mul(x, x), fx_mul(x, x)), fx_mul(x, x), 6088077, 2467403);
    lemma_fx_mul_nonneg_le(
        fx_mul(fx_mul(fx_mul(x, x), fx_mul(x, x)), fx_mul(x, x)),
        fx_mul(x, x),
        15021739,
        2467403,
    );
}

/// The sine of angle zero is exactly zero.
pub proof fn lemma_sin_zero()
    ensures
        spec_sin(0) == 0,
{
    assert(0int % (FX_TWO_PI as int) == 0) by (nonlinear_arith);
    crate::fx::lemma_fx_mul_zero(0);
    assert(taylor_sin(0) == 0);
}

/// The cosine of angle zero is exactly one.
pub proof fn lemma_cos_zero()
    ensures
        spec_cos(0) == FX_ONE,
{
    assert(0int % (FX_TWO_PI as int) == 0) by (nonlinear_arith);
    crate::fx::lemma_fx_mul_zero(0);
    assert(taylor_cos(0) == FX_ONE);
}

} // verus!
