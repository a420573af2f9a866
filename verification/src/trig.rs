//! Sine and cosine on fixed-point micro-radians.
//!
//! An angle is reduced modulo a full turn, folded into the first quarter turn
//! by the usual symmetries, and evaluated there by an alternating power
//! series in fixed-point arithmetic. The result is exact at zero (`sin` gives
//! `0`, `cos` gives `SCALE`), clamped into `[-SCALE, SCALE]`, and every step
//! is pinned to the mirror specification below, so equal angles always give
//! equal results.

use crate::fixed::clamp_fx;
use crate::fixed::clamp_val;
use crate::fixed::fx_mul;
use crate::fixed::fx_mul_val;
use crate::fixed::div_pos;
use crate::fixed::lemma_trunc_div_bounds;
use crate::fixed::SCALE;
use vstd::arithmetic::div_mod::lemma_div_pos_is_pos;
use vstd::arithmetic::div_mod::lemma_fundamental_div_mod_converse_mod;
use vstd::arithmetic::div_mod::lemma_fundamental_div_mod;
use vstd::arithmetic::div_mod::lemma_mod_add_multiples_vanish;
use vstd::arithmetic::div_mod::lemma_mod_twice;
use vstd::prelude::*;

verus! {

/// One full turn (two pi), in micro-radians.
pub const TAU_FX: i64 = 6_283_185;

/// Half a turn (pi), in micro-radians.
pub const PI_FX: i64 = 3_141_593;

/// A quarter turn (pi over two), in micro-radians.
pub const QUARTER_FX: i64 = 1_570_796;

/// Three quarters of a turn, in micro-radians.
pub const THREE_QUARTER_FX: i64 = 4_712_389;

/// An angle folded into `[0, TAU_FX)` by Euclidean remainder.
pub open spec fn angle_mod_val(x: int) -> int {
    x % (TAU_FX as int)
}

/// The quarter-turn power series for sine, clamped into one unit.
pub open spec fn sin_poly_val(x: int) -> int {
    let x2: int = fx_mul_val(x, x);
    let x3: int = fx_mul_val(x2, x);
    let x5: int = fx_mul_val(x3, x2);
    let x7: int = fx_mul_val(x5, x2);
    let x9: int = fx_mul_val(x7, x2);
    clamp_val(x - x3 / 6 + x5 / 120 - x7 / 5040 + x9 / 362880, -SCALE as int, SCALE as int)
}

/// The quarter-turn power series for cosine, clamped into one unit.
pub open spec fn cos_poly_val(x: int) -> int {
    let x2: int = fx_mul_val(x, x);
    let x4: int = fx_mul_val(x2, x2);
    let x6: int = fx_mul_val(x4, x2);
    let x8: int = fx_mul_val(x6, x2);
    clamp_val(SCALE - x2 / 2 + x4 / 24 - x6 / 720 + x8 / 40320, -SCALE as int, SCALE as int)
}

/// Sine of a micro-radian angle: reduce to one turn, fold by quadrant.
pub open spec fn sin_fx_val(x: int) -> int {
    let r: int = angle_mod_val(x);
    if r <= QUARTER_FX {
        sin_poly_val(r)
    } else if r <= PI_FX {
        sin_poly_val(PI_FX - r)
    } else if r <= THREE_QUARTER_FX {
        -sin_poly_val(r - PI_FX)
    } else {
        -sin_poly_val(TAU_FX - r)
    }
}

/// Cosine of a micro-radian angle: reduce to one turn, fold by quadrant.
pub open spec fn cos_fx_val(x: int) -> int {
    let r: int = angle_mod_val(x);
    if r <= QUARTER_FX {
        cos_poly_val(r)
    } else if r <= PI_FX {
        -cos_poly_val(PI_FX - r)
    } else if r <= THREE_QUARTER_FX {
        -cos_poly_val(r - PI_FX)
    } else {
        cos_poly_val(TAU_FX - r)
    }
}

/// Folding an angle into one turn changes neither trigonometric value, and
/// a full turn is invisible to both: the controller may keep its angles
/// reduced without changing what is computed from them.
pub proof fn lemma_trig_periodic(x: int)
    ensures
        sin_fx_val(angle_mod_val(x)) == sin_fx_val(x),
        cos_fx_val(angle_mod_val(x)) == cos_fx_val(x),
        sin_fx_val(x + TAU_FX) == sin_fx_val(x),
        cos_fx_val(x + TAU_FX) == cos_fx_val(x),
{
    lemma_mod_twice(x, TAU_FX as int);
    lemma_mod_add_multiples_vanish(x, TAU_FX as int);
    assert((TAU_FX + x) % (TAU_FX as int) == (x + TAU_FX) % (TAU_FX as int));
}

/// Both trigonometric values stay within one unit, whatever the angle:
/// every branch ends in the clamp.
pub proof fn lemma_trig_bounded(x: int)
    ensures
        -SCALE <= sin_fx_val(x) <= SCALE,
        -SCALE <= cos_fx_val(x) <= SCALE,
{
}

/// A nonnegative fixed-point product of bounded factors stays within the
/// scaled product of the bounds.
proof fn lemma_fx_mul_val_range(a: int, b: int, ma: int, mb: int)
    requires
        0 <= a <= ma,
        0 <= b <= mb,
    ensures
        0 <= fx_mul_val(a, b) <= (ma * mb) / (SCALE as int),
{
    assert(0 <= a * b <= ma * mb) by (nonlinear_arith)
        requires
            0 <= a <= ma,
            0 <= b <= mb,
    ;
    if a * b > 0 {
        lemma_div_pos_is_pos(a * b, SCALE as int);
    }
    lemma_trunc_div_bounds(a * b, SCALE as int, ma * mb);
}

/// The sine series on the first quarter turn.
fn sin_poly(x: i64) -> (r: i64)
    requires
        0 <= x <= QUARTER_FX,
    ensures
        r == sin_poly_val(x as int),
        -SCALE <= r <= SCALE,
{
    proof {
        lemma_fx_mul_val_range(x as int, x as int, 1_600_000, 1_600_000);
    }
    let x2: i64 = fx_mul(x, x);
    proof {
        lemma_fx_mul_val_range(x2 as int, x as int, 2_560_000, 1_600_000);
    }
    let x3: i64 = fx_mul(x2, x);
    proof {
        lemma_fx_mul_val_range(x3 as int, x2 as int, 4_096_000, 2_560_000);
    }
    let x5: i64 = fx_mul(x3, x2);
    proof {
        lemma_fx_mul_val_range(x5 as int, x2 as int, 10_485_760, 2_560_000);
    }
    let x7: i64 = fx_mul(x5, x2);
    proof {
        lemma_fx_mul_val_range(x7 as int, x2 as int, 26_843_546, 2_560_000);
    }
    let x9: i64 = fx_mul(x7, x2);
    let s: i64 = x - div_pos(x3, 6) + div_pos(x5, 120) - div_pos(x7, 5040) + div_pos(
        x9,
        362880,
    );
    clamp_fx(s, -SCALE, SCALE)
}

/// The cosine series on the first quarter turn.
fn cos_poly(x: i64) -> (r: i64)
    requires
        0 <= x <= QUARTER_FX,
    ensures
        r == cos_poly_val(x as int),
        -SCALE <= r <= SCALE,
{
    proof {
        lemma_fx_mul_val_range(x as int, x as int, 1_600_000, 1_600_000);
    }
    let x2: i64 = fx_mul(x, x);
    proof {
        lemma_fx_mul_val_range(x2 as int, x2 as int, 2_560_000, 2_560_000);
    }
    let x4: i64 = fx_mul(x2, x2);
    proof {
        lemma_fx_mul_val_range(x4 as int, x2 as int, 6_553_600, 2_560_000);
    }
    let x6: i64 = fx_mul(x4, x2);
    proof {
        lemma_fx_mul_val_range(x6 as int, x2 as int, 16_777_216, 2_560_000);
    }
    let x8: i64 = fx_mul(x6, x2);
    let s: i64 = SCALE - div_pos(x2, 2) + div_pos(x4, 24) - div_pos(x6, 720) + div_pos(
        x8,
        40320,
    );
    clamp_fx(s, -SCALE, SCALE)
}

/// Fold an angle into `[0, TAU_FX)`, matching the Euclidean remainder.
pub fn reduce_angle(x: i64) -> (r: i64)
    requires
        x > i64::MIN,
    ensures
        r == angle_mod_val(x as int),
        0 <= r < TAU_FX,
{
    if x >= 0 {
        let m: u64 = (x as u64) % (TAU_FX as u64);
        proof {
            lemma_fundamental_div_mod(x as int, TAU_FX as int);
        }
        m as i64
    } else {
        let m: i64 = (((-x) as u64) % (TAU_FX as u64)) as i64;
        proof {
            lemma_fundamental_div_mod((-x) as int, TAU_FX as int);
        }
        if m == 0 {
            proof {
                let q: int = (-x) as int / (TAU_FX as int);
                assert(x as int == (-q) * (TAU_FX as int) + 0) by (nonlinear_arith)
                    requires
                        (-x) as int == q * (TAU_FX as int),
                ;
                lemma_fundamental_div_mod_converse_mod(x as int, TAU_FX as int, -q, 0);
            }
            0
        } else {
            proof {
                let q: int = (-x) as int / (TAU_FX as int);
                assert(x as int == (-q - 1) * (TAU_FX as int) + (TAU_FX - m)) by (nonlinear_arith)
                    requires
                        (-x) as int == q * (TAU_FX as int) + m,
                ;
                lemma_fundamental_div_mod_converse_mod(
                    x as int,
                    TAU_FX as int,
                    -q - 1,
                    TAU_FX - m,
                );
            }
            TAU_FX - m
        }
    }
}

/// Sine in micro-units of a micro-radian angle.
pub fn sin_fx(x: i64) -> (r: i64)
    requires
        x > i64::MIN,
    ensures
        r == sin_fx_val(x as int),
        -SCALE <= r <= SCALE,
{
    let red: i64 = reduce_angle(x);
    if red <= QUARTER_FX {
        sin_poly(red)
    } else if red <= PI_FX {
        sin_poly(PI_FX - red)
    } else if red <= THREE_QUARTER_FX {
        -sin_poly(red - PI_FX)
    } else {
        -sin_poly(TAU_FX - red)
    }
}

/// Cosine in micro-units of a micro-radian angle.
pub fn cos_fx(x: i64) -> (r: i64)
    requires
        x > i64::MIN,
    ensures
        r == cos_fx_val(x as int),
        -SCALE <= r <= SCALE,
{
    let red: i64 = reduce_angle(x);
    if red <= QUARTER_FX {
        cos_poly(red)
    } else if red <= PI_FX {
        -cos_poly(PI_FX - red)
    } else if red <= THREE_QUARTER_FX {
        -cos_poly(red - PI_FX)
    } else {
        cos_poly(TAU_FX - red)
    }
}

} // verus!
