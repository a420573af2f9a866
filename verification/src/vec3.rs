//! Three-component vectors over fixed-point micro-units.

use crate::fixed::fx_div;
use crate::fixed::fx_div_val;
use crate::fixed::fx_mul;
use crate::fixed::fx_mul_val;
use crate::fixed::isqrt_u128;
use crate::fixed::isqrt_val;
use crate::fixed::lemma_fx_mul_val_bounds;
use crate::fixed::lemma_isqrt_val_bounds;
use crate::fixed::lemma_trunc_div_le_factor;
use crate::fixed::SCALE;
use vstd::prelude::*;

verus! {

/// A point or direction in world space, in micro-units per axis.
#[derive(Clone, Copy, PartialEq, Eq, Structural, Debug)]
pub struct Vec3Fx {
    pub x: i64,
    pub y: i64,
    pub z: i64,
}

/// Half-width of the world cube: positions the simulation works with stay
/// within one million units of the origin on each axis.
pub const WORLD_LIMIT_FX: i64 = 1_000_000_000_000;

/// Whether every component lies within the world cube.
pub open spec fn in_world(v: Vec3Fx) -> bool {
    &&& -WORLD_LIMIT_FX <= v.x <= WORLD_LIMIT_FX
    &&& -WORLD_LIMIT_FX <= v.y <= WORLD_LIMIT_FX
    &&& -WORLD_LIMIT_FX <= v.z <= WORLD_LIMIT_FX
}

/// The squared Euclidean length, exact over the integers.
pub open spec fn norm_sq_val(v: Vec3Fx) -> int {
    v.x * v.x + v.y * v.y + v.z * v.z
}

/// The Euclidean length rounded down, in micro-units.
pub open spec fn len_val(v: Vec3Fx) -> int {
    isqrt_val(norm_sq_val(v) as nat) as int
}

/// The unit vector along `v`, each component scaled by `SCALE` and divided
/// by the rounded length.
pub open spec fn normalize_val(v: Vec3Fx) -> Vec3Fx {
    Vec3Fx {
        x: fx_div_val(v.x as int, len_val(v)) as i64,
        y: fx_div_val(v.y as int, len_val(v)) as i64,
        z: fx_div_val(v.z as int, len_val(v)) as i64,
    }
}

impl Vec3Fx {
    /// The origin.
    pub fn zero() -> (r: Vec3Fx)
        ensures
            r == (Vec3Fx { x: 0, y: 0, z: 0 }),
    {
        Vec3Fx { x: 0, y: 0, z: 0 }
    }

    /// Componentwise sum.
    pub fn add(self, o: Vec3Fx) -> (r: Vec3Fx)
        requires
            i64::MIN <= self.x + o.x <= i64::MAX,
            i64::MIN <= self.y + o.y <= i64::MAX,
            i64::MIN <= self.z + o.z <= i64::MAX,
        ensures
            r.x == self.x + o.x,
            r.y == self.y + o.y,
            r.z == self.z + o.z,
    {
        Vec3Fx { x: self.x + o.x, y: self.y + o.y, z: self.z + o.z }
    }

    /// Componentwise difference.
    pub fn sub(self, o: Vec3Fx) -> (r: Vec3Fx)
        requires
            i64::MIN <= self.x - o.x <= i64::MAX,
            i64::MIN <= self.y - o.y <= i64::MAX,
            i64::MIN <= self.z - o.z <= i64::MAX,
        ensures
            r.x == self.x - o.x,
            r.y == self.y - o.y,
            r.z == self.z - o.z,
    {
        Vec3Fx { x: self.x - o.x, y: self.y - o.y, z: self.z - o.z }
    }

    /// Componentwise negation.
    pub fn neg(self) -> (r: Vec3Fx)
        requires
            self.x > i64::MIN,
            self.y > i64::MIN,
            self.z > i64::MIN,
        ensures
            r.x == -self.x,
            r.y == -self.y,
            r.z == -self.z,
    {
        Vec3Fx { x: -self.x, y: -self.y, z: -self.z }
    }

    /// Each component multiplied by the fixed-point factor `s`.
    pub fn scale(self, s: i64) -> (r: Vec3Fx)
        requires
            i64::MIN < fx_mul_val(self.x as int, s as int) <= i64::MAX,
            i64::MIN < fx_mul_val(self.y as int, s as int) <= i64::MAX,
            i64::MIN < fx_mul_val(self.z as int, s as int) <= i64::MAX,
        ensures
            r.x == fx_mul_val(self.x as int, s as int),
            r.y == fx_mul_val(self.y as int, s as int),
            r.z == fx_mul_val(self.z as int, s as int),
    {
        Vec3Fx { x: fx_mul(self.x, s), y: fx_mul(self.y, s), z: fx_mul(self.z, s) }
    }

    /// True exactly on the origin.
    pub fn is_zero(self) -> (r: bool)
        ensures
            r <==> self == (Vec3Fx { x: 0, y: 0, z: 0 }),
    {
        self.x == 0 && self.y == 0 && self.z == 0
    }
}

/// The fixed-point dot product of two vectors.
pub open spec fn dot_val(a: Vec3Fx, b: Vec3Fx) -> int {
    fx_mul_val(a.x as int, b.x as int) + fx_mul_val(a.y as int, b.y as int) + fx_mul_val(
        a.z as int,
        b.z as int,
    )
}

/// The fixed-point cross product of two vectors.
pub open spec fn cross_val(a: Vec3Fx, b: Vec3Fx) -> Vec3Fx {
    Vec3Fx {
        x: (fx_mul_val(a.y as int, b.z as int) - fx_mul_val(a.z as int, b.y as int)) as i64,
        y: (fx_mul_val(a.z as int, b.x as int) - fx_mul_val(a.x as int, b.z as int)) as i64,
        z: (fx_mul_val(a.x as int, b.y as int) - fx_mul_val(a.y as int, b.x as int)) as i64,
    }
}

/// Dot product of vectors with caller-supplied componentwise bounds.
pub fn dot(a: Vec3Fx, b: Vec3Fx, Ghost(ma): Ghost<int>, Ghost(mb): Ghost<int>) -> (r: i64)
    requires
        -ma <= a.x <= ma,
        -ma <= a.y <= ma,
        -ma <= a.z <= ma,
        -mb <= b.x <= mb,
        -mb <= b.y <= mb,
        -mb <= b.z <= mb,
        3 * ((ma * mb) / (SCALE as int)) <= i64::MAX,
    ensures
        r == dot_val(a, b),
        -3 * ((ma * mb) / (SCALE as int)) <= r <= 3 * ((ma * mb) / (SCALE as int)),
{
    proof {
        lemma_fx_mul_val_bounds(a.x as int, b.x as int, ma, mb);
        lemma_fx_mul_val_bounds(a.y as int, b.y as int, ma, mb);
        lemma_fx_mul_val_bounds(a.z as int, b.z as int, ma, mb);
    }
    fx_mul(a.x, b.x) + fx_mul(a.y, b.y) + fx_mul(a.z, b.z)
}

/// Cross product of vectors with components bounded by one unit.
pub fn cross(a: Vec3Fx, b: Vec3Fx) -> (r: Vec3Fx)
    requires
        -SCALE <= a.x <= SCALE,
        -SCALE <= a.y <= SCALE,
        -SCALE <= a.z <= SCALE,
        -SCALE <= b.x <= SCALE,
        -SCALE <= b.y <= SCALE,
        -SCALE <= b.z <= SCALE,
    ensures
        r == cross_val(a, b),
        -2 * SCALE <= r.x <= 2 * SCALE,
        -2 * SCALE <= r.y <= 2 * SCALE,
        -2 * SCALE <= r.z <= 2 * SCALE,
{
    proof {
        lemma_fx_mul_val_bounds(a.y as int, b.z as int, SCALE as int, SCALE as int);
        lemma_fx_mul_val_bounds(a.z as int, b.y as int, SCALE as int, SCALE as int);
        lemma_fx_mul_val_bounds(a.z as int, b.x as int, SCALE as int, SCALE as int);
        lemma_fx_mul_val_bounds(a.x as int, b.z as int, SCALE as int, SCALE as int);
        lemma_fx_mul_val_bounds(a.x as int, b.y as int, SCALE as int, SCALE as int);
        lemma_fx_mul_val_bounds(a.y as int, b.x as int, SCALE as int, SCALE as int);
    }
    Vec3Fx {
        x: fx_mul(a.y, b.z) - fx_mul(a.z, b.y),
        y: fx_mul(a.z, b.x) - fx_mul(a.x, b.z),
        z: fx_mul(a.x, b.y) - fx_mul(a.y, b.x),
    }
}

/// The squared length of one component never exceeds the squared length of
/// the whole vector, so each component is bounded by the rounded length.
proof fn lemma_component_le_len(c: int, v: Vec3Fx)
    requires
        c == v.x || c == v.y || c == v.z,
    ensures
        -len_val(v) <= c <= len_val(v),
{
    assert(norm_sq_val(v) >= 0) by (nonlinear_arith);
    let n = norm_sq_val(v) as nat;
    lemma_isqrt_val_bounds(n);
    let l = isqrt_val(n) as int;
    assert(c * c <= n) by (nonlinear_arith)
        requires
            n == v.x * v.x + v.y * v.y + v.z * v.z,
            c == v.x || c == v.y || c == v.z,
    ;
    assert(-l <= c <= l) by (nonlinear_arith)
        requires
            c * c <= n,
            0 <= l,
            n < (l + 1) * (l + 1),
    ;
}

/// The rounded Euclidean length in micro-units.
pub fn length(v: Vec3Fx) -> (r: u64)
    ensures
        r == len_val(v),
{
    proof {
        assert(0 <= v.x * v.x < u128::MAX / 3 && 0 <= v.y * v.y < u128::MAX / 3 && 0 <= v.z * v.z
            < u128::MAX / 3 && v.x * v.x < i128::MAX && v.y * v.y < i128::MAX && v.z * v.z
            < i128::MAX) by (nonlinear_arith)
            requires
                i64::MIN <= v.x <= i64::MAX,
                i64::MIN <= v.y <= i64::MAX,
                i64::MIN <= v.z <= i64::MAX,
        ;
    }
    let xx: u128 = ((v.x as i128) * (v.x as i128)) as u128;
    let yy: u128 = ((v.y as i128) * (v.y as i128)) as u128;
    let zz: u128 = ((v.z as i128) * (v.z as i128)) as u128;
    isqrt_u128(xx + yy + zz)
}

/// Scale a nonzero vector to unit length. Components come out in
/// `[-SCALE, SCALE]`.
pub fn normalize(v: Vec3Fx) -> (r: Vec3Fx)
    requires
        norm_sq_val(v) >= 1,
        -1_000_000_000_000_000_000 <= v.x <= 1_000_000_000_000_000_000,
        -1_000_000_000_000_000_000 <= v.y <= 1_000_000_000_000_000_000,
        -1_000_000_000_000_000_000 <= v.z <= 1_000_000_000_000_000_000,
    ensures
        r == normalize_val(v),
        -SCALE <= r.x <= SCALE,
        -SCALE <= r.y <= SCALE,
        -SCALE <= r.z <= SCALE,
{
    let l: u64 = length(v);
    proof {
        let n: nat = norm_sq_val(v) as nat;
        lemma_isqrt_val_bounds(n);
        assert(len_val(v) >= 1) by (nonlinear_arith)
            requires
                n >= 1,
                len_val(v) == isqrt_val(n),
                n < (isqrt_val(n) + 1) * (isqrt_val(n) + 1),
        ;
        let bound: int = 2_000_000_000_000_000_000;
        assert(n < (bound + 1) * (bound + 1)) by (nonlinear_arith)
            requires
                bound == 2_000_000_000_000_000_000,
                n == v.x * v.x + v.y * v.y + v.z * v.z,
                -1_000_000_000_000_000_000 <= v.x <= 1_000_000_000_000_000_000,
                -1_000_000_000_000_000_000 <= v.y <= 1_000_000_000_000_000_000,
                -1_000_000_000_000_000_000 <= v.z <= 1_000_000_000_000_000_000,
        ;
        if isqrt_val(n) > bound {
            assert((bound + 1) * (bound + 1) <= isqrt_val(n) * isqrt_val(n)) by (nonlinear_arith)
                requires
                    bound + 1 <= isqrt_val(n),
                    0 <= bound,
            ;
        }
        assert(len_val(v) <= bound);
        lemma_component_le_len(v.x as int, v);
        lemma_component_le_len(v.y as int, v);
        lemma_component_le_len(v.z as int, v);
        let l_int: int = len_val(v);
        assert(-(SCALE as int) * l_int <= v.x * SCALE <= (SCALE as int) * l_int
            && -(SCALE as int) * l_int <= v.y * SCALE <= (SCALE as int) * l_int && -(SCALE as int)
            * l_int <= v.z * SCALE <= (SCALE as int) * l_int) by (nonlinear_arith)
            requires
                -l_int <= v.x <= l_int,
                -l_int <= v.y <= l_int,
                -l_int <= v.z <= l_int,
                l_int >= 1,
        ;
        lemma_trunc_div_le_factor(v.x * SCALE, l_int, SCALE as int);
        lemma_trunc_div_le_factor(v.y * SCALE, l_int, SCALE as int);
        lemma_trunc_div_le_factor(v.z * SCALE, l_int, SCALE as int);
    }
    let li: i64 = l as i64;
    Vec3Fx { x: fx_div(v.x, li), y: fx_div(v.y, li), z: fx_div(v.z, li) }
}

} // verus!
