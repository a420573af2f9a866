//! Fixed-point 4x4 matrices for the view and projection transforms.
//!
//! A matrix is stored as four rows acting on column vectors, every entry in
//! micro-units (`SCALE` stands for `1.0`). The two constructions the viewer
//! needs are a right-handed look-at view and its composition with a
//! right-handed perspective projection (vertical field of view of 45 degrees,
//! near plane `0.1`, far plane `5000`). Degenerate looks (zero direction, or
//! looking straight along the vertical axis) fall back to the identity
//! matrix rather than dividing by zero.

use crate::fixed::fx_div;
use crate::fixed::fx_div_val;
use crate::fixed::fx_mul;
use crate::fixed::fx_mul_val;
use crate::fixed::lemma_fx_mul_val_bounds;
use crate::fixed::lemma_trunc_div_le_factor;
use crate::fixed::SCALE;
use crate::vec3::cross;
use crate::vec3::cross_val;
use crate::vec3::dot;
use crate::vec3::dot_val;
use crate::vec3::normalize;
use crate::vec3::normalize_val;
use crate::vec3::norm_sq_val;
use crate::vec3::Vec3Fx;
use vstd::prelude::*;

verus! {

/// One matrix row, in micro-units.
#[derive(Clone, Copy, PartialEq, Eq, Structural, Debug)]
pub struct Vec4Fx {
    pub x: i64,
    pub y: i64,
    pub z: i64,
    pub w: i64,
}

/// A row-major 4x4 matrix in micro-units, acting on column vectors.
#[derive(Clone, Copy, PartialEq, Eq, Structural, Debug)]
pub struct Mat4Fx {
    pub r0: Vec4Fx,
    pub r1: Vec4Fx,
    pub r2: Vec4Fx,
    pub r3: Vec4Fx,
}

/// Reciprocal of the tangent of half the vertical field of view
/// (`1 / tan(22.5 degrees)`), in micro-units.
pub const COT_HALF_FOV_FX: i64 = 2_414_214;

/// `far / (near - far)` for near `0.1` and far `5000`, in micro-units.
pub const PROJ_R_FX: i64 = -1_000_020;

/// `near * far / (near - far)` for the same planes, in micro-units.
pub const PROJ_RN_FX: i64 = -100_002;

/// The identity transform.
pub open spec fn identity_val() -> Mat4Fx {
    Mat4Fx {
        r0: Vec4Fx { x: SCALE, y: 0, z: 0, w: 0 },
        r1: Vec4Fx { x: 0, y: SCALE, z: 0, w: 0 },
        r2: Vec4Fx { x: 0, y: 0, z: SCALE, w: 0 },
        r3: Vec4Fx { x: 0, y: 0, z: 0, w: SCALE },
    }
}

/// The right-handed look-at view matrix with up along +Y: forward, side and
/// up axes as rows, with translations against the eye in the last column.
pub open spec fn look_at_val(eye: Vec3Fx, center: Vec3Fx) -> Mat4Fx {
    let d = Vec3Fx {
        x: (center.x - eye.x) as i64,
        y: (center.y - eye.y) as i64,
        z: (center.z - eye.z) as i64,
    };
    if d == (Vec3Fx { x: 0, y: 0, z: 0 }) {
        identity_val()
    } else {
        let f = normalize_val(d);
        let s_raw = Vec3Fx { x: (-f.z) as i64, y: 0, z: f.x };
        if s_raw == (Vec3Fx { x: 0, y: 0, z: 0 }) {
            identity_val()
        } else {
            let s = normalize_val(s_raw);
            let u = cross_val(s, f);
            Mat4Fx {
                r0: Vec4Fx { x: s.x, y: s.y, z: s.z, w: (-dot_val(s, eye)) as i64 },
                r1: Vec4Fx { x: u.x, y: u.y, z: u.z, w: (-dot_val(u, eye)) as i64 },
                r2: Vec4Fx {
                    x: (-f.x) as i64,
                    y: (-f.y) as i64,
                    z: (-f.z) as i64,
                    w: dot_val(f, eye) as i64,
                },
                r3: Vec4Fx { x: 0, y: 0, z: 0, w: SCALE },
            }
        }
    }
}

/// The perspective projection applied to a view matrix. The projection is
/// sparse, so the product reduces to scaled copies of the view rows.
pub open spec fn perspective_apply_val(view: Mat4Fx, aspect: int) -> Mat4Fx {
    let wf: int = fx_div_val(COT_HALF_FOV_FX as int, aspect);
    Mat4Fx {
        r0: Vec4Fx {
            x: fx_mul_val(wf, view.r0.x as int) as i64,
            y: fx_mul_val(wf, view.r0.y as int) as i64,
            z: fx_mul_val(wf, view.r0.z as int) as i64,
            w: fx_mul_val(wf, view.r0.w as int) as i64,
        },
        r1: Vec4Fx {
            x: fx_mul_val(COT_HALF_FOV_FX as int, view.r1.x as int) as i64,
            y: fx_mul_val(COT_HALF_FOV_FX as int, view.r1.y as int) as i64,
            z: fx_mul_val(COT_HALF_FOV_FX as int, view.r1.z as int) as i64,
            w: fx_mul_val(COT_HALF_FOV_FX as int, view.r1.w as int) as i64,
        },
        r2: Vec4Fx {
            x: (fx_mul_val(PROJ_R_FX as int, view.r2.x as int) + fx_mul_val(
                PROJ_RN_FX as int,
                view.r3.x as int,
            )) as i64,
            y: (fx_mul_val(PROJ_R_FX as int, view.r2.y as int) + fx_mul_val(
                PROJ_RN_FX as int,
                view.r3.y as int,
            )) as i64,
            z: (fx_mul_val(PROJ_R_FX as int, view.r2.z as int) + fx_mul_val(
                PROJ_RN_FX as int,
                view.r3.z as int,
            )) as i64,
            w: (fx_mul_val(PROJ_R_FX as int, view.r2.w as int) + fx_mul_val(
                PROJ_RN_FX as int,
                view.r3.w as int,
            )) as i64,
        },
        r3: Vec4Fx {
            x: (-view.r2.x) as i64,
            y: (-view.r2.y) as i64,
            z: (-view.r2.z) as i64,
            w: (-view.r2.w) as i64,
        },
    }
}

/// Every entry within `b` in magnitude.
pub open spec fn mat_bounded(m: Mat4Fx, b: int) -> bool {
    &&& -b <= m.r0.x <= b && -b <= m.r0.y <= b && -b <= m.r0.z <= b && -b <= m.r0.w <= b
    &&& -b <= m.r1.x <= b && -b <= m.r1.y <= b && -b <= m.r1.z <= b && -b <= m.r1.w <= b
    &&& -b <= m.r2.x <= b && -b <= m.r2.y <= b && -b <= m.r2.z <= b && -b <= m.r2.w <= b
    &&& -b <= m.r3.x <= b && -b <= m.r3.y <= b && -b <= m.r3.z <= b && -b <= m.r3.w <= b
}

/// The identity transform, as a value.
pub fn mat_identity() -> (m: Mat4Fx)
    ensures
        m == identity_val(),
        mat_bounded(m, SCALE as int),
{
    Mat4Fx {
        r0: Vec4Fx { x: SCALE, y: 0, z: 0, w: 0 },
        r1: Vec4Fx { x: 0, y: SCALE, z: 0, w: 0 },
        r2: Vec4Fx { x: 0, y: 0, z: SCALE, w: 0 },
        r3: Vec4Fx { x: 0, y: 0, z: 0, w: SCALE },
    }
}

/// Build the right-handed look-at view matrix toward `center` with up +Y.
pub fn look_at_rh(eye: Vec3Fx, center: Vec3Fx) -> (m: Mat4Fx)
    requires
        -2_000_000_000_000 <= eye.x <= 2_000_000_000_000,
        -2_000_000_000_000 <= eye.y <= 2_000_000_000_000,
        -2_000_000_000_000 <= eye.z <= 2_000_000_000_000,
        -2_000_000_000_000 <= center.x <= 2_000_000_000_000,
        -2_000_000_000_000 <= center.y <= 2_000_000_000_000,
        -2_000_000_000_000 <= center.z <= 2_000_000_000_000,
    ensures
        m == look_at_val(eye, center),
        mat_bounded(m, 13_000_000_000_000),
{
    let d = center.sub(eye);
    if d.is_zero() {
        let m = mat_identity();
        return m;
    }
    proof {
        assert(norm_sq_val(d) >= 1) by (nonlinear_arith)
            requires
                !(d.x == 0 && d.y == 0 && d.z == 0),
                norm_sq_val(d) == d.x * d.x + d.y * d.y + d.z * d.z,
        ;
    }
    let f = normalize(d);
    let s_raw = Vec3Fx { x: -f.z, y: 0, z: f.x };
    if s_raw.x == 0 && s_raw.z == 0 {
        let m = mat_identity();
        proof {
            assert(s_raw == (Vec3Fx { x: 0, y: 0, z: 0 }));
        }
        return m;
    }
    proof {
        assert(norm_sq_val(s_raw) >= 1) by (nonlinear_arith)
            requires
                !(s_raw.x == 0 && s_raw.z == 0),
                s_raw.y == 0,
                norm_sq_val(s_raw) == s_raw.x * s_raw.x + s_raw.y * s_raw.y + s_raw.z * s_raw.z,
        ;
    }
    let s = normalize(s_raw);
    let u = cross(s, f);
    proof {
        assert(3 * (((SCALE as int) * 2_000_000_000_000) / (SCALE as int)) == 6_000_000_000_000
            && 3 * ((2 * (SCALE as int) * 2_000_000_000_000) / (SCALE as int))
            == 12_000_000_000_000) by (nonlinear_arith);
    }
    let t0 = dot(s, eye, Ghost(SCALE as int), Ghost(2_000_000_000_000));
    let t1 = dot(u, eye, Ghost(2 * SCALE as int), Ghost(2_000_000_000_000));
    let t2 = dot(f, eye, Ghost(SCALE as int), Ghost(2_000_000_000_000));
    Mat4Fx {
        r0: Vec4Fx { x: s.x, y: s.y, z: s.z, w: -t0 },
        r1: Vec4Fx { x: u.x, y: u.y, z: u.z, w: -t1 },
        r2: Vec4Fx { x: -f.x, y: -f.y, z: -f.z, w: t2 },
        r3: Vec4Fx { x: 0, y: 0, z: 0, w: SCALE },
    }
}

/// Multiply one view row by a fixed-point factor.
fn scale_row(c: i64, row: Vec4Fx, Ghost(mc): Ghost<int>, Ghost(mr): Ghost<int>) -> (r: Vec4Fx)
    requires
        0 <= mc,
        -mc <= c <= mc,
        -mr <= row.x <= mr,
        -mr <= row.y <= mr,
        -mr <= row.z <= mr,
        -mr <= row.w <= mr,
        (mc * mr) / (SCALE as int) <= i64::MAX,
    ensures
        r.x == fx_mul_val(c as int, row.x as int),
        r.y == fx_mul_val(c as int, row.y as int),
        r.z == fx_mul_val(c as int, row.z as int),
        r.w == fx_mul_val(c as int, row.w as int),
        -((mc * mr) / (SCALE as int)) <= r.x <= (mc * mr) / (SCALE as int),
        -((mc * mr) / (SCALE as int)) <= r.y <= (mc * mr) / (SCALE as int),
        -((mc * mr) / (SCALE as int)) <= r.z <= (mc * mr) / (SCALE as int),
        -((mc * mr) / (SCALE as int)) <= r.w <= (mc * mr) / (SCALE as int),
{
    proof {
        lemma_fx_mul_val_bounds(c as int, row.x as int, mc, mr);
        lemma_fx_mul_val_bounds(c as int, row.y as int, mc, mr);
        lemma_fx_mul_val_bounds(c as int, row.z as int, mc, mr);
        lemma_fx_mul_val_bounds(c as int, row.w as int, mc, mr);
    }
    Vec4Fx { x: fx_mul(c, row.x), y: fx_mul(c, row.y), z: fx_mul(c, row.z), w: fx_mul(c, row.w) }
}

/// Compose the fixed perspective projection with a view matrix.
pub fn perspective_apply(view: Mat4Fx, aspect: i64) -> (m: Mat4Fx)
    requires
        1_000 <= aspect <= 1_000_000_000,
        mat_bounded(view, 13_000_000_000_000),
    ensures
        m == perspective_apply_val(view, aspect as int),
{
    proof {
        assert((COT_HALF_FOV_FX as int) * (SCALE as int) <= 3_000_000_000 * aspect
            && 0 <= 3_000_000_000 * aspect) by (nonlinear_arith)
            requires
                1_000 <= aspect,
        ;
        lemma_trunc_div_le_factor(
            (COT_HALF_FOV_FX as int) * (SCALE as int),
            aspect as int,
            3_000_000_000,
        );
        assert((3_000_000_000int * 13_000_000_000_000) / 1_000_000 == 39_000_000_000_000_000
            && (1_100_000int * 13_000_000_000_000) / 1_000_000 == 14_300_000_000_000
            && 2_414_214int * 1_000_000 == 2_414_214_000_000) by (nonlinear_arith);
    }
    let wf: i64 = fx_div(COT_HALF_FOV_FX, aspect);
    let r0 = scale_row(wf, view.r0, Ghost(3_000_000_000), Ghost(13_000_000_000_000));
    let r1 = scale_row(
        COT_HALF_FOV_FX,
        view.r1,
        Ghost(3_000_000_000),
        Ghost(13_000_000_000_000),
    );
    let ra = scale_row(PROJ_R_FX, view.r2, Ghost(1_100_000), Ghost(13_000_000_000_000));
    let rb = scale_row(PROJ_RN_FX, view.r3, Ghost(1_100_000), Ghost(13_000_000_000_000));
    let r2 = Vec4Fx { x: ra.x + rb.x, y: ra.y + rb.y, z: ra.z + rb.z, w: ra.w + rb.w };
    let r3 = Vec4Fx { x: -view.r2.x, y: -view.r2.y, z: -view.r2.z, w: -view.r2.w };
    Mat4Fx { r0, r1, r2, r3 }
}

} // verus!
