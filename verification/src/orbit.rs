//! The orbital motion engine: deterministic per-body offsets over time, and
//! the circular orbit paths drawn as guides.
//!
//! Every animated body follows one of three motions, fixed at scene
//! construction: a circular orbit in the horizontal plane, a vertical bob,
//! or a circular orbit around another (moving) body. Nested orbits compose
//! strictly parent-before-child: the child's own circular term is added to
//! the parent's current offset. For a fixed time the offset is a pure
//! function of the configuration — equal inputs always give equal offsets.

use crate::fixed::fx_mul;
use crate::fixed::fx_mul_val;
use crate::fixed::lemma_fx_mul_val_bounds;
use crate::fixed::SCALE;
use crate::trig::cos_fx;
use crate::trig::cos_fx_val;
use crate::trig::sin_fx;
use crate::trig::sin_fx_val;
use crate::trig::TAU_FX;
use crate::vec3::Vec3Fx;
use vstd::prelude::*;

verus! {

/// Largest orbit radius (or bob amplitude) a body may be configured with,
/// in micro-units.
pub const ORBIT_RADIUS_LIMIT_FX: i64 = 1_000_000_000;

/// Largest angular speed, in micro-radians per second.
pub const ANGULAR_SPEED_LIMIT_FX: i64 = 10_000_000;

/// Latest simulation time the engine accepts, in micro-seconds.
pub const MAX_TIME_FX: i64 = 100_000_000_000;

/// Most bodies a scene may hold.
pub const MAX_BODIES: usize = 999;

/// How a body moves, fixed at scene construction.
#[derive(Clone, Copy, PartialEq, Eq, Structural, Debug)]
pub enum MotionKind {
    /// The body rests where its mesh was authored.
    Still,
    /// A circular orbit of the origin in the horizontal plane.
    Orbit,
    /// A vertical bob, the radius serving as amplitude.
    Bob,
    /// A circular orbit of another body's current position.
    NestedOrbit,
}

/// One body's motion configuration.
#[derive(Clone, Copy, PartialEq, Eq, Structural, Debug)]
pub struct OrbitalParams {
    pub kind: MotionKind,
    pub orbit_radius: i64,
    pub angular_speed: i64,
    /// The body whose offset this one orbits around; meaningful only for
    /// nested orbits, and always an earlier body.
    pub parent: Option<usize>,
}

/// A configuration the engine accepts at position `i` of the scene: bounded
/// radius and speed, and a nested orbit only around an earlier body.
pub open spec fn params_wf(p: OrbitalParams, i: int) -> bool {
    &&& 0 <= p.orbit_radius <= ORBIT_RADIUS_LIMIT_FX
    &&& 0 <= p.angular_speed <= ANGULAR_SPEED_LIMIT_FX
    &&& (p.kind == MotionKind::NestedOrbit ==> match p.parent {
        Some(j) => 0 <= j < i,
        None => false,
    })
}

/// The circular-orbit offset at `time`: the angle grows linearly at the
/// angular speed, and the offset sweeps a horizontal circle of the given
/// radius.
pub open spec fn circ_offset_val(time: int, radius: int, speed: int) -> Vec3Fx {
    let ang: int = fx_mul_val(time, speed);
    Vec3Fx {
        x: fx_mul_val(cos_fx_val(ang), radius) as i64,
        y: 0,
        z: fx_mul_val(sin_fx_val(ang), radius) as i64,
    }
}

/// The vertical bob offset at `time`.
pub open spec fn bob_offset_val(time: int, amplitude: int, speed: int) -> Vec3Fx {
    let ang: int = fx_mul_val(time, speed);
    Vec3Fx { x: 0, y: fx_mul_val(sin_fx_val(ang), amplitude) as i64, z: 0 }
}

/// The world offset of body `i` at `time`: its own motion, composed on top
/// of its parent's current offset when the orbit is nested.
pub open spec fn body_offset_val(params: Seq<OrbitalParams>, i: int, time: int) -> Vec3Fx
    decreases i,
{
    let p = params[i];
    match p.kind {
        MotionKind::Still => Vec3Fx { x: 0, y: 0, z: 0 },
        MotionKind::Orbit => circ_offset_val(time, p.orbit_radius as int, p.angular_speed as int),
        MotionKind::Bob => bob_offset_val(time, p.orbit_radius as int, p.angular_speed as int),
        MotionKind::NestedOrbit => match p.parent {
            Some(j) => if 0 <= j < i {
                let par = body_offset_val(params, j as int, time);
                let own = circ_offset_val(time, p.orbit_radius as int, p.angular_speed as int);
                Vec3Fx {
                    x: (par.x + own.x) as i64,
                    y: (par.y + own.y) as i64,
                    z: (par.z + own.z) as i64,
                }
            } else {
                Vec3Fx { x: 0, y: 0, z: 0 }
            },
            None => Vec3Fx { x: 0, y: 0, z: 0 },
        },
    }
}

/// A nested orbit's world offset is exactly its parent's current offset
/// plus its own circular term — composition is relative to the moving
/// parent, not the origin.
pub proof fn lemma_nested_orbit_composes(params: Seq<OrbitalParams>, i: int, time: int)
    requires
        0 <= i < params.len(),
        params[i].kind == MotionKind::NestedOrbit,
        params_wf(params[i], i),
    ensures
        body_offset_val(params, i, time) == (
        {
            let par = body_offset_val(params, params[i].parent->Some_0 as int, time);
            let own = circ_offset_val(
                time,
                params[i].orbit_radius as int,
                params[i].angular_speed as int,
            );
            Vec3Fx {
                x: (par.x + own.x) as i64,
                y: (par.y + own.y) as i64,
                z: (par.z + own.z) as i64,
            }
        }),
{
}

/// Offsets are a function of the configuration and the time alone: two
/// computations from equal inputs agree exactly.
pub proof fn lemma_orbit_deterministic(
    a: Vec3Fx,
    b: Vec3Fx,
    time: int,
    radius: int,
    speed: int,
)
    requires
        a == circ_offset_val(time, radius, speed),
        b == circ_offset_val(time, radius, speed),
    ensures
        a == b,
{
}

/// Every offset component stays within one orbit-radius limit per ancestor.
pub proof fn lemma_body_offset_bounded(params: Seq<OrbitalParams>, i: int, time: int)
    requires
        0 <= i < params.len(),
        forall|k: int| 0 <= k < params.len() ==> params_wf(params[k], k),
    ensures
        -(i + 1) * ORBIT_RADIUS_LIMIT_FX <= body_offset_val(params, i, time).x <= (i + 1)
            * ORBIT_RADIUS_LIMIT_FX,
        -(i + 1) * ORBIT_RADIUS_LIMIT_FX <= body_offset_val(params, i, time).y <= (i + 1)
            * ORBIT_RADIUS_LIMIT_FX,
        -(i + 1) * ORBIT_RADIUS_LIMIT_FX <= body_offset_val(params, i, time).z <= (i + 1)
            * ORBIT_RADIUS_LIMIT_FX,
    decreases i,
{
    let p = params[i];
    let l: int = ORBIT_RADIUS_LIMIT_FX as int;
    let ang: int = fx_mul_val(time, p.angular_speed as int);
    lemma_fx_mul_val_bounds(cos_fx_val(ang), p.orbit_radius as int, SCALE as int, l);
    lemma_fx_mul_val_bounds(sin_fx_val(ang), p.orbit_radius as int, SCALE as int, l);
    assert(((SCALE as int) * l) / (SCALE as int) == l) by (nonlinear_arith);
    assert(-(cos_fx_val(ang)) <= SCALE && cos_fx_val(ang) <= SCALE && -(sin_fx_val(ang)) <= SCALE
        && sin_fx_val(ang) <= SCALE) by {
        crate::trig::lemma_trig_bounded(ang);
    }
    match p.kind {
        MotionKind::NestedOrbit => {
            match p.parent {
                Some(j) => {
                    if 0 <= j < i {
                        lemma_body_offset_bounded(params, j as int, time);
                        assert((j + 1) * l <= i * l) by (nonlinear_arith)
                            requires
                                j + 1 <= i,
                                l >= 0,
                        ;
                        assert(i * l + l == (i + 1) * l) by (nonlinear_arith);
                    }
                },
                None => {},
            }
        },
        _ => {
            assert(l <= (i + 1) * l) by (nonlinear_arith)
                requires
                    0 <= i,
                    l >= 0,
            ;
        },
    }
}

/// The circular-orbit offset, computed.
pub fn circ_offset(time: i64, radius: i64, speed: i64) -> (r: Vec3Fx)
    requires
        0 <= time <= MAX_TIME_FX,
        0 <= radius <= ORBIT_RADIUS_LIMIT_FX,
        0 <= speed <= ANGULAR_SPEED_LIMIT_FX,
    ensures
        r == circ_offset_val(time as int, radius as int, speed as int),
        -ORBIT_RADIUS_LIMIT_FX <= r.x <= ORBIT_RADIUS_LIMIT_FX,
        r.y == 0,
        -ORBIT_RADIUS_LIMIT_FX <= r.z <= ORBIT_RADIUS_LIMIT_FX,
{
    proof {
        lemma_fx_mul_val_bounds(
            time as int,
            speed as int,
            MAX_TIME_FX as int,
            ANGULAR_SPEED_LIMIT_FX as int,
        );
        assert(((MAX_TIME_FX as int) * (ANGULAR_SPEED_LIMIT_FX as int)) / (SCALE as int)
            == 1_000_000_000_000) by (nonlinear_arith);
    }
    let ang: i64 = fx_mul(time, speed);
    let c: i64 = cos_fx(ang);
    let s: i64 = sin_fx(ang);
    proof {
        lemma_fx_mul_val_bounds(c as int, radius as int, SCALE as int, ORBIT_RADIUS_LIMIT_FX as int);
        lemma_fx_mul_val_bounds(s as int, radius as int, SCALE as int, ORBIT_RADIUS_LIMIT_FX as int);
        assert(((SCALE as int) * (ORBIT_RADIUS_LIMIT_FX as int)) / (SCALE as int)
            == ORBIT_RADIUS_LIMIT_FX) by (nonlinear_arith);
    }
    Vec3Fx { x: fx_mul(c, radius), y: 0, z: fx_mul(s, radius) }
}

/// The vertical bob offset, computed.
pub fn bob_offset(time: i64, amplitude: i64, speed: i64) -> (r: Vec3Fx)
    requires
        0 <= time <= MAX_TIME_FX,
        0 <= amplitude <= ORBIT_RADIUS_LIMIT_FX,
        0 <= speed <= ANGULAR_SPEED_LIMIT_FX,
    ensures
        r == bob_offset_val(time as int, amplitude as int, speed as int),
        r.x == 0,
        -ORBIT_RADIUS_LIMIT_FX <= r.y <= ORBIT_RADIUS_LIMIT_FX,
        r.z == 0,
{
    proof {
        lemma_fx_mul_val_bounds(
            time as int,
            speed as int,
            MAX_TIME_FX as int,
            ANGULAR_SPEED_LIMIT_FX as int,
        );
        assert(((MAX_TIME_FX as int) * (ANGULAR_SPEED_LIMIT_FX as int)) / (SCALE as int)
            == 1_000_000_000_000) by (nonlinear_arith);
    }
    let ang: i64 = fx_mul(time, speed);
    let s: i64 = sin_fx(ang);
    proof {
        lemma_fx_mul_val_bounds(
            s as int,
            amplitude as int,
            SCALE as int,
            ORBIT_RADIUS_LIMIT_FX as int,
        );
        assert(((SCALE as int) * (ORBIT_RADIUS_LIMIT_FX as int)) / (SCALE as int)
            == ORBIT_RADIUS_LIMIT_FX) by (nonlinear_arith);
    }
    Vec3Fx { x: 0, y: fx_mul(s, amplitude), z: 0 }
}

/// The world offset of body `i` at `time`, evaluating ancestors first.
pub fn body_offset(params: &Vec<OrbitalParams>, i: usize, time: i64) -> (r: Vec3Fx)
    requires
        0 <= i < params@.len() <= MAX_BODIES,
        0 <= time <= MAX_TIME_FX,
        forall|k: int| 0 <= k < params@.len() ==> params_wf(params@[k], k),
    ensures
        r == body_offset_val(params@, i as int, time as int),
    decreases i,
{
    proof {
        lemma_body_offset_bounded(params@, i as int, time as int);
        assert((i + 1) * (ORBIT_RADIUS_LIMIT_FX as int) <= 1_000 * 1_000_000_000)
            by (nonlinear_arith)
            requires
                i + 1 <= 1_000,
        ;
    }
    let p: OrbitalParams = params[i];
    match p.kind {
        MotionKind::Still => Vec3Fx { x: 0, y: 0, z: 0 },
        MotionKind::Orbit => circ_offset(time, p.orbit_radius, p.angular_speed),
        MotionKind::Bob => bob_offset(time, p.orbit_radius, p.angular_speed),
        MotionKind::NestedOrbit => {
            match p.parent {
                Some(j) => {
                    if j < i {
                        proof {
                            lemma_body_offset_bounded(params@, j as int, time as int);
                            assert((j + 1) * (ORBIT_RADIUS_LIMIT_FX as int) <= 1_000
                                * 1_000_000_000) by (nonlinear_arith)
                                requires
                                    j + 1 <= 1_000,
                            ;
                        }
                        let par = body_offset(params, j, time);
                        let own = circ_offset(time, p.orbit_radius, p.angular_speed);
                        Vec3Fx { x: par.x + own.x, y: par.y + own.y, z: par.z + own.z }
                    } else {
                        Vec3Fx { x: 0, y: 0, z: 0 }
                    }
                },
                None => Vec3Fx { x: 0, y: 0, z: 0 },
            }
        },
    }
}

/// The `i`-th of `segments + 1` points sampling a horizontal circle: the
/// angle is the matching fraction of a full turn.
pub open spec fn orbit_point_val(radius: int, segments: int, i: int) -> Vec3Fx {
    let ang: int = (i * TAU_FX) / segments;
    Vec3Fx {
        x: fx_mul_val(cos_fx_val(ang), radius) as i64,
        y: 0,
        z: fx_mul_val(sin_fx_val(ang), radius) as i64,
    }
}

/// Sample a full circle of the given radius in the horizontal plane, as
/// `segments + 1` points closing the loop.
pub fn generate_orbit(radius: i64, segments: u32) -> (pts: Vec<Vec3Fx>)
    requires
        0 <= radius <= ORBIT_RADIUS_LIMIT_FX,
        1 <= segments <= 100_000,
    ensures
        pts@.len() == segments + 1,
        forall|i: int|
            0 <= i < pts@.len() ==> pts@[i] == orbit_point_val(radius as int, segments as int, i),
{
    let mut pts: Vec<Vec3Fx> = Vec::new();
    let mut i: u32 = 0;
    while i <= segments
        invariant
            0 <= i <= segments + 1,
            1 <= segments <= 100_000,
            0 <= radius <= ORBIT_RADIUS_LIMIT_FX,
            pts@.len() == i,
            forall|j: int|
                0 <= j < i ==> pts@[j] == orbit_point_val(radius as int, segments as int, j),
        decreases segments + 1 - i,
    {
        proof {
            assert(0 <= (i as int) * (TAU_FX as int) <= 700_000_000_000) by (nonlinear_arith)
                requires
                    0 <= i <= 100_000,
            ;
            vstd::arithmetic::div_mod::lemma_div_is_ordered(
                0,
                (i as int) * (TAU_FX as int),
                segments as int,
            );
            vstd::arithmetic::div_mod::lemma_div_is_ordered(
                (i as int) * (TAU_FX as int),
                700_000_000_000,
                segments as int,
            );
            vstd::arithmetic::div_mod::lemma_div_is_ordered_by_denominator(
                700_000_000_000,
                1,
                segments as int,
            );
        }
        let ang: i64 = (((i as u64) * (TAU_FX as u64)) / (segments as u64)) as i64;
        let c: i64 = cos_fx(ang);
        let s: i64 = sin_fx(ang);
        proof {
            lemma_fx_mul_val_bounds(
                c as int,
                radius as int,
                SCALE as int,
                ORBIT_RADIUS_LIMIT_FX as int,
            );
            lemma_fx_mul_val_bounds(
                s as int,
                radius as int,
                SCALE as int,
                ORBIT_RADIUS_LIMIT_FX as int,
            );
            assert(((SCALE as int) * (ORBIT_RADIUS_LIMIT_FX as int)) / (SCALE as int)
                == ORBIT_RADIUS_LIMIT_FX) by (nonlinear_arith);
        }
        let p = Vec3Fx { x: fx_mul(c, radius), y: 0, z: fx_mul(s, radius) };
        pts.push(p);
        i = i + 1;
    }
    pts
}

} // verus!
