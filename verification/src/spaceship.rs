//! The player ship's procedural mesh: an arrow-shaped hull — nose cone,
//! twelve-sided cylindrical body, tail cone and three fins — described
//! vertex by vertex and triangle by triangle.
//!
//! The mesh has 34 vertices: the nose tip, thirteen ring stations each
//! with a front and a back vertex, the tail tip, and a base and a tip for
//! each of the three fins. Its 51 triangles (153 indices) close the nose,
//! wrap the body, close the tail and raise the fins; every index is proved
//! to stay within the vertex count, so the mesh is always valid to draw.

use crate::fixed::div_pos;
use crate::fixed::fx_mul;
use crate::fixed::fx_mul_val;
use crate::fixed::lemma_fx_mul_val_bounds;
use crate::fixed::SCALE;
use crate::mesh::Vertex;
use crate::trig::cos_fx;
use crate::trig::cos_fx_val;
use crate::trig::sin_fx;
use crate::trig::sin_fx_val;
use crate::trig::TAU_FX;
use crate::vec3::Vec3Fx;
use vstd::prelude::*;

verus! {

/// Ring stations around the body.
pub const SHIP_SEGMENTS: u32 = 12;

/// Half-length of the hull, in micro-units (`3.0`).
pub const SHIP_BODY_LENGTH_FX: i64 = 3_000_000;

/// Radius of the hull, in micro-units (`0.5`).
pub const SHIP_BODY_RADIUS_FX: i64 = 500_000;

/// Radius at which the fins leave the hull (`0.75`).
pub const SHIP_WING_RADIUS_FX: i64 = 750_000;

/// Number of vertices of the ship mesh.
pub const SHIP_VERTEX_COUNT: usize = 34;

/// Number of indices of the ship mesh.
pub const SHIP_INDEX_COUNT: usize = 153;

/// The body tag the ship's vertices carry.
pub const SHIP_TAG: u32 = 2;

/// The angle of ring station `k` of the twelve.
pub open spec fn ship_ring_angle_val(k: int) -> int {
    (k * TAU_FX) / 12
}

/// The angle of fin `k` of the three.
pub open spec fn ship_wing_angle_val(k: int) -> int {
    (k * TAU_FX) / 3
}

/// Vertex `i` of the ship mesh: the nose tip first, then front and back
/// vertices alternating around the thirteen ring stations, the tail tip,
/// and finally base and tip of each fin.
pub open spec fn ship_vertex_val(i: int) -> Vertex {
    if i == 0 {
        Vertex {
            pos: Vec3Fx { x: 0, y: 0, z: SHIP_BODY_LENGTH_FX as i64 },
            normal: Vec3Fx { x: 0, y: 0, z: SCALE as i64 },
            uv_u: 500_000,
            uv_v: SCALE as i64,
            tag: SHIP_TAG,
        }
    } else if i < 27 {
        let k: int = (i - 1) / 2;
        let ang: int = ship_ring_angle_val(k);
        let c: int = cos_fx_val(ang);
        let s: int = sin_fx_val(ang);
        let x: i64 = fx_mul_val(c, SHIP_BODY_RADIUS_FX as int) as i64;
        let y: i64 = fx_mul_val(s, SHIP_BODY_RADIUS_FX as int) as i64;
        let uvu: i64 = ((k * SCALE) / 12) as i64;
        if (i - 1) % 2 == 0 {
            Vertex {
                pos: Vec3Fx { x, y, z: (SHIP_BODY_LENGTH_FX - 500_000) as i64 },
                normal: Vec3Fx { x: c as i64, y: s as i64, z: 0 },
                uv_u: uvu,
                uv_v: 0,
                tag: SHIP_TAG,
            }
        } else {
            Vertex {
                pos: Vec3Fx { x, y, z: (-SHIP_BODY_LENGTH_FX) as i64 },
                normal: Vec3Fx { x: c as i64, y: s as i64, z: 0 },
                uv_u: uvu,
                uv_v: SCALE as i64,
                tag: SHIP_TAG,
            }
        }
    } else if i == 27 {
        Vertex {
            pos: Vec3Fx { x: 0, y: 0, z: (-SHIP_BODY_LENGTH_FX - 1_000_000) as i64 },
            normal: Vec3Fx { x: 0, y: 0, z: (-SCALE) as i64 },
            uv_u: 500_000,
            uv_v: 0,
            tag: SHIP_TAG,
        }
    } else {
        let k: int = (i - 28) / 2;
        let wa: int = ship_wing_angle_val(k);
        let wx: i64 = fx_mul_val(cos_fx_val(wa), SHIP_WING_RADIUS_FX as int) as i64;
        let wy: i64 = fx_mul_val(sin_fx_val(wa), SHIP_WING_RADIUS_FX as int) as i64;
        if (i - 28) % 2 == 0 {
            Vertex {
                pos: Vec3Fx { x: wx, y: wy, z: (-1_500_000) as i64 },
                normal: Vec3Fx { x: wx, y: wy, z: 0 },
                uv_u: 0,
                uv_v: 0,
                tag: SHIP_TAG,
            }
        } else {
            Vertex {
                pos: Vec3Fx { x: (2 * wx) as i64, y: (2 * wy) as i64, z: (-2_100_000) as i64 },
                normal: Vec3Fx { x: wx, y: wy, z: 200_000 },
                uv_u: SCALE as i64,
                uv_v: SCALE as i64,
                tag: SHIP_TAG,
            }
        }
    }
}

/// The front vertex of ring station `k`.
pub open spec fn ship_front_index_val(k: int) -> int {
    1 + 2 * k
}

/// The back vertex of ring station `k`.
pub open spec fn ship_back_index_val(k: int) -> int {
    2 + 2 * k
}

/// Index `j` of the ship mesh: the nose fan, the body quads, the tail fan,
/// then the fins.
pub open spec fn ship_index_val(j: int) -> int {
    if j < 36 {
        let t: int = j / 3;
        let m: int = j % 3;
        if m == 0 {
            0
        } else if m == 1 {
            ship_front_index_val(t)
        } else {
            ship_front_index_val((t + 1) % 13)
        }
    } else if j < 108 {
        let t: int = (j - 36) / 6;
        let m: int = (j - 36) % 6;
        if m == 0 {
            ship_front_index_val(t)
        } else if m == 1 {
            ship_back_index_val(t)
        } else if m == 2 {
            ship_front_index_val((t + 1) % 13)
        } else if m == 3 {
            ship_front_index_val((t + 1) % 13)
        } else if m == 4 {
            ship_back_index_val(t)
        } else {
            ship_back_index_val((t + 1) % 13)
        }
    } else if j < 144 {
        let t: int = (j - 108) / 3;
        let m: int = (j - 108) % 3;
        if m == 0 {
            27
        } else if m == 1 {
            ship_back_index_val((t + 1) % 13)
        } else {
            ship_back_index_val(t)
        }
    } else {
        let t: int = (j - 144) / 3;
        let m: int = (j - 144) % 3;
        if m == 0 {
            28 + 2 * t
        } else if m == 1 {
            28 + 2 * t + 1
        } else {
            28 + 2 * ((t + 1) % 3)
        }
    }
}

/// Vertex `i` of the ship, computed.
fn ship_vertex(i: usize) -> (v: Vertex)
    requires
        i < SHIP_VERTEX_COUNT,
    ensures
        v == ship_vertex_val(i as int),
{
    if i == 0 {
        Vertex {
            pos: Vec3Fx { x: 0, y: 0, z: SHIP_BODY_LENGTH_FX },
            normal: Vec3Fx { x: 0, y: 0, z: SCALE },
            uv_u: 500_000,
            uv_v: SCALE,
            tag: SHIP_TAG,
        }
    } else if i < 27 {
        let k: usize = (i - 1) / 2;
        let ang: i64 = ((k as u64 * TAU_FX as u64) / 12) as i64;
        proof {
            assert(0 <= (k as int) * (TAU_FX as int) <= 100_000_000) by (nonlinear_arith)
                requires
                    0 <= k <= 12,
            ;
            vstd::arithmetic::div_mod::lemma_div_is_ordered(
                0,
                (k as int) * (TAU_FX as int),
                12,
            );
            vstd::arithmetic::div_mod::lemma_div_is_ordered(
                (k as int) * (TAU_FX as int),
                100_000_000,
                12,
            );
            assert(0 <= (k as int) * (SCALE as int) <= 12_000_000) by (nonlinear_arith)
                requires
                    0 <= k <= 12,
            ;
            vstd::arithmetic::div_mod::lemma_div_is_ordered(0, (k as int) * (SCALE as int), 12);
            vstd::arithmetic::div_mod::lemma_div_is_ordered(
                (k as int) * (SCALE as int),
                12_000_000,
                12,
            );
        }
        let c: i64 = cos_fx(ang);
        let s: i64 = sin_fx(ang);
        proof {
            lemma_fx_mul_val_bounds(c as int, SHIP_BODY_RADIUS_FX as int, SCALE as int, SCALE as int);
            assert(((SCALE as int) * (SCALE as int)) / (SCALE as int) == SCALE)
                by (nonlinear_arith);
        }
        let x: i64 = fx_mul(c, SHIP_BODY_RADIUS_FX);
        let y: i64 = fx_mul(s, SHIP_BODY_RADIUS_FX);
        let uvu: i64 = ((k as u64 * SCALE as u64) / 12) as i64;
        if (i - 1) % 2 == 0 {
            Vertex {
                pos: Vec3Fx { x, y, z: SHIP_BODY_LENGTH_FX - 500_000 },
                normal: Vec3Fx { x: c, y: s, z: 0 },
                uv_u: uvu,
                uv_v: 0,
                tag: SHIP_TAG,
            }
        } else {
            Vertex {
                pos: Vec3Fx { x, y, z: -SHIP_BODY_LENGTH_FX },
                normal: Vec3Fx { x: c, y: s, z: 0 },
                uv_u: uvu,
                uv_v: SCALE,
                tag: SHIP_TAG,
            }
        }
    } else if i == 27 {
        Vertex {
            pos: Vec3Fx { x: 0, y: 0, z: -SHIP_BODY_LENGTH_FX - 1_000_000 },
            normal: Vec3Fx { x: 0, y: 0, z: -SCALE },
            uv_u: 500_000,
            uv_v: 0,
            tag: SHIP_TAG,
        }
    } else {
        let k: usize = (i - 28) / 2;
        let wa: i64 = ((k as u64 * TAU_FX as u64) / 3) as i64;
        proof {
            assert(0 <= (k as int) * (TAU_FX as int) <= 100_000_000) by (nonlinear_arith)
                requires
                    0 <= k <= 3,
            ;
            vstd::arithmetic::div_mod::lemma_div_is_ordered(0, (k as int) * (TAU_FX as int), 3);
            vstd::arithmetic::div_mod::lemma_div_is_ordered(
                (k as int) * (TAU_FX as int),
                100_000_000,
                3,
            );
        }
        let wc: i64 = cos_fx(wa);
        let ws: i64 = sin_fx(wa);
        proof {
            lemma_fx_mul_val_bounds(wc as int, SHIP_WING_RADIUS_FX as int, SCALE as int, SCALE as int);
            assert(((SCALE as int) * (SCALE as int)) / (SCALE as int) == SCALE)
                by (nonlinear_arith);
        }
        let wx: i64 = fx_mul(wc, SHIP_WING_RADIUS_FX);
        let wy: i64 = fx_mul(ws, SHIP_WING_RADIUS_FX);
        if (i - 28) % 2 == 0 {
            Vertex {
                pos: Vec3Fx { x: wx, y: wy, z: -1_500_000 },
                normal: Vec3Fx { x: wx, y: wy, z: 0 },
                uv_u: 0,
                uv_v: 0,
                tag: SHIP_TAG,
            }
        } else {
            Vertex {
                pos: Vec3Fx { x: 2 * wx, y: 2 * wy, z: -2_100_000 },
                normal: Vec3Fx { x: wx, y: wy, z: 200_000 },
                uv_u: SCALE,
                uv_v: SCALE,
                tag: SHIP_TAG,
            }
        }
    }
}

/// Index `j` of the ship, computed; always within the vertex count.
fn ship_index(j: usize) -> (r: u32)
    requires
        j < SHIP_INDEX_COUNT,
    ensures
        r == ship_index_val(j as int),
        r < SHIP_VERTEX_COUNT,
{
    if j < 36 {
        let t: u32 = (j / 3) as u32;
        let m: usize = j % 3;
        if m == 0 {
            0
        } else if m == 1 {
            1 + 2 * t
        } else {
            1 + 2 * ((t + 1) % 13)
        }
    } else if j < 108 {
        let t: u32 = ((j - 36) / 6) as u32;
        let m: usize = (j - 36) % 6;
        if m == 0 {
            1 + 2 * t
        } else if m == 1 {
            2 + 2 * t
        } else if m == 2 {
            1 + 2 * ((t + 1) % 13)
        } else if m == 3 {
            1 + 2 * ((t + 1) % 13)
        } else if m == 4 {
            2 + 2 * t
        } else {
            2 + 2 * ((t + 1) % 13)
        }
    } else if j < 144 {
        let t: u32 = ((j - 108) / 3) as u32;
        let m: usize = (j - 108) % 3;
        if m == 0 {
            27
        } else if m == 1 {
            2 + 2 * ((t + 1) % 13)
        } else {
            2 + 2 * t
        }
    } else {
        let t: u32 = ((j - 144) / 3) as u32;
        let m: usize = (j - 144) % 3;
        if m == 0 {
            28 + 2 * t
        } else if m == 1 {
            28 + 2 * t + 1
        } else {
            28 + 2 * ((t + 1) % 3)
        }
    }
}

/// Generate the ship mesh: its 34 vertices and 153 indices, each pinned to
/// the descriptions above, every index within the vertex count.
pub fn generate_spaceship() -> (r: (Vec<Vertex>, Vec<u32>))
    ensures
        r.0@.len() == SHIP_VERTEX_COUNT,
        r.1@.len() == SHIP_INDEX_COUNT,
        forall|i: int| 0 <= i < SHIP_VERTEX_COUNT ==> r.0@[i] == ship_vertex_val(i),
        forall|j: int| 0 <= j < SHIP_INDEX_COUNT ==> r.1@[j] == ship_index_val(j),
        forall|j: int| 0 <= j < SHIP_INDEX_COUNT ==> r.1@[j] < SHIP_VERTEX_COUNT,
{
    let mut vertices: Vec<Vertex> = Vec::new();
    let mut i: usize = 0;
    while i < SHIP_VERTEX_COUNT
        invariant
            0 <= i <= SHIP_VERTEX_COUNT,
            vertices@.len() == i,
            forall|k: int| 0 <= k < i ==> vertices@[k] == ship_vertex_val(k),
        decreases SHIP_VERTEX_COUNT - i,
    {
        let v = ship_vertex(i);
        vertices.push(v);
        i = i + 1;
    }
    let mut indices: Vec<u32> = Vec::new();
    let mut j: usize = 0;
    while j < SHIP_INDEX_COUNT
        invariant
            0 <= j <= SHIP_INDEX_COUNT,
            indices@.len() == j,
            forall|k: int| 0 <= k < j ==> indices@[k] == ship_index_val(k),
            forall|k: int| 0 <= k < j ==> indices@[k] < SHIP_VERTEX_COUNT,
        decreases SHIP_INDEX_COUNT - j,
    {
        let ix = ship_index(j);
        indices.push(ix);
        j = j + 1;
    }
    (vertices, indices)
}

} // verus!
