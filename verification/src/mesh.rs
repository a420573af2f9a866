//! Mesh data: vertices in fixed point, and assembly of loaded attribute
//! streams into vertex records.
//!
//! Mesh files are parsed outside the simulation core; what arrives here are
//! flat position, normal and texture-coordinate streams already converted to
//! micro-units. Assembly groups them three (or two) at a time, filling in
//! the same defaults the viewer always used for missing attributes.

use crate::fixed::SCALE;
use crate::vec3::Vec3Fx;
use vstd::prelude::*;

verus! {

/// One vertex of a body's mesh: position and normal in micro-units, texture
/// coordinates in micro-units of the unit square, and the body tag that
/// selects its surface at render time. The rest pose keeps all fields
/// fixed; animation rewrites only the position.
#[derive(Clone, Copy, PartialEq, Eq, Structural, Debug)]
pub struct Vertex {
    pub pos: Vec3Fx,
    pub normal: Vec3Fx,
    pub uv_u: i64,
    pub uv_v: i64,
    pub tag: u32,
}

/// The vertex assembled from the attribute streams at index `i`: positions
/// are taken three at a time; normal components fall back to the upward
/// default when the stream is absent, or to the flat defaults when it is
/// short; texture coordinates fall back to zero.
pub open spec fn assembled_vertex_val(
    pos: Seq<i64>,
    nor: Seq<i64>,
    uv: Seq<i64>,
    tag: u32,
    i: int,
) -> Vertex {
    let nx: i64 = if nor.len() == 0 {
        0
    } else if 3 * i < nor.len() {
        nor[3 * i]
    } else {
        0
    };
    let ny: i64 = if nor.len() == 0 {
        SCALE
    } else if 3 * i + 1 < nor.len() {
        nor[3 * i + 1]
    } else {
        0
    };
    let nz: i64 = if nor.len() == 0 {
        0
    } else if 3 * i + 2 < nor.len() {
        nor[3 * i + 2]
    } else {
        SCALE
    };
    let uu: i64 = if uv.len() == 0 {
        0
    } else if 2 * i < uv.len() {
        uv[2 * i]
    } else {
        0
    };
    let uvv: i64 = if uv.len() == 0 {
        0
    } else if 2 * i + 1 < uv.len() {
        uv[2 * i + 1]
    } else {
        0
    };
    Vertex {
        pos: Vec3Fx { x: pos[3 * i], y: pos[3 * i + 1], z: pos[3 * i + 2] },
        normal: Vec3Fx { x: nx, y: ny, z: nz },
        uv_u: uu,
        uv_v: uvv,
        tag,
    }
}

/// Group flat attribute streams into vertex records, one vertex for every
/// three positions, with the defaults above for missing normals and
/// texture coordinates.
pub fn assemble_vertices(
    positions: &Vec<i64>,
    normals: &Vec<i64>,
    texcoords: &Vec<i64>,
    tag: u32,
) -> (out: Vec<Vertex>)
    ensures
        out@.len() == positions@.len() as int / 3,
        forall|i: int|
            0 <= i < out@.len() ==> out@[i] == assembled_vertex_val(
                positions@,
                normals@,
                texcoords@,
                tag,
                i,
            ),
{
    let n: usize = positions.len() / 3;
    let mut out: Vec<Vertex> = Vec::new();
    let mut i: usize = 0;
    while i < n
        invariant
            0 <= i <= n,
            n == positions@.len() as int / 3,
            positions@.len() <= usize::MAX,
            out@.len() == i,
            forall|j: int|
                0 <= j < i ==> out@[j] == assembled_vertex_val(
                    positions@,
                    normals@,
                    texcoords@,
                    tag,
                    j,
                ),
        decreases n - i,
    {
        proof {
            vstd::arithmetic::div_mod::lemma_fundamental_div_mod(positions@.len() as int, 3);
            assert(3 * (i as int) + 2 < positions@.len()) by (nonlinear_arith)
                requires
                    i < n,
                    n == positions@.len() as int / 3,
                    positions@.len() == 3 * (positions@.len() as int / 3) + positions@.len() as int
                        % 3,
                    0 <= positions@.len() as int % 3,
            ;
        }
        let px: i64 = positions[3 * i];
        let py: i64 = positions[3 * i + 1];
        let pz: i64 = positions[3 * i + 2];
        let nx: i64 = if normals.len() == 0 {
            0
        } else if 3 * i < normals.len() {
            normals[3 * i]
        } else {
            0
        };
        let ny: i64 = if normals.len() == 0 {
            SCALE
        } else if 3 * i + 1 < normals.len() {
            normals[3 * i + 1]
        } else {
            0
        };
        let nz: i64 = if normals.len() == 0 {
            0
        } else if 3 * i + 2 < normals.len() {
            normals[3 * i + 2]
        } else {
            SCALE
        };
        let uu: i64 = if texcoords.len() == 0 {
            0
        } else if 2 * i < texcoords.len() {
            texcoords[2 * i]
        } else {
            0
        };
        let uvv: i64 = if texcoords.len() == 0 {
            0
        } else if 2 * i + 1 < texcoords.len() {
            texcoords[2 * i + 1]
        } else {
            0
        };
        let v = Vertex {
            pos: Vec3Fx { x: px, y: py, z: pz },
            normal: Vec3Fx { x: nx, y: ny, z: nz },
            uv_u: uu,
            uv_v: uvv,
            tag,
        };
        out.push(v);
        i = i + 1;
    }
    out
}

} // verus!
