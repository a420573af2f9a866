//! The scene: seven bodies with their rest-pose and animated meshes, the
//! motion table that drives them, and the orbit guide paths.
//!
//! The configuration mirrors the viewer's solar system: a still sun, four
//! planets and the ship on circular orbits of the origin, and a moon on a
//! nested orbit around the outermost planet. Each tick rewrites every
//! animated mesh as its rest pose displaced by the body's current orbital
//! offset; rest poses, normals and texture coordinates never change.

use crate::collision::CollisionSphere;
use crate::mesh::Vertex;
use crate::orbit::body_offset;
use crate::orbit::body_offset_val;
use crate::orbit::generate_orbit;
use crate::orbit::lemma_body_offset_bounded;
use crate::orbit::orbit_point_val;
use crate::orbit::params_wf;
use crate::orbit::MotionKind;
use crate::orbit::OrbitalParams;
use crate::orbit::MAX_TIME_FX;
use crate::orbit::ORBIT_RADIUS_LIMIT_FX;
use crate::vec3::in_world;
use crate::vec3::Vec3Fx;
use vstd::prelude::*;

verus! {

/// Largest rest-pose vertex coordinate a scene accepts, in micro-units.
pub const VERTEX_LIMIT_FX: i64 = 100_000_000_000;

/// One body: its motion configuration, the radius of its bounding sphere,
/// and its rest-pose and animated vertex buffers.
#[derive(PartialEq, Eq, Debug)]
pub struct Body {
    pub params: OrbitalParams,
    pub collision_radius: i64,
    pub rest: Vec<Vertex>,
    pub dynamic: Vec<Vertex>,
}

/// One vertex bounded for animation: every rest coordinate within the
/// vertex limit.
pub open spec fn vertex_bounded(v: Vertex) -> bool {
    &&& -VERTEX_LIMIT_FX <= v.pos.x <= VERTEX_LIMIT_FX
    &&& -VERTEX_LIMIT_FX <= v.pos.y <= VERTEX_LIMIT_FX
    &&& -VERTEX_LIMIT_FX <= v.pos.z <= VERTEX_LIMIT_FX
}

/// A body the scene accepts at position `i`: well-formed motion, a bounding
/// radius within the orbit scale, bounded rest pose, and an animated buffer
/// of the same length.
pub open spec fn body_wf(b: Body, i: int) -> bool {
    &&& params_wf(b.params, i)
    &&& 0 <= b.collision_radius <= ORBIT_RADIUS_LIMIT_FX
    &&& b.dynamic@.len() == b.rest@.len()
    &&& forall|j: int| 0 <= j < b.rest@.len() ==> vertex_bounded(#[trigger] b.rest@[j])
}

/// The scene that is drawn every frame.
#[derive(PartialEq, Eq, Debug)]
pub struct Scene {
    pub bodies: Vec<Body>,
    pub orbits: Vec<Vec<Vec3Fx>>,
}

/// The motion tables of all bodies, in scene order.
pub open spec fn scene_params(s: Scene) -> Seq<OrbitalParams> {
    s.bodies@.map_values(|b: Body| b.params)
}

/// A scene the engine accepts: few enough bodies, each well-formed.
pub open spec fn scene_wf(s: Scene) -> bool {
    &&& s.bodies@.len() <= crate::orbit::MAX_BODIES
    &&& forall|i: int| 0 <= i < s.bodies@.len() ==> body_wf(#[trigger] s.bodies@[i], i)
}

/// A rest-pose vertex displaced by a body offset: the position moves, all
/// other attributes stay.
pub open spec fn animated_vertex_val(v: Vertex, off: Vec3Fx) -> Vertex {
    Vertex {
        pos: Vec3Fx {
            x: (v.pos.x + off.x) as i64,
            y: (v.pos.y + off.y) as i64,
            z: (v.pos.z + off.z) as i64,
        },
        ..v
    }
}

/// What one tick of the engine does to the scene: bodies keep their
/// configuration, rest poses and order, the orbit paths stay, and every
/// animated vertex is its rest-pose vertex displaced by the body's offset
/// at `time`.
pub open spec fn scene_advanced(pre: Scene, post: Scene, time: int) -> bool {
    &&& post.bodies@.len() == pre.bodies@.len()
    &&& post.orbits == pre.orbits
    &&& forall|i: int|
        0 <= i < pre.bodies@.len() ==> (#[trigger] post.bodies@[i]).rest == pre.bodies@[i].rest
    &&& forall|i: int|
        0 <= i < pre.bodies@.len() ==> (#[trigger] post.bodies@[i]).params == pre.bodies@[i].params
    &&& forall|i: int|
        0 <= i < pre.bodies@.len() ==> (#[trigger] post.bodies@[i]).collision_radius
            == pre.bodies@[i].collision_radius
    &&& forall|i: int, j: int|
        0 <= i < pre.bodies@.len() && 0 <= j < pre.bodies@[i].rest@.len() ==> (#[trigger] post
            .bodies@[i].dynamic@[j]) == animated_vertex_val(
            pre.bodies@[i].rest@[j],
            body_offset_val(scene_params(pre), i, time),
        )
    &&& forall|i: int|
        0 <= i < pre.bodies@.len() ==> (#[trigger] post.bodies@[i]).dynamic@.len()
            == pre.bodies@[i].rest@.len()
}

/// The bounding spheres of a scene at `time`, one per body, centered on
/// each body's current orbital offset.
pub open spec fn scene_spheres_val(s: Scene, time: int) -> Seq<CollisionSphere> {
    Seq::new(
        s.bodies@.len(),
        |i: int|
            CollisionSphere {
                center: body_offset_val(scene_params(s), i, time),
                radius: s.bodies@[i].collision_radius,
            },
    )
}

/// The motion table of the viewer's solar system: the sun still at the
/// origin, four planets and the ship on circular orbits, and the moon
/// orbiting the outermost planet.
pub open spec fn default_params_val() -> Seq<OrbitalParams> {
    seq![
        OrbitalParams { kind: MotionKind::Still, orbit_radius: 0, angular_speed: 0, parent: None },
        OrbitalParams {
            kind: MotionKind::Orbit,
            orbit_radius: 12_000_000,
            angular_speed: 300_000,
            parent: None,
        },
        OrbitalParams {
            kind: MotionKind::Orbit,
            orbit_radius: 30_000_000,
            angular_speed: 90_000,
            parent: None,
        },
        OrbitalParams {
            kind: MotionKind::Orbit,
            orbit_radius: 40_000_000,
            angular_speed: 30_000,
            parent: None,
        },
        OrbitalParams {
            kind: MotionKind::Orbit,
            orbit_radius: 60_000_000,
            angular_speed: 90_000,
            parent: None,
        },
        OrbitalParams {
            kind: MotionKind::Orbit,
            orbit_radius: 75_000_000,
            angular_speed: 70_000,
            parent: None,
        },
        OrbitalParams {
            kind: MotionKind::NestedOrbit,
            orbit_radius: 10_000_000,
            angular_speed: 400_000,
            parent: Some(5),
        },
    ]
}

/// The bounding-sphere radii paired with that table: a wide sun, ordinary
/// planets and ship, a small moon.
pub open spec fn default_collision_radii_val() -> Seq<i64> {
    seq![5_000_000i64, 2_000_000i64, 2_000_000i64, 2_000_000i64, 2_000_000i64, 2_000_000i64, 1_000_000i64]
}

/// One entry of the default motion table, as a value.
fn default_params_entry(i: usize) -> (p: OrbitalParams)
    requires
        i < 7,
    ensures
        p == default_params_val()[i as int],
{
    if i == 0 {
        OrbitalParams { kind: MotionKind::Still, orbit_radius: 0, angular_speed: 0, parent: None }
    } else if i == 1 {
        OrbitalParams {
            kind: MotionKind::Orbit,
            orbit_radius: 12_000_000,
            angular_speed: 300_000,
            parent: None,
        }
    } else if i == 2 {
        OrbitalParams {
            kind: MotionKind::Orbit,
            orbit_radius: 30_000_000,
            angular_speed: 90_000,
            parent: None,
        }
    } else if i == 3 {
        OrbitalParams {
            kind: MotionKind::Orbit,
            orbit_radius: 40_000_000,
            angular_speed: 30_000,
            parent: None,
        }
    } else if i == 4 {
        OrbitalParams {
            kind: MotionKind::Orbit,
            orbit_radius: 60_000_000,
            angular_speed: 90_000,
            parent: None,
        }
    } else if i == 5 {
        OrbitalParams {
            kind: MotionKind::Orbit,
            orbit_radius: 75_000_000,
            angular_speed: 70_000,
            parent: None,
        }
    } else {
        OrbitalParams {
            kind: MotionKind::NestedOrbit,
            orbit_radius: 10_000_000,
            angular_speed: 400_000,
            parent: Some(5),
        }
    }
}

/// One entry of the default bounding radii, as a value.
fn default_collision_radius_entry(i: usize) -> (r: i64)
    requires
        i < 7,
    ensures
        r == default_collision_radii_val()[i as int],
{
    if i == 0 {
        5_000_000
    } else if i == 6 {
        1_000_000
    } else {
        2_000_000
    }
}

/// Whether every vertex of every mesh is within the vertex limit.
pub open spec fn meshes_bounded(meshes: Seq<Seq<Vertex>>) -> bool {
    forall|i: int, j: int|
        0 <= i < meshes.len() && 0 <= j < meshes[i].len() ==> vertex_bounded(#[trigger] meshes[i][j])
}

/// Check one loaded mesh against the vertex limit.
fn mesh_in_bounds(mesh: &Vec<Vertex>) -> (ok: bool)
    ensures
        ok <==> forall|j: int| 0 <= j < mesh@.len() ==> vertex_bounded(#[trigger] mesh@[j]),
{
    let n: usize = mesh.len();
    let mut j: usize = 0;
    while j < n
        invariant
            0 <= j <= n,
            n == mesh@.len(),
            forall|k: int| 0 <= k < j ==> vertex_bounded(#[trigger] mesh@[k]),
        decreases n - j,
    {
        let v = mesh[j];
        if !(-VERTEX_LIMIT_FX <= v.pos.x && v.pos.x <= VERTEX_LIMIT_FX && -VERTEX_LIMIT_FX
            <= v.pos.y && v.pos.y <= VERTEX_LIMIT_FX && -VERTEX_LIMIT_FX <= v.pos.z && v.pos.z
            <= VERTEX_LIMIT_FX) {
            return false;
        }
        j = j + 1;
    }
    true
}

impl Scene {
    /// Build the solar-system scene from its seven loaded meshes, in the
    /// order sun, inner planet, ship, two middle planets, outer planet,
    /// moon. Succeeds exactly when seven meshes arrive and every vertex is
    /// within the vertex limit; the animated buffers start as copies of the
    /// rest poses, and the four planet orbits get their guide paths.
    pub fn load_models(meshes: Vec<Vec<Vertex>>) -> (r: Option<Scene>)
        ensures
            r is Some <==> (meshes@.len() == 7 && meshes_bounded(meshes@.map_values(|m: Vec<Vertex>| m@))),
            r is Some ==> {
                let s = r->Some_0;
                &&& scene_wf(s)
                &&& s.bodies@.len() == 7
                &&& forall|i: int|
                    0 <= i < 7 ==> (#[trigger] s.bodies@[i]).params == default_params_val()[i]
                &&& forall|i: int|
                    0 <= i < 7 ==> (#[trigger] s.bodies@[i]).collision_radius
                        == default_collision_radii_val()[i]
                &&& forall|i: int| 0 <= i < 7 ==> (#[trigger] s.bodies@[i]).rest@ == meshes@[i]@
                &&& forall|i: int| 0 <= i < 7 ==> (#[trigger] s.bodies@[i]).dynamic@ == meshes@[i]@
                &&& s.orbits@.len() == 4
                &&& forall|k: int, j: int|
                    0 <= k < 4 && 0 <= j < 129 ==> (#[trigger] s.orbits@[k]@[j]) == orbit_point_val(
                        orbit_guide_radii_val()[k] as int,
                        128,
                        j,
                    )
                &&& forall|k: int| 0 <= k < 4 ==> (#[trigger] s.orbits@[k]@).len() == 129
            },
    {
        if meshes.len() != 7 {
            proof {
                assert(!(meshes@.len() == 7));
            }
            return None;
        }
        let mut checked: usize = 0;
        while checked < 7
            invariant
                0 <= checked <= 7,
                meshes@.len() == 7,
                forall|i: int, j: int|
                    0 <= i < checked && 0 <= j < meshes@[i]@.len() ==> vertex_bounded(
                        #[trigger] meshes@[i]@[j],
                    ),
            decreases 7 - checked,
        {
            if !mesh_in_bounds(&meshes[checked]) {
                proof {
                    let mapped = meshes@.map_values(|m: Vec<Vertex>| m@);
                    assert(mapped[checked as int] == meshes@[checked as int]@);
                    if meshes_bounded(mapped) {
                        assert forall|j: int|
                            0 <= j < meshes@[checked as int]@.len() implies vertex_bounded(
                            meshes@[checked as int]@[j],
                        ) by {
                            assert(vertex_bounded(mapped[checked as int][j]));
                        }
                    }
                }
                return None;
            }
            checked = checked + 1;
        }
        let mut bodies: Vec<Body> = Vec::new();
        let mut i: usize = 0;
        while i < 7
            invariant
                0 <= i <= 7,
                meshes@.len() == 7,
                bodies@.len() == i,
                forall|i0: int, j: int|
                    0 <= i0 < 7 && 0 <= j < meshes@[i0]@.len() ==> vertex_bounded(
                        #[trigger] meshes@[i0]@[j],
                    ),
                forall|k: int| 0 <= k < i ==> body_wf(#[trigger] bodies@[k], k),
                forall|k: int|
                    0 <= k < i ==> (#[trigger] bodies@[k]).params == default_params_val()[k],
                forall|k: int|
                    0 <= k < i ==> (#[trigger] bodies@[k]).collision_radius
                        == default_collision_radii_val()[k],
                forall|k: int| 0 <= k < i ==> (#[trigger] bodies@[k]).rest@ == meshes@[k]@,
                forall|k: int| 0 <= k < i ==> (#[trigger] bodies@[k]).dynamic@ == meshes@[k]@,
            decreases 7 - i,
        {
            let params = default_params_entry(i);
            let radius = default_collision_radius_entry(i);
            let rest: Vec<Vertex> = copy_mesh(&meshes[i]);
            let dynamic: Vec<Vertex> = copy_mesh(&meshes[i]);
            let body = Body { params, collision_radius: radius, rest, dynamic };
            bodies.push(body);
            i = i + 1;
        }
        let mut orbits: Vec<Vec<Vec3Fx>> = Vec::new();
        let mut k: usize = 0;
        while k < 4
            invariant
                0 <= k <= 4,
                orbits@.len() == k,
                forall|k0: int, j: int|
                    0 <= k0 < k && 0 <= j < 129 ==> (#[trigger] orbits@[k0]@[j]) == orbit_point_val(
                        orbit_guide_radii_val()[k0] as int,
                        128,
                        j,
                    ),
                forall|k0: int| 0 <= k0 < k ==> (#[trigger] orbits@[k0]@).len() == 129,
            decreases 4 - k,
        {
            let radius: i64 = orbit_guide_radius_entry(k);
            let path = generate_orbit(radius, 128);
            orbits.push(path);
            k = k + 1;
        }
        Some(Scene { bodies, orbits })
    }

    /// Advance every animated mesh to `time`: each body's dynamic buffer
    /// becomes its rest pose displaced by the body's current orbital
    /// offset. Rest poses and the motion table never change.
    pub fn update(&mut self, time: i64)
        requires
            scene_wf(*old(self)),
            0 <= time <= MAX_TIME_FX,
        ensures
            scene_wf(*final(self)),
            scene_advanced(*old(self), *final(self), time as int),
            final(self).bodies@.len() == old(self).bodies@.len(),
            final(self).orbits == old(self).orbits,
            forall|i: int|
                0 <= i < old(self).bodies@.len() ==> (#[trigger] final(self).bodies@[i]).rest
                    == old(self).bodies@[i].rest,
            forall|i: int|
                0 <= i < old(self).bodies@.len() ==> (#[trigger] final(self).bodies@[i]).params
                    == old(self).bodies@[i].params,
            forall|i: int|
                0 <= i < old(self).bodies@.len() ==> (#[trigger] final(self).bodies@[i]).collision_radius
                    == old(self).bodies@[i].collision_radius,
            forall|i: int, j: int|
                0 <= i < old(self).bodies@.len() && 0 <= j < old(self).bodies@[i].rest@.len()
                    ==> (#[trigger] final(self).bodies@[i].dynamic@[j]) == animated_vertex_val(
                    old(self).bodies@[i].rest@[j],
                    body_offset_val(scene_params(*old(self)), i, time as int),
                ),
    {
        let ghost orig = *self;
        let params_table: Vec<OrbitalParams> = self.motion_table();
        let n: usize = self.bodies.len();
        let mut i: usize = 0;
        while i < n
            invariant
                0 <= i <= n,
                n == self.bodies@.len(),
                self.bodies@.len() == orig.bodies@.len(),
                params_table@ == scene_params(orig),
                params_table@.len() == n,
                scene_wf(orig),
                0 <= time <= MAX_TIME_FX,
                self.orbits == orig.orbits,
                forall|k: int| 0 <= k < n ==> (#[trigger] self.bodies@[k]).rest == orig.bodies@[k].rest,
                forall|k: int|
                    0 <= k < n ==> (#[trigger] self.bodies@[k]).params == orig.bodies@[k].params,
                forall|k: int|
                    0 <= k < n ==> (#[trigger] self.bodies@[k]).collision_radius
                        == orig.bodies@[k].collision_radius,
                forall|k: int|
                    i <= k < n ==> (#[trigger] self.bodies@[k]).dynamic == orig.bodies@[k].dynamic,
                forall|k: int, j: int|
                    0 <= k < i && 0 <= j < orig.bodies@[k].rest@.len() ==> (#[trigger] self
                        .bodies@[k].dynamic@[j]) == animated_vertex_val(
                        orig.bodies@[k].rest@[j],
                        body_offset_val(scene_params(orig), k, time as int),
                    ),
                forall|k: int| 0 <= k < n ==> body_wf(#[trigger] self.bodies@[k], k),
            decreases n - i,
        {
            proof {
                lemma_body_offset_bounded(scene_params(orig), i as int, time as int);
                assert((i + 1) * (ORBIT_RADIUS_LIMIT_FX as int) <= 1_000 * 1_000_000_000)
                    by (nonlinear_arith)
                    requires
                        i + 1 <= 1_000,
                ;
            }
            let off: Vec3Fx = body_offset(&params_table, i, time);
            let nd: Vec<Vertex> = animate_mesh(&self.bodies[i].rest, off);
            self.bodies[i].dynamic = nd;
            i = i + 1;
        }
    }

    /// The motion table of the scene, one entry per body.
    pub fn motion_table(&self) -> (t: Vec<OrbitalParams>)
        ensures
            t@ == scene_params(*self),
    {
        let n: usize = self.bodies.len();
        let mut t: Vec<OrbitalParams> = Vec::new();
        let mut i: usize = 0;
        while i < n
            invariant
                0 <= i <= n,
                n == self.bodies@.len(),
                t@.len() == i,
                forall|k: int| 0 <= k < i ==> t@[k] == scene_params(*self)[k],
            decreases n - i,
        {
            let p: OrbitalParams = self.bodies[i].params;
            t.push(p);
            i = i + 1;
        }
        proof {
            assert(t@ =~= scene_params(*self));
        }
        t
    }

    /// The bounding spheres of all bodies at `time`, centered on each
    /// body's current orbital offset.
    pub fn collision_spheres(&self, time: i64) -> (spheres: Vec<CollisionSphere>)
        requires
            scene_wf(*self),
            0 <= time <= MAX_TIME_FX,
        ensures
            spheres@.len() == self.bodies@.len(),
            spheres@ == scene_spheres_val(*self, time as int),
            forall|i: int| 0 <= i < spheres@.len() ==> crate::collision::sphere_wf(#[trigger] spheres@[i]),
    {
        let params_table: Vec<OrbitalParams> = self.motion_table();
        let n: usize = self.bodies.len();
        let mut spheres: Vec<CollisionSphere> = Vec::new();
        let mut i: usize = 0;
        while i < n
            invariant
                0 <= i <= n,
                n == self.bodies@.len(),
                params_table@ == scene_params(*self),
                params_table@.len() == n,
                scene_wf(*self),
                0 <= time <= MAX_TIME_FX,
                spheres@.len() == i,
                forall|k: int|
                    0 <= k < i ==> (#[trigger] spheres@[k]) == (CollisionSphere {
                        center: body_offset_val(scene_params(*self), k, time as int),
                        radius: self.bodies@[k].collision_radius,
                    }),
                forall|k: int|
                    0 <= k < i ==> crate::collision::sphere_wf(#[trigger] spheres@[k]),
            decreases n - i,
        {
            proof {
                lemma_body_offset_bounded(scene_params(*self), i as int, time as int);
                assert((i + 1) * (ORBIT_RADIUS_LIMIT_FX as int) <= 1_000 * 1_000_000_000)
                    by (nonlinear_arith)
                    requires
                        i + 1 <= 1_000,
                ;
            }
            let off: Vec3Fx = body_offset(&params_table, i, time);
            let s = CollisionSphere { center: off, radius: self.bodies[i].collision_radius };
            spheres.push(s);
            i = i + 1;
        }
        proof {
            assert(spheres@ =~= scene_spheres_val(*self, time as int));
        }
        spheres
    }
}

/// The radii of the four orbit guide circles.
pub open spec fn orbit_guide_radii_val() -> Seq<i64> {
    seq![12_000_000i64, 40_000_000i64, 60_000_000i64, 75_000_000i64]
}

/// One orbit guide radius, as a value.
fn orbit_guide_radius_entry(k: usize) -> (r: i64)
    requires
        k < 4,
    ensures
        r == orbit_guide_radii_val()[k as int],
        0 <= r <= ORBIT_RADIUS_LIMIT_FX,
{
    if k == 0 {
        12_000_000
    } else if k == 1 {
        40_000_000
    } else if k == 2 {
        60_000_000
    } else {
        75_000_000
    }
}

/// A fresh copy of a mesh, element for element.
fn copy_mesh(src: &Vec<Vertex>) -> (out: Vec<Vertex>)
    ensures
        out@ == src@,
{
    let n: usize = src.len();
    let mut out: Vec<Vertex> = Vec::new();
    let mut j: usize = 0;
    while j < n
        invariant
            0 <= j <= n,
            n == src@.len(),
            out@.len() == j,
            forall|k: int| 0 <= k < j ==> out@[k] == src@[k],
        decreases n - j,
    {
        let v: Vertex = src[j];
        out.push(v);
        j = j + 1;
    }
    proof {
        assert(out@ =~= src@);
    }
    out
}

/// A rest mesh displaced by one offset, attribute for attribute.
fn animate_mesh(rest: &Vec<Vertex>, off: Vec3Fx) -> (out: Vec<Vertex>)
    requires
        forall|j: int| 0 <= j < rest@.len() ==> vertex_bounded(#[trigger] rest@[j]),
        -1_000_000_000_000 <= off.x <= 1_000_000_000_000,
        -1_000_000_000_000 <= off.y <= 1_000_000_000_000,
        -1_000_000_000_000 <= off.z <= 1_000_000_000_000,
    ensures
        out@.len() == rest@.len(),
        forall|j: int|
            0 <= j < rest@.len() ==> out@[j] == animated_vertex_val(rest@[j], off),
{
    let n: usize = rest.len();
    let mut out: Vec<Vertex> = Vec::new();
    let mut j: usize = 0;
    while j < n
        invariant
            0 <= j <= n,
            n == rest@.len(),
            out@.len() == j,
            forall|k: int| 0 <= k < rest@.len() ==> vertex_bounded(#[trigger] rest@[k]),
            -1_000_000_000_000 <= off.x <= 1_000_000_000_000,
            -1_000_000_000_000 <= off.y <= 1_000_000_000_000,
            -1_000_000_000_000 <= off.z <= 1_000_000_000_000,
            forall|k: int| 0 <= k < j ==> out@[k] == animated_vertex_val(rest@[k], off),
        decreases n - j,
    {
        let v: Vertex = rest[j];
        let moved = Vertex {
            pos: Vec3Fx { x: v.pos.x + off.x, y: v.pos.y + off.y, z: v.pos.z + off.z },
            ..v
        };
        out.push(moved);
        j = j + 1;
    }
    out
}

} // verus!
