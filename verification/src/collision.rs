//! Point-versus-sphere collision.
//!
//! The camera is treated as a small sphere around a candidate point; a
//! collision is a strict overlap with any body's bounding sphere, compared on
//! squared distances so the test is exact over the integers. Touching exactly
//! (equal distance) does not count as a collision.

use crate::vec3::in_world;
use crate::vec3::Vec3Fx;
use crate::vec3::WORLD_LIMIT_FX;
use vstd::prelude::*;

verus! {

/// Radius of the sphere the camera carries around its target point, in
/// micro-units (two whole units).
pub const CAMERA_RADIUS_FX: i64 = 2_000_000;

/// One body's bounding sphere, recomputed each frame from its current
/// orbital position.
#[derive(Clone, Copy, PartialEq, Eq, Structural, Debug)]
pub struct CollisionSphere {
    pub center: Vec3Fx,
    pub radius: i64,
}

/// A sphere the detector accepts: nonnegative radius within the world scale,
/// center inside the world cube.
pub open spec fn sphere_wf(s: CollisionSphere) -> bool {
    &&& 0 <= s.radius <= WORLD_LIMIT_FX
    &&& in_world(s.center)
}

/// Squared distance between two points, exact.
pub open spec fn dist_sq_val(a: Vec3Fx, b: Vec3Fx) -> int {
    (a.x - b.x) * (a.x - b.x) + (a.y - b.y) * (a.y - b.y) + (a.z - b.z) * (a.z - b.z)
}

/// Whether the camera sphere around `p` strictly overlaps `s`: distance to
/// the center below the two radii combined.
pub open spec fn collides_sphere(p: Vec3Fx, s: CollisionSphere) -> bool {
    dist_sq_val(p, s.center) < (s.radius + CAMERA_RADIUS_FX) * (s.radius + CAMERA_RADIUS_FX)
}

/// Whether `p` collides with any sphere of the set.
pub open spec fn collides(p: Vec3Fx, spheres: Seq<CollisionSphere>) -> bool {
    exists|i: int| 0 <= i < spheres.len() && collides_sphere(p, spheres[i])
}

/// Strict-overlap test for one sphere, on exact squared distances.
fn sphere_overlaps(p: Vec3Fx, s: &CollisionSphere) -> (r: bool)
    requires
        in_world(p),
        sphere_wf(*s),
    ensures
        r == collides_sphere(p, *s),
{
    let dx: i128 = (p.x as i128) - (s.center.x as i128);
    let dy: i128 = (p.y as i128) - (s.center.y as i128);
    let dz: i128 = (p.z as i128) - (s.center.z as i128);
    let reach: i128 = (s.radius as i128) + (CAMERA_RADIUS_FX as i128);
    proof {
        assert(0 <= dx * dx <= i128::MAX / 4 && 0 <= dy * dy <= i128::MAX / 4 && 0 <= dz * dz
            <= i128::MAX / 4 && 0 <= reach * reach <= i128::MAX / 4) by (nonlinear_arith)
            requires
                -4_000_000_000_000 <= dx <= 4_000_000_000_000,
                -4_000_000_000_000 <= dy <= 4_000_000_000_000,
                -4_000_000_000_000 <= dz <= 4_000_000_000_000,
                0 <= reach <= 4_000_000_000_000,
        ;
    }
    dx * dx + dy * dy + dz * dz < reach * reach
}

/// Walk the spheres and report whether any is struck. Exactly the
/// disjunction of the single-sphere tests.
pub fn check_collision(p: Vec3Fx, spheres: &Vec<CollisionSphere>) -> (r: bool)
    requires
        in_world(p),
        forall|i: int| 0 <= i < spheres@.len() ==> sphere_wf(spheres@[i]),
    ensures
        r == collides(p, spheres@),
{
    let n: usize = spheres.len();
    let mut i: usize = 0;
    while i < n
        invariant
            0 <= i <= n,
            n == spheres@.len(),
            in_world(p),
            forall|j: int| 0 <= j < spheres@.len() ==> sphere_wf(spheres@[j]),
            forall|j: int| 0 <= j < i ==> !collides_sphere(p, spheres@[j]),
        decreases n - i,
    {
        if sphere_overlaps(p, &spheres[i]) {
            return true;
        }
        i = i + 1;
    }
    false
}

} // verus!
