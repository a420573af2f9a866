use solarsim::collision::check_collision;
use solarsim::collision::CollisionSphere;
use solarsim::vec3::Vec3Fx;

fn sphere_at_origin(radius: i64) -> CollisionSphere {
    CollisionSphere { center: Vec3Fx { x: 0, y: 0, z: 0 }, radius }
}

#[test]
fn candidate_inside_combined_radius_is_rejected() {
    // Sphere radius 5, camera radius 2: a point 6.9 away overlaps (6.9 < 7).
    let spheres = vec![sphere_at_origin(5_000_000)];
    let p = Vec3Fx { x: 6_900_000, y: 0, z: 0 };
    assert!(check_collision(p, &spheres));
}

#[test]
fn candidate_outside_combined_radius_is_accepted() {
    // A point 7.1 away stays clear (7.1 >= 7).
    let spheres = vec![sphere_at_origin(5_000_000)];
    let p = Vec3Fx { x: 7_100_000, y: 0, z: 0 };
    assert!(!check_collision(p, &spheres));
}

#[test]
fn touching_exactly_does_not_count_as_collision() {
    // Equality is strict: distance exactly 7 is no collision.
    let spheres = vec![sphere_at_origin(5_000_000)];
    let p = Vec3Fx { x: 7_000_000, y: 0, z: 0 };
    assert!(!check_collision(p, &spheres));
}

#[test]
fn any_of_many_spheres_triggers() {
    let spheres = vec![
        CollisionSphere { center: Vec3Fx { x: 50_000_000, y: 0, z: 0 }, radius: 1_000_000 },
        CollisionSphere { center: Vec3Fx { x: 0, y: 10_000_000, z: 0 }, radius: 9_000_000 },
    ];
    let p = Vec3Fx { x: 0, y: 0, z: 0 };
    assert!(check_collision(p, &spheres));
}

#[test]
fn empty_sphere_set_never_collides() {
    let spheres: Vec<CollisionSphere> = Vec::new();
    let p = Vec3Fx { x: 0, y: 0, z: 0 };
    assert!(!check_collision(p, &spheres));
}

#[test]
fn distance_is_measured_in_three_dimensions() {
    let spheres = vec![sphere_at_origin(5_000_000)];
    // (4, 4, 4) is about 6.93 from the origin: inside the combined 7.
    let near = Vec3Fx { x: 4_000_000, y: 4_000_000, z: 4_000_000 };
    assert!(check_collision(near, &spheres));
    // (5, 5, 5) is about 8.66 away: clear.
    let far = Vec3Fx { x: 5_000_000, y: 5_000_000, z: 5_000_000 };
    assert!(!check_collision(far, &spheres));
}
