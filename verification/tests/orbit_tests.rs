use solarsim::mesh::Vertex;
use solarsim::orbit::bob_offset;
use solarsim::orbit::circ_offset;
use solarsim::orbit::generate_orbit;
use solarsim::scene::Scene;
use solarsim::trig::cos_fx;
use solarsim::trig::sin_fx;
use solarsim::vec3::Vec3Fx;

fn unit_vertex() -> Vertex {
    Vertex {
        pos: Vec3Fx { x: 1_000_000, y: 2_000_000, z: 3_000_000 },
        normal: Vec3Fx { x: 0, y: 1_000_000, z: 0 },
        uv_u: 0,
        uv_v: 0,
        tag: 0,
    }
}

fn seven_meshes() -> Vec<Vec<Vertex>> {
    (0..7).map(|_| vec![unit_vertex()]).collect()
}

#[test]
fn orbital_offset_matches_the_closed_form() {
    // time 10 s, radius 12, angular speed 0.3: the angle is exactly 3.0
    // radians, so the offset is (12 cos 3, 0, 12 sin 3).
    let off = circ_offset(10_000_000, 12_000_000, 300_000);
    let expect_x = 12.0 * (3.0f64).cos();
    let expect_z = 12.0 * (3.0f64).sin();
    assert!((off.x as f64 / 1e6 - expect_x).abs() < 2e-3);
    assert_eq!(off.y, 0);
    assert!((off.z as f64 / 1e6 - expect_z).abs() < 2e-3);
}

#[test]
fn orbital_offset_is_deterministic() {
    let a = circ_offset(10_000_000, 12_000_000, 300_000);
    let b = circ_offset(10_000_000, 12_000_000, 300_000);
    assert_eq!(a, b);
}

#[test]
fn bob_moves_only_the_vertical_axis() {
    let off = bob_offset(2_500_000, 1_000_000, 400_000);
    assert_eq!(off.x, 0);
    assert_eq!(off.z, 0);
    // sin(1.0) scaled by the unit amplitude.
    assert!((off.y as f64 / 1e6 - (1.0f64).sin()).abs() < 1e-3);
}

#[test]
fn moon_rides_on_its_planet() {
    // Advance the scene and check the moon's displacement is the outer
    // planet's current offset plus the moon's own circular term — relative
    // to the moving planet, not the origin.
    let mut scene = Scene::load_models(seven_meshes()).unwrap();
    let time = 10_000_000;
    scene.update(time);
    let planet = circ_offset(time, 75_000_000, 70_000);
    let own = circ_offset(time, 10_000_000, 400_000);
    let rest = unit_vertex().pos;
    let moon = scene.bodies[6].dynamic[0].pos;
    assert_eq!(moon.x, rest.x + planet.x + own.x);
    assert_eq!(moon.y, rest.y + planet.y + own.y);
    assert_eq!(moon.z, rest.z + planet.z + own.z);
    // And the moon is nowhere near the moon-around-origin position alone.
    assert!(moon.x != rest.x + own.x || moon.z != rest.z + own.z);
}

#[test]
fn scene_update_animates_bodies_and_keeps_rest_poses() {
    let mut scene = Scene::load_models(seven_meshes()).unwrap();
    let time = 5_000_000;
    scene.update(time);
    let rest = unit_vertex();
    // The sun stays put.
    assert_eq!(scene.bodies[0].dynamic[0].pos, rest.pos);
    // The inner planet sits on its circle.
    let off = circ_offset(time, 12_000_000, 300_000);
    let p = scene.bodies[1].dynamic[0].pos;
    assert_eq!(p.x, rest.pos.x + off.x);
    assert_eq!(p.y, rest.pos.y);
    assert_eq!(p.z, rest.pos.z + off.z);
    // Rest poses and the other attributes are untouched.
    assert_eq!(scene.bodies[1].rest[0], rest);
    assert_eq!(scene.bodies[1].dynamic[0].normal, rest.normal);
    assert_eq!(scene.bodies[1].dynamic[0].tag, rest.tag);
}

#[test]
fn update_is_a_function_of_time_alone() {
    let mut a = Scene::load_models(seven_meshes()).unwrap();
    let mut b = Scene::load_models(seven_meshes()).unwrap();
    a.update(7_000_000);
    a.update(3_000_000);
    b.update(3_000_000);
    for i in 0..7 {
        assert_eq!(a.bodies[i].dynamic, b.bodies[i].dynamic);
    }
}

#[test]
fn load_models_wants_exactly_seven_meshes() {
    let six: Vec<Vec<Vertex>> = (0..6).map(|_| vec![unit_vertex()]).collect();
    assert!(Scene::load_models(six).is_none());
    assert!(Scene::load_models(seven_meshes()).is_some());
}

#[test]
fn load_models_rejects_out_of_range_vertices() {
    let mut meshes = seven_meshes();
    meshes[3][0].pos.x = 200_000_000_000;
    assert!(Scene::load_models(meshes).is_none());
}

#[test]
fn scene_carries_the_four_orbit_guides() {
    let scene = Scene::load_models(seven_meshes()).unwrap();
    assert_eq!(scene.orbits.len(), 4);
    for path in &scene.orbits {
        assert_eq!(path.len(), 129);
    }
    // The first guide has radius 12 and starts on the +X axis.
    assert_eq!(scene.orbits[0][0], Vec3Fx { x: 12_000_000, y: 0, z: 0 });
}

#[test]
fn orbit_path_samples_a_full_circle() {
    let pts = generate_orbit(50_000_000, 128);
    assert_eq!(pts.len(), 129);
    assert_eq!(pts[0], Vec3Fx { x: 50_000_000, y: 0, z: 0 });
    // A quarter of the way around, the point is on the +Z axis.
    let q = pts[32];
    assert!((q.x as f64 / 1e6).abs() < 0.01);
    assert!((q.z as f64 / 1e6 - 50.0).abs() < 0.01);
    // Every point lies on the circle, radius 50.
    for p in &pts {
        let r = (((p.x as f64).powi(2) + (p.z as f64).powi(2)).sqrt()) / 1e6;
        assert!((r - 50.0).abs() < 0.01);
        assert_eq!(p.y, 0);
    }
}

#[test]
fn trig_is_exact_at_zero_and_accurate_elsewhere() {
    assert_eq!(sin_fx(0), 0);
    assert_eq!(cos_fx(0), 1_000_000);
    for k in 0..32 {
        let ang: i64 = k * 196_350; // about a sixteenth of a turn apart
        let s = sin_fx(ang) as f64 / 1e6;
        let c = cos_fx(ang) as f64 / 1e6;
        let rad = ang as f64 / 1e6;
        assert!((s - rad.sin()).abs() < 1e-4);
        assert!((c - rad.cos()).abs() < 1e-4);
    }
    // Negative angles fold correctly.
    assert!((sin_fx(-1_570_796) as f64 / 1e6 + 1.0).abs() < 1e-4);
}
