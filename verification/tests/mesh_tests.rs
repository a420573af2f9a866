use solarsim::frame::advance_frame;
use solarsim::frame::ShipState;
use solarsim::camera::Camera;
use solarsim::camera::CameraKey;
use solarsim::camera::ShipRot;
use solarsim::mesh::assemble_vertices;
use solarsim::mesh::Vertex;
use solarsim::scene::Scene;
use solarsim::spaceship::generate_spaceship;
use solarsim::vec3::Vec3Fx;

#[test]
fn vertices_assemble_three_positions_at_a_time() {
    let positions: Vec<i64> = vec![1, 2, 3, 4, 5, 6];
    let normals: Vec<i64> = vec![];
    let texcoords: Vec<i64> = vec![];
    let vs = assemble_vertices(&positions, &normals, &texcoords, 9);
    assert_eq!(vs.len(), 2);
    assert_eq!(vs[0].pos, Vec3Fx { x: 1, y: 2, z: 3 });
    assert_eq!(vs[1].pos, Vec3Fx { x: 4, y: 5, z: 6 });
    // Without a normal stream every vertex points up.
    assert_eq!(vs[0].normal, Vec3Fx { x: 0, y: 1_000_000, z: 0 });
    assert_eq!(vs[0].uv_u, 0);
    assert_eq!(vs[0].uv_v, 0);
    assert_eq!(vs[1].tag, 9);
}

#[test]
fn short_attribute_streams_fall_back_per_component() {
    let positions: Vec<i64> = vec![1, 2, 3];
    // One normal component present: the rest fall back to the flat
    // defaults (zero, zero, unit-forward).
    let normals: Vec<i64> = vec![7];
    let texcoords: Vec<i64> = vec![11];
    let vs = assemble_vertices(&positions, &normals, &texcoords, 0);
    assert_eq!(vs[0].normal, Vec3Fx { x: 7, y: 0, z: 1_000_000 });
    assert_eq!(vs[0].uv_u, 11);
    assert_eq!(vs[0].uv_v, 0);
}

#[test]
fn leftover_positions_are_dropped() {
    let positions: Vec<i64> = vec![1, 2, 3, 4];
    let vs = assemble_vertices(&positions, &vec![], &vec![], 0);
    assert_eq!(vs.len(), 1);
}

#[test]
fn spaceship_mesh_is_well_formed() {
    let (vertices, indices) = generate_spaceship();
    assert_eq!(vertices.len(), 34);
    assert_eq!(indices.len(), 153);
    for &ix in &indices {
        assert!((ix as usize) < vertices.len());
    }
    for v in &vertices {
        assert_eq!(v.tag, 2);
    }
    // The nose tip leads the mesh.
    assert_eq!(vertices[0].pos, Vec3Fx { x: 0, y: 0, z: 3_000_000 });
    // The tail tip sits one unit behind the hull.
    assert_eq!(vertices[27].pos, Vec3Fx { x: 0, y: 0, z: -4_000_000 });
    // The first ring station starts on the +X axis at the hull radius.
    assert_eq!(vertices[1].pos, Vec3Fx { x: 500_000, y: 0, z: 2_500_000 });
    assert_eq!(vertices[2].pos, Vec3Fx { x: 500_000, y: 0, z: -3_000_000 });
}

#[test]
fn spaceship_triangles_use_the_interleaved_layout() {
    let (_, indices) = generate_spaceship();
    // The first nose triangle fans from the tip over ring stations 0 and 1.
    assert_eq!(&indices[0..3], &[0, 1, 3]);
    // The first body quad joins front and back of stations 0 and 1.
    assert_eq!(&indices[36..42], &[1, 2, 3, 3, 2, 4]);
    // The tail fan closes on the tail tip.
    assert_eq!(indices[108], 27);
}

fn seven_meshes() -> Vec<Vec<Vertex>> {
    (0..7)
        .map(|_| {
            vec![Vertex {
                pos: Vec3Fx { x: 0, y: 0, z: 0 },
                normal: Vec3Fx { x: 0, y: 1_000_000, z: 0 },
                uv_u: 0,
                uv_v: 0,
                tag: 0,
            }]
        })
        .collect()
}

#[test]
fn a_quiet_tick_leaves_the_camera_transform_alone() {
    let mut scene = Scene::load_models(seven_meshes()).unwrap();
    let mut camera = Camera::new();
    let mut ship = ShipState {
        position: Vec3Fx { x: 0, y: 0, z: 0 },
        rotation: ShipRot { yaw: 0, pitch: 0 },
    };
    let m = advance_frame(&mut scene, &mut camera, &mut ship, 0, 0, 0, 0, 0, 1_000_000);
    let reference = Camera::new().view_proj(1_000_000);
    assert_eq!(m, reference);
}

#[test]
fn the_view_toggle_selects_the_chase_transform() {
    let mut scene = Scene::load_models(seven_meshes()).unwrap();
    let mut camera = Camera::new();
    camera.process_key(CameraKey::Character('v'), true);
    let mut ship = ShipState {
        position: Vec3Fx { x: 0, y: 0, z: 0 },
        rotation: ShipRot { yaw: 0, pitch: 0 },
    };
    let m = advance_frame(&mut scene, &mut camera, &mut ship, 0, 0, 0, 0, 0, 1_000_000);
    let chase = Camera::new().view_proj_from_ship(ship.position, ship.rotation, 1_000_000);
    assert_eq!(m, chase);
    // Both views advanced: the ship state is still well-formed and the
    // free camera did not reset.
    assert_eq!(camera.radius, 20_000_000);
}

#[test]
fn ticks_advance_ship_and_scene_together() {
    let mut scene = Scene::load_models(seven_meshes()).unwrap();
    let mut camera = Camera::new();
    let mut ship = ShipState {
        position: Vec3Fx { x: 0, y: 0, z: 0 },
        rotation: ShipRot { yaw: 0, pitch: 0 },
    };
    advance_frame(
        &mut scene,
        &mut camera,
        &mut ship,
        1_000_000,
        1_000_000,
        0,
        0,
        0,
        1_000_000,
    );
    // The ship flew 40 units forward even though the free view is active.
    assert_eq!(ship.position, Vec3Fx { x: 40_000_000, y: 0, z: 0 });
    // The scene was animated to t = 1 s.
    let planet = solarsim::orbit::circ_offset(1_000_000, 12_000_000, 300_000);
    assert_eq!(scene.bodies[1].dynamic[0].pos.x, planet.x);
    assert_eq!(scene.bodies[1].dynamic[0].pos.z, planet.z);
}
