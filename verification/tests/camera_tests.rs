use solarsim::camera::Camera;
use solarsim::camera::CameraKey;
use solarsim::camera::ShipRot;
use solarsim::collision::CollisionSphere;
use solarsim::vec3::Vec3Fx;

#[test]
fn new_camera_has_documented_defaults() {
    let c = Camera::new();
    assert_eq!(c.yaw, 0);
    assert_eq!(c.pitch, -200_000);
    assert_eq!(c.radius, 20_000_000);
    assert_eq!(c.target, Vec3Fx { x: 0, y: 0, z: 0 });
    assert!(!c.move_forward && !c.move_backward && !c.move_left && !c.move_right);
    assert!(!c.ship_view);
}

#[test]
fn pitch_stays_clamped_under_huge_mouse_motion() {
    let mut c = Camera::new();
    let spheres: Vec<CollisionSphere> = Vec::new();
    // An enormous downward sweep.
    c.update_from_input(16_000, 0, 1_000_000_000_000, &spheres);
    assert!(-1_400_000 <= c.pitch && c.pitch <= 1_400_000);
    assert_eq!(c.pitch, -1_400_000);
    // And an enormous upward sweep.
    c.update_from_input(16_000, 0, -1_000_000_000_000, &spheres);
    assert_eq!(c.pitch, 1_400_000);
}

#[test]
fn radius_stays_between_zoom_stops() {
    let mut c = Camera::new();
    c.adjust_radius(1_000_000_000_000);
    assert_eq!(c.radius, 3_000_000);
    c.adjust_radius(-1_000_000_000_000);
    assert_eq!(c.radius, 500_000_000);
}

#[test]
fn scroll_moves_radius_at_zoom_speed() {
    let mut c = Camera::new();
    // One unit of scroll against the view: radius grows by 0.15.
    c.adjust_radius(-1_000_000);
    assert_eq!(c.radius, 20_150_000);
}

#[test]
fn wasd_keys_drive_the_movement_intents() {
    let mut c = Camera::new();
    c.process_key(CameraKey::Character('w'), true);
    assert!(c.move_forward);
    c.process_key(CameraKey::Character('W'), false);
    assert!(!c.move_forward);
    c.process_key(CameraKey::Character('s'), true);
    assert!(c.move_backward);
    c.process_key(CameraKey::Character('a'), true);
    assert!(c.move_left);
    c.process_key(CameraKey::Character('d'), true);
    assert!(c.move_right);
}

#[test]
fn view_toggle_flips_only_on_press() {
    let mut c = Camera::new();
    c.process_key(CameraKey::Character('v'), true);
    assert!(c.ship_view);
    c.process_key(CameraKey::Character('v'), false);
    assert!(c.ship_view);
    c.process_key(CameraKey::Character('V'), true);
    assert!(!c.ship_view);
}

#[test]
fn arrows_drive_the_ship_turn_intents() {
    let mut c = Camera::new();
    c.process_key(CameraKey::ArrowUp, true);
    assert!(c.ship_turn_up);
    c.process_key(CameraKey::ArrowDown, true);
    assert!(c.ship_turn_down);
    c.process_key(CameraKey::ArrowLeft, true);
    assert!(c.ship_turn_left);
    c.process_key(CameraKey::ArrowRight, true);
    assert!(c.ship_turn_right);
    c.process_key(CameraKey::ArrowUp, false);
    assert!(!c.ship_turn_up);
}

#[test]
fn unrecognized_keys_are_ignored() {
    let mut c = Camera::new();
    let before = c;
    c.process_key(CameraKey::Character('q'), true);
    c.process_key(CameraKey::Other, true);
    assert_eq!(c, before);
}

#[test]
fn forward_move_travels_at_speed() {
    let mut c = Camera::new();
    c.process_key(CameraKey::Character('w'), true);
    let spheres: Vec<CollisionSphere> = Vec::new();
    // One full second at yaw 0: the target moves 10 units along +X.
    c.update_from_input(1_000_000, 0, 0, &spheres);
    assert_eq!(c.target, Vec3Fx { x: 10_000_000, y: 0, z: 0 });
}

#[test]
fn colliding_move_is_rejected_whole() {
    let mut c = Camera::new();
    c.process_key(CameraKey::Character('w'), true);
    // The proposed target (10, 0, 0) lands inside this sphere.
    let spheres = vec![CollisionSphere {
        center: Vec3Fx { x: 10_000_000, y: 0, z: 0 },
        radius: 5_000_000,
    }];
    c.update_from_input(1_000_000, 0, 0, &spheres);
    assert_eq!(c.target, Vec3Fx { x: 0, y: 0, z: 0 });
}

#[test]
fn no_intents_means_no_motion() {
    let mut c = Camera::new();
    let spheres: Vec<CollisionSphere> = Vec::new();
    c.update_from_input(1_000_000, 0, 0, &spheres);
    assert_eq!(c.target, Vec3Fx { x: 0, y: 0, z: 0 });
}

#[test]
fn eye_sits_radius_along_the_heading() {
    let mut c = Camera::new();
    c.pitch = 0;
    let eye = c.get_eye_pos();
    assert_eq!(eye, Vec3Fx { x: 20_000_000, y: 0, z: 0 });
}

#[test]
fn view_projection_centers_the_orbit_target() {
    let mut c = Camera::new();
    c.pitch = 0;
    let m = c.view_proj(1_000_000);
    // The origin maps through the last matrix column; after the divide it
    // must land at the image center.
    let xc = m.r0.w as f64;
    let yc = m.r1.w as f64;
    let wc = m.r3.w as f64;
    assert!(wc > 0.0);
    assert!((xc / wc).abs() < 1e-3);
    assert!((yc / wc).abs() < 1e-3);
    // The eye is 20 units out, so the clip-space w is 20.
    assert!((wc / 1e6 - 20.0).abs() < 0.01);
}

#[test]
fn ship_flies_forward_at_flight_speed() {
    let c = Camera::new();
    let mut pos = Vec3Fx { x: 0, y: 0, z: 0 };
    let mut rot = ShipRot { yaw: 0, pitch: 0 };
    c.update_player_ship(1_000_000, &mut pos, &mut rot);
    assert_eq!(rot, ShipRot { yaw: 0, pitch: 0 });
    assert_eq!(pos, Vec3Fx { x: 40_000_000, y: 0, z: 0 });
}

#[test]
fn ship_turns_at_turn_rate_and_pitch_stops_at_vertical() {
    let mut c = Camera::new();
    c.process_key(CameraKey::ArrowLeft, true);
    let mut pos = Vec3Fx { x: 0, y: 0, z: 0 };
    let mut rot = ShipRot { yaw: 0, pitch: 0 };
    // Half a second of left turn: one radian of yaw.
    c.update_player_ship(500_000, &mut pos, &mut rot);
    assert_eq!(rot.yaw, 1_000_000);

    let mut c2 = Camera::new();
    c2.process_key(CameraKey::ArrowUp, true);
    let mut pos2 = Vec3Fx { x: 0, y: 0, z: 0 };
    let mut rot2 = ShipRot { yaw: 0, pitch: 0 };
    // Two seconds of climb would pass the vertical; it stops a quarter
    // turn up.
    c2.update_player_ship(1_000_000, &mut pos2, &mut rot2);
    assert_eq!(rot2.pitch, 1_570_796);
}

#[test]
fn chase_view_is_a_function_of_ship_state() {
    let c = Camera::new();
    let pos = Vec3Fx { x: 1_000_000, y: 2_000_000, z: 3_000_000 };
    let rot = ShipRot { yaw: 500_000, pitch: 100_000 };
    let a = c.view_proj_from_ship(pos, rot, 1_000_000);
    let b = c.view_proj_from_ship(pos, rot, 1_000_000);
    assert_eq!(a, b);
}
