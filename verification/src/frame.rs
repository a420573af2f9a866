//! The frame orchestrator: one simulation tick.
//!
//! Each tick consumes the accumulated input, advances the orbital motion
//! engine, advances the view controller against the freshly placed
//! bounding spheres, advances the ship, and derives the view-projection
//! transform the renderer is to draw with. Both the orbit camera and the
//! ship advance every tick whichever view is shown, so switching views is
//! seamless; the view mode only selects which transform is handed out.

use crate::camera::advanced_target_val;
use crate::camera::camera_wf;
use crate::camera::ship_pos_next_val;
use crate::camera::ship_rot_next_val;
use crate::camera::ship_rot_wf;
use crate::camera::ship_view_proj_val;
use crate::camera::view_proj_val;
use crate::camera::Camera;
use crate::camera::ShipRot;
use crate::camera::MAX_DT_FX;
use crate::camera::MAX_INPUT_FX;
use crate::camera::MIN_RADIUS_FX;
use crate::camera::MAX_RADIUS_FX;
use crate::camera::MOUSE_SENSITIVITY_FX;
use crate::camera::PITCH_LIMIT_FX;
use crate::camera::ZOOM_SPEED_FX;
use crate::fixed::clamp_val;
use crate::fixed::fx_mul_val;
use crate::matrix::Mat4Fx;
use crate::orbit::MAX_TIME_FX;
use crate::scene::scene_advanced;
use crate::scene::scene_spheres_val;
use crate::scene::scene_params;
use crate::scene::scene_wf;
use crate::scene::Scene;
use crate::trig::angle_mod_val;
use crate::vec3::in_world;
use crate::vec3::Vec3Fx;
use vstd::prelude::*;

verus! {

/// The ship's state: where it is and which way it points.
#[derive(Clone, Copy, PartialEq, Eq, Structural, Debug)]
pub struct ShipState {
    pub position: Vec3Fx,
    pub rotation: ShipRot,
}

/// A ship state the simulation preserves.
pub open spec fn ship_state_wf(s: ShipState) -> bool {
    &&& in_world(s.position)
    &&& ship_rot_wf(s.rotation)
}

/// One tick of the whole simulation: animate the scene to `time`, apply
/// the tick's scroll and mouse input to the camera, move its target
/// against the scene's bounding spheres, fly the ship, and return the
/// transform of whichever view is active.
pub fn advance_frame(
    scene: &mut Scene,
    camera: &mut Camera,
    ship: &mut ShipState,
    time: i64,
    dt: i64,
    mouse_dx: i64,
    mouse_dy: i64,
    scroll: i64,
    aspect: i64,
) -> (m: Mat4Fx)
    requires
        scene_wf(*old(scene)),
        camera_wf(*old(camera)),
        ship_state_wf(*old(ship)),
        0 <= time <= MAX_TIME_FX,
        0 <= dt <= MAX_DT_FX,
        -MAX_INPUT_FX <= mouse_dx <= MAX_INPUT_FX,
        -MAX_INPUT_FX <= mouse_dy <= MAX_INPUT_FX,
        -MAX_INPUT_FX <= scroll <= MAX_INPUT_FX,
        1_000 <= aspect <= 1_000_000_000,
    ensures
        scene_wf(*final(scene)),
        camera_wf(*final(camera)),
        ship_state_wf(*final(ship)),
        scene_advanced(*old(scene), *final(scene), time as int),
        final(camera).radius == clamp_val(
            old(camera).radius - fx_mul_val(scroll as int, ZOOM_SPEED_FX as int),
            MIN_RADIUS_FX as int,
            MAX_RADIUS_FX as int,
        ),
        final(camera).yaw == angle_mod_val(
            old(camera).yaw - fx_mul_val(mouse_dx as int, MOUSE_SENSITIVITY_FX as int),
        ),
        final(camera).pitch == clamp_val(
            old(camera).pitch - fx_mul_val(mouse_dy as int, MOUSE_SENSITIVITY_FX as int),
            -PITCH_LIMIT_FX as int,
            PITCH_LIMIT_FX as int,
        ),
        final(camera).target == advanced_target_val(
            Camera { radius: final(camera).radius, ..*old(camera) },
            final(camera).yaw as int,
            dt as int,
            scene_spheres_val(*old(scene), time as int),
        ),
        final(camera).ship_view == old(camera).ship_view,
        final(ship).rotation == ship_rot_next_val(*final(camera), old(ship).rotation, dt as int),
        final(ship).position == ship_pos_next_val(
            old(ship).position,
            ship_rot_next_val(*final(camera), old(ship).rotation, dt as int),
            dt as int,
        ),
        m == (if final(camera).ship_view {
            ship_view_proj_val(final(ship).position, final(ship).rotation, aspect as int)
        } else {
            view_proj_val(*final(camera), aspect as int)
        }),
{
    scene.update(time);
    let spheres = scene.collision_spheres(time);
    proof {
        assert(scene_params(*scene) =~= scene_params(*old(scene)));
        assert(scene_spheres_val(*scene, time as int) =~= scene_spheres_val(
            *old(scene),
            time as int,
        ));
    }
    camera.adjust_radius(scroll);
    camera.update_from_input(dt, mouse_dx, mouse_dy, &spheres);
    let mut pos: Vec3Fx = ship.position;
    let mut rot: ShipRot = ship.rotation;
    camera.update_player_ship(dt, &mut pos, &mut rot);
    ship.position = pos;
    ship.rotation = rot;
    if camera.ship_view {
        camera.view_proj_from_ship(ship.position, ship.rotation, aspect)
    } else {
        camera.view_proj(aspect)
    }
}

} // verus!
