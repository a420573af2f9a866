//! The view controller: an orbit camera with free-fly movement, collision
//! rejection, scroll zoom, and a ship-relative flight model with its chase
//! view.
//!
//! Angles are micro-radians, distances micro-units. Mouse look turns the
//! yaw and pitch by a fixed sensitivity, with pitch clamped clear of the
//! vertical; movement keys propose a displacement in the yaw-rotated
//! horizontal plane which is committed only if the collision detector
//! accepts the new target, and rejected whole otherwise.

use crate::collision::check_collision;
use crate::collision::collides;
use crate::collision::sphere_wf;
use crate::collision::CollisionSphere;
use crate::fixed::clamp_fx;
use crate::fixed::clamp_val;
use crate::fixed::fx_mul;
use crate::fixed::fx_mul_val;
use crate::fixed::lemma_fx_mul_val_bounds;
use crate::fixed::lemma_trunc_div_le_factor;
use crate::fixed::SCALE;
use crate::matrix::look_at_rh;
use crate::matrix::look_at_val;
use crate::matrix::perspective_apply;
use crate::matrix::perspective_apply_val;
use crate::matrix::Mat4Fx;
use crate::trig::angle_mod_val;
use crate::trig::cos_fx;
use crate::trig::cos_fx_val;
use crate::trig::reduce_angle;
use crate::trig::sin_fx;
use crate::trig::sin_fx_val;
use crate::trig::QUARTER_FX;
use crate::trig::TAU_FX;
use crate::vec3::in_world;
use crate::vec3::normalize;
use crate::vec3::normalize_val;
use crate::vec3::norm_sq_val;
use crate::vec3::Vec3Fx;
use crate::vec3::WORLD_LIMIT_FX;
use vstd::prelude::*;

verus! {

/// Micro-radians of look per micro-pixel of mouse travel (`0.002`).
pub const MOUSE_SENSITIVITY_FX: i64 = 2_000;

/// Pitch is kept this far inside the vertical, in micro-radians (`1.4`).
pub const PITCH_LIMIT_FX: i64 = 1_400_000;

/// Free-fly speed in micro-units per second (`10.0`).
pub const MOVE_SPEED_FX: i64 = 10_000_000;

/// Closest orbit distance, in micro-units (`3.0`).
pub const MIN_RADIUS_FX: i64 = 3_000_000;

/// Farthest orbit distance, in micro-units (`500.0`).
pub const MAX_RADIUS_FX: i64 = 500_000_000;

/// Zoom applied per micro-line of scroll (`0.15`).
pub const ZOOM_SPEED_FX: i64 = 150_000;

/// Ship flight speed in micro-units per second (`40.0`).
pub const SHIP_SPEED_FX: i64 = 40_000_000;

/// Ship turn rate in micro-radians per second (`2.0`).
pub const SHIP_TURN_SPEED_FX: i64 = 2_000_000;

/// The chase camera sits this far behind the ship (`3.0`).
pub const CHASE_BACK_FX: i64 = 3_000_000;

/// ... and this far above it (`1.0`).
pub const CHASE_UP_FX: i64 = 1_000_000;

/// ... aiming this far ahead of it (`100.0`).
pub const CHASE_AHEAD_FX: i64 = 100_000_000;

/// Longest tick the controller accepts, in micro-seconds (1000 seconds).
pub const MAX_DT_FX: i64 = 1_000_000_000;

/// Largest mouse or scroll delta accepted per tick, in micro-pixels.
pub const MAX_INPUT_FX: i64 = 1_000_000_000_000;

/// A key event already mapped to its logical role: a printable character or
/// one of the arrow keys; anything else is `Other` and is ignored.
#[derive(Clone, Copy, PartialEq, Eq, Structural, Debug)]
pub enum CameraKey {
    Character(char),
    ArrowUp,
    ArrowDown,
    ArrowLeft,
    ArrowRight,
    Other,
}

/// The ship's orientation: yaw and pitch in micro-radians.
#[derive(Clone, Copy, PartialEq, Eq, Structural, Debug)]
pub struct ShipRot {
    pub yaw: i64,
    pub pitch: i64,
}

/// The orbit camera's state together with the input intents it accumulates.
#[derive(Clone, Copy, PartialEq, Eq, Structural, Debug)]
pub struct Camera {
    pub yaw: i64,
    pub pitch: i64,
    pub radius: i64,
    pub target: Vec3Fx,
    pub move_forward: bool,
    pub move_backward: bool,
    pub move_left: bool,
    pub move_right: bool,
    pub ship_move_forward: bool,
    pub ship_move_backward: bool,
    pub ship_turn_left: bool,
    pub ship_turn_right: bool,
    pub ship_turn_up: bool,
    pub ship_turn_down: bool,
    pub ship_view: bool,
}

/// The camera states the controller preserves: yaw folded into one turn,
/// pitch clear of the vertical, radius between the zoom stops, target inside
/// the world cube.
pub open spec fn camera_wf(c: Camera) -> bool {
    &&& 0 <= c.yaw < TAU_FX
    &&& -PITCH_LIMIT_FX <= c.pitch <= PITCH_LIMIT_FX
    &&& MIN_RADIUS_FX <= c.radius <= MAX_RADIUS_FX
    &&& in_world(c.target)
}

/// A ship orientation the controller preserves: yaw folded into one turn,
/// pitch within a quarter turn of level.
pub open spec fn ship_rot_wf(r: ShipRot) -> bool {
    &&& 0 <= r.yaw < TAU_FX
    &&& -QUARTER_FX <= r.pitch <= QUARTER_FX
}

/// The summed movement direction of the active intents, each a unit vector
/// in the yaw-rotated horizontal plane: forward along the yaw heading,
/// strafing a quarter turn to either side.
pub open spec fn move_dir_val(yaw: int, f: bool, b: bool, l: bool, r: bool) -> Vec3Fx {
    let x: int = (if f {
        cos_fx_val(yaw)
    } else {
        0
    }) - (if b {
        cos_fx_val(yaw)
    } else {
        0
    }) + (if l {
        cos_fx_val(yaw + QUARTER_FX)
    } else {
        0
    }) + (if r {
        cos_fx_val(yaw - QUARTER_FX)
    } else {
        0
    });
    let z: int = (if f {
        sin_fx_val(yaw)
    } else {
        0
    }) - (if b {
        sin_fx_val(yaw)
    } else {
        0
    }) + (if l {
        sin_fx_val(yaw + QUARTER_FX)
    } else {
        0
    }) + (if r {
        sin_fx_val(yaw - QUARTER_FX)
    } else {
        0
    });
    Vec3Fx { x: x as i64, y: 0, z: z as i64 }
}

/// The target the active intents propose: the normalized movement direction
/// scaled by speed and tick length, added to the current target and held
/// inside the world cube.
pub open spec fn proposed_target_val(cam: Camera, new_yaw: int, dt: int) -> Vec3Fx {
    let d = move_dir_val(new_yaw, cam.move_forward, cam.move_backward, cam.move_left,
        cam.move_right);
    let n = normalize_val(d);
    let step: int = fx_mul_val(MOVE_SPEED_FX as int, dt);
    Vec3Fx {
        x: clamp_val(
            cam.target.x + fx_mul_val(n.x as int, step),
            -WORLD_LIMIT_FX as int,
            WORLD_LIMIT_FX as int,
        ) as i64,
        y: clamp_val(
            cam.target.y + fx_mul_val(n.y as int, step),
            -WORLD_LIMIT_FX as int,
            WORLD_LIMIT_FX as int,
        ) as i64,
        z: clamp_val(
            cam.target.z + fx_mul_val(n.z as int, step),
            -WORLD_LIMIT_FX as int,
            WORLD_LIMIT_FX as int,
        ) as i64,
    }
}

/// Where the target ends up after one tick: unchanged when no intent is
/// active, unchanged when the proposal collides, otherwise the proposal.
pub open spec fn advanced_target_val(
    cam: Camera,
    new_yaw: int,
    dt: int,
    spheres: Seq<CollisionSphere>,
) -> Vec3Fx {
    let d = move_dir_val(new_yaw, cam.move_forward, cam.move_backward, cam.move_left,
        cam.move_right);
    if d == (Vec3Fx { x: 0, y: 0, z: 0 }) {
        cam.target
    } else {
        let cand = proposed_target_val(cam, new_yaw, dt);
        if collides(cand, spheres) {
            cam.target
        } else {
            cand
        }
    }
}

/// A proposal that collides leaves the target exactly where it was.
pub proof fn lemma_collision_rejects_move(
    cam: Camera,
    new_yaw: int,
    dt: int,
    spheres: Seq<CollisionSphere>,
)
    requires
        collides(proposed_target_val(cam, new_yaw, dt), spheres),
    ensures
        advanced_target_val(cam, new_yaw, dt, spheres) == cam.target,
{
}

/// The eye of the orbit camera: `radius` away from the target along the
/// direction given by yaw and pitch.
pub open spec fn eye_pos_val(c: Camera) -> Vec3Fx {
    let cy: int = cos_fx_val(c.yaw as int);
    let sy: int = sin_fx_val(c.yaw as int);
    let cp: int = cos_fx_val(c.pitch as int);
    let sp: int = sin_fx_val(c.pitch as int);
    Vec3Fx {
        x: (c.target.x + fx_mul_val(c.radius as int, fx_mul_val(cy, cp))) as i64,
        y: (c.target.y + fx_mul_val(c.radius as int, sp)) as i64,
        z: (c.target.z + fx_mul_val(c.radius as int, fx_mul_val(sy, cp))) as i64,
    }
}

/// The full orbit-camera transform: perspective over the look-at view from
/// the derived eye toward the target.
pub open spec fn view_proj_val(c: Camera, aspect: int) -> Mat4Fx {
    perspective_apply_val(look_at_val(eye_pos_val(c), c.target), aspect)
}

/// The unit vector the ship's rotation points along.
pub open spec fn ship_forward_val(rot: ShipRot) -> Vec3Fx {
    let cy: int = cos_fx_val(rot.yaw as int);
    let sy: int = sin_fx_val(rot.yaw as int);
    let cp: int = cos_fx_val(rot.pitch as int);
    let sp: int = sin_fx_val(rot.pitch as int);
    Vec3Fx {
        x: fx_mul_val(cy, cp) as i64,
        y: sp as i64,
        z: fx_mul_val(sy, cp) as i64,
    }
}

/// The chase-view transform: the eye sits behind and above the ship and
/// aims far ahead along its forward vector.
pub open spec fn ship_view_proj_val(pos: Vec3Fx, rot: ShipRot, aspect: int) -> Mat4Fx {
    let fwd = ship_forward_val(rot);
    let eye = Vec3Fx {
        x: (pos.x - fx_mul_val(fwd.x as int, CHASE_BACK_FX as int)) as i64,
        y: (pos.y - fx_mul_val(fwd.y as int, CHASE_BACK_FX as int) + CHASE_UP_FX) as i64,
        z: (pos.z - fx_mul_val(fwd.z as int, CHASE_BACK_FX as int)) as i64,
    };
    let center = Vec3Fx {
        x: (pos.x + fx_mul_val(fwd.x as int, CHASE_AHEAD_FX as int)) as i64,
        y: (pos.y + fx_mul_val(fwd.y as int, CHASE_AHEAD_FX as int)) as i64,
        z: (pos.z + fx_mul_val(fwd.z as int, CHASE_AHEAD_FX as int)) as i64,
    };
    perspective_apply_val(look_at_val(eye, center), aspect)
}

/// The ship's rotation after one tick of the active turn intents: turns at
/// the fixed rate, pitch stopped at a quarter turn either way, the up intent
/// applied before the down intent.
pub open spec fn ship_rot_next_val(c: Camera, rot: ShipRot, dt: int) -> ShipRot {
    let turn: int = fx_mul_val(SHIP_TURN_SPEED_FX as int, dt);
    let yaw1: int = rot.yaw + (if c.ship_turn_left {
        turn
    } else {
        0
    }) - (if c.ship_turn_right {
        turn
    } else {
        0
    });
    let p1: int = if c.ship_turn_up {
        if rot.pitch + turn <= QUARTER_FX {
            rot.pitch + turn
        } else {
            QUARTER_FX as int
        }
    } else {
        rot.pitch as int
    };
    let p2: int = if c.ship_turn_down {
        if p1 - turn >= -QUARTER_FX {
            p1 - turn
        } else {
            -QUARTER_FX as int
        }
    } else {
        p1
    };
    ShipRot { yaw: angle_mod_val(yaw1) as i64, pitch: p2 as i64 }
}

/// The ship's position after one tick: translated along the freshly turned
/// forward vector at flight speed, held inside the world cube.
pub open spec fn ship_pos_next_val(pos: Vec3Fx, rot: ShipRot, dt: int) -> Vec3Fx {
    let fwd = ship_forward_val(rot);
    let step: int = fx_mul_val(SHIP_SPEED_FX as int, dt);
    Vec3Fx {
        x: clamp_val(
            pos.x + fx_mul_val(fwd.x as int, step),
            -WORLD_LIMIT_FX as int,
            WORLD_LIMIT_FX as int,
        ) as i64,
        y: clamp_val(
            pos.y + fx_mul_val(fwd.y as int, step),
            -WORLD_LIMIT_FX as int,
            WORLD_LIMIT_FX as int,
        ) as i64,
        z: clamp_val(
            pos.z + fx_mul_val(fwd.z as int, step),
            -WORLD_LIMIT_FX as int,
            WORLD_LIMIT_FX as int,
        ) as i64,
    }
}

impl Camera {
    /// The startup camera: level yaw, a slight downward pitch, twenty units
    /// out, orbiting the origin, no intents active, free view.
    pub fn new() -> (c: Camera)
        ensures
            c.yaw == 0,
            c.pitch == -200_000,
            c.radius == 20_000_000,
            c.target == (Vec3Fx { x: 0, y: 0, z: 0 }),
            !c.move_forward && !c.move_backward && !c.move_left && !c.move_right,
            !c.ship_move_forward && !c.ship_move_backward,
            !c.ship_turn_left && !c.ship_turn_right && !c.ship_turn_up && !c.ship_turn_down,
            !c.ship_view,
            camera_wf(c),
    {
        Camera {
            yaw: 0,
            pitch: -200_000,
            radius: 20_000_000,
            target: Vec3Fx { x: 0, y: 0, z: 0 },
            move_forward: false,
            move_backward: false,
            move_left: false,
            move_right: false,
            ship_move_forward: false,
            ship_move_backward: false,
            ship_turn_left: false,
            ship_turn_right: false,
            ship_turn_up: false,
            ship_turn_down: false,
            ship_view: false,
        }
    }

    /// Map one key event to its intent flag. `w`/`s`/`a`/`d` drive the
    /// free-fly intents, `v` toggles the view on press, the arrows drive the
    /// ship turn intents; everything else is ignored.
    pub fn process_key(&mut self, key: CameraKey, pressed: bool)
        ensures
            final(self).move_forward == (if key == CameraKey::Character('w') || key
                == CameraKey::Character('W') {
                pressed
            } else {
                old(self).move_forward
            }),
            final(self).move_backward == (if key == CameraKey::Character('s') || key
                == CameraKey::Character('S') {
                pressed
            } else {
                old(self).move_backward
            }),
            final(self).move_left == (if key == CameraKey::Character('a') || key
                == CameraKey::Character('A') {
                pressed
            } else {
                old(self).move_left
            }),
            final(self).move_right == (if key == CameraKey::Character('d') || key
                == CameraKey::Character('D') {
                pressed
            } else {
                old(self).move_right
            }),
            final(self).ship_view == (if (key == CameraKey::Character('v') || key
                == CameraKey::Character('V')) && pressed {
                !old(self).ship_view
            } else {
                old(self).ship_view
            }),
            final(self).ship_turn_up == (if key == CameraKey::ArrowUp {
                pressed
            } else {
                old(self).ship_turn_up
            }),
            final(self).ship_turn_down == (if key == CameraKey::ArrowDown {
                pressed
            } else {
                old(self).ship_turn_down
            }),
            final(self).ship_turn_left == (if key == CameraKey::ArrowLeft {
                pressed
            } else {
                old(self).ship_turn_left
            }),
            final(self).ship_turn_right == (if key == CameraKey::ArrowRight {
                pressed
            } else {
                old(self).ship_turn_right
            }),
            final(self).yaw == old(self).yaw,
            final(self).pitch == old(self).pitch,
            final(self).radius == old(self).radius,
            final(self).target == old(self).target,
            final(self).ship_move_forward == old(self).ship_move_forward,
            final(self).ship_move_backward == old(self).ship_move_backward,
    {
        match key {
            CameraKey::Character(c) => {
                match c {
                    'w' | 'W' => {
                        self.move_forward = pressed;
                    },
                    's' | 'S' => {
                        self.move_backward = pressed;
                    },
                    'a' | 'A' => {
                        self.move_left = pressed;
                    },
                    'd' | 'D' => {
                        self.move_right = pressed;
                    },
                    'v' | 'V' => {
                        if pressed {
                            self.ship_view = !self.ship_view;
                        }
                    },
                    _ => {},
                }
            },
            CameraKey::ArrowUp => {
                self.ship_turn_up = pressed;
            },
            CameraKey::ArrowDown => {
                self.ship_turn_down = pressed;
            },
            CameraKey::ArrowLeft => {
                self.ship_turn_left = pressed;
            },
            CameraKey::ArrowRight => {
                self.ship_turn_right = pressed;
            },
            CameraKey::Other => {},
        }
    }

    /// Zoom by one scroll step: the radius moves against the scroll at the
    /// zoom speed and is held between the stops, whatever the input.
    pub fn adjust_radius(&mut self, scroll: i64)
        requires
            camera_wf(*old(self)),
            -MAX_INPUT_FX <= scroll <= MAX_INPUT_FX,
        ensures
            final(self).radius == clamp_val(
                old(self).radius - fx_mul_val(scroll as int, ZOOM_SPEED_FX as int),
                MIN_RADIUS_FX as int,
                MAX_RADIUS_FX as int,
            ),
            MIN_RADIUS_FX <= final(self).radius <= MAX_RADIUS_FX,
            camera_wf(*final(self)),
            *final(self) == (Camera { radius: final(self).radius, ..*old(self) }),
    {
        proof {
            lemma_fx_mul_val_bounds(
                scroll as int,
                ZOOM_SPEED_FX as int,
                MAX_INPUT_FX as int,
                ZOOM_SPEED_FX as int,
            );
            assert((MAX_INPUT_FX as int * ZOOM_SPEED_FX as int) / (SCALE as int)
                == 150_000_000_000) by (nonlinear_arith);
        }
        let delta: i64 = fx_mul(scroll, ZOOM_SPEED_FX);
        self.radius = clamp_fx(self.radius - delta, MIN_RADIUS_FX, MAX_RADIUS_FX);
    }

    /// One tick of mouse look and free-fly movement. Yaw and pitch follow
    /// the mouse at the fixed sensitivity, pitch clamped inside the
    /// vertical; the summed movement intents, when any, propose a new
    /// target which is committed only if the collision detector accepts it.
    #[verifier::rlimit(100)]
    pub fn update_from_input(
        &mut self,
        dt: i64,
        mouse_dx: i64,
        mouse_dy: i64,
        spheres: &Vec<CollisionSphere>,
    )
        requires
            camera_wf(*old(self)),
            0 <= dt <= MAX_DT_FX,
            -MAX_INPUT_FX <= mouse_dx <= MAX_INPUT_FX,
            -MAX_INPUT_FX <= mouse_dy <= MAX_INPUT_FX,
            forall|i: int| 0 <= i < spheres@.len() ==> sphere_wf(spheres@[i]),
        ensures
            final(self).yaw == angle_mod_val(
                old(self).yaw - fx_mul_val(mouse_dx as int, MOUSE_SENSITIVITY_FX as int),
            ),
            final(self).pitch == clamp_val(
                old(self).pitch - fx_mul_val(mouse_dy as int, MOUSE_SENSITIVITY_FX as int),
                -PITCH_LIMIT_FX as int,
                PITCH_LIMIT_FX as int,
            ),
            -PITCH_LIMIT_FX <= final(self).pitch <= PITCH_LIMIT_FX,
            final(self).target == advanced_target_val(
                *old(self),
                final(self).yaw as int,
                dt as int,
                spheres@,
            ),
            final(self).radius == old(self).radius,
            final(self).move_forward == old(self).move_forward,
            final(self).move_backward == old(self).move_backward,
            final(self).move_left == old(self).move_left,
            final(self).move_right == old(self).move_right,
            final(self).ship_move_forward == old(self).ship_move_forward,
            final(self).ship_move_backward == old(self).ship_move_backward,
            final(self).ship_turn_left == old(self).ship_turn_left,
            final(self).ship_turn_right == old(self).ship_turn_right,
            final(self).ship_turn_up == old(self).ship_turn_up,
            final(self).ship_turn_down == old(self).ship_turn_down,
            final(self).ship_view == old(self).ship_view,
            camera_wf(*final(self)),
    {
        proof {
            lemma_fx_mul_val_bounds(
                mouse_dx as int,
                MOUSE_SENSITIVITY_FX as int,
                MAX_INPUT_FX as int,
                MOUSE_SENSITIVITY_FX as int,
            );
            lemma_fx_mul_val_bounds(
                mouse_dy as int,
                MOUSE_SENSITIVITY_FX as int,
                MAX_INPUT_FX as int,
                MOUSE_SENSITIVITY_FX as int,
            );
            assert((MAX_INPUT_FX as int * MOUSE_SENSITIVITY_FX as int) / (SCALE as int)
                == 2_000_000_000) by (nonlinear_arith);
        }
        let delta_yaw: i64 = fx_mul(mouse_dx, MOUSE_SENSITIVITY_FX);
        let delta_pitch: i64 = fx_mul(mouse_dy, MOUSE_SENSITIVITY_FX);
        self.yaw = reduce_angle(self.yaw - delta_yaw);
        self.pitch = clamp_fx(self.pitch - delta_pitch, -PITCH_LIMIT_FX, PITCH_LIMIT_FX);

        let cy: i64 = cos_fx(self.yaw);
        let sy: i64 = sin_fx(self.yaw);
        let cl: i64 = cos_fx(self.yaw + QUARTER_FX);
        let sl: i64 = sin_fx(self.yaw + QUARTER_FX);
        let cr: i64 = cos_fx(self.yaw - QUARTER_FX);
        let sr: i64 = sin_fx(self.yaw - QUARTER_FX);
        let dirx: i64 = (if self.move_forward {
            cy
        } else {
            0
        }) - (if self.move_backward {
            cy
        } else {
            0
        }) + (if self.move_left {
            cl
        } else {
            0
        }) + (if self.move_right {
            cr
        } else {
            0
        });
        let dirz: i64 = (if self.move_forward {
            sy
        } else {
            0
        }) - (if self.move_backward {
            sy
        } else {
            0
        }) + (if self.move_left {
            sl
        } else {
            0
        }) + (if self.move_right {
            sr
        } else {
            0
        });
        let ghost dir_spec = move_dir_val(
            self.yaw as int,
            self.move_forward,
            self.move_backward,
            self.move_left,
            self.move_right,
        );
        let dir = Vec3Fx { x: dirx, y: 0, z: dirz };
        proof {
            assert(dir == dir_spec);
        }
        if dirx != 0 || dirz != 0 {
            proof {
                assert(norm_sq_val(dir) >= 1) by (nonlinear_arith)
                    requires
                        !(dir.x == 0 && dir.z == 0),
                        dir.y == 0,
                        norm_sq_val(dir) == dir.x * dir.x + dir.y * dir.y + dir.z * dir.z,
                ;
            }
            let n = normalize(dir);
            proof {
                lemma_fx_mul_val_bounds(
                    MOVE_SPEED_FX as int,
                    dt as int,
                    MOVE_SPEED_FX as int,
                    MAX_DT_FX as int,
                );
                assert((MOVE_SPEED_FX as int * MAX_DT_FX as int) / (SCALE as int)
                    == 10_000_000_000) by (nonlinear_arith);
            }
            let step: i64 = fx_mul(MOVE_SPEED_FX, dt);
            proof {
                lemma_fx_mul_val_bounds(n.x as int, step as int, SCALE as int, 10_000_000_000);
                lemma_fx_mul_val_bounds(n.y as int, step as int, SCALE as int, 10_000_000_000);
                lemma_fx_mul_val_bounds(n.z as int, step as int, SCALE as int, 10_000_000_000);
                assert((SCALE as int * 10_000_000_000) / (SCALE as int) == 10_000_000_000)
                    by (nonlinear_arith);
            }
            let mx: i64 = fx_mul(n.x, step);
            let my: i64 = fx_mul(n.y, step);
            let mz: i64 = fx_mul(n.z, step);
            let cand = Vec3Fx {
                x: clamp_fx(self.target.x + mx, -WORLD_LIMIT_FX, WORLD_LIMIT_FX),
                y: clamp_fx(self.target.y + my, -WORLD_LIMIT_FX, WORLD_LIMIT_FX),
                z: clamp_fx(self.target.z + mz, -WORLD_LIMIT_FX, WORLD_LIMIT_FX),
            };
            proof {
                assert(cand == proposed_target_val(*old(self), self.yaw as int, dt as int));
            }
            if !check_collision(cand, spheres) {
                self.target = cand;
            }
        }
    }

    /// The eye of the orbit camera, derived from its state.
    pub fn get_eye_pos(&self) -> (eye: Vec3Fx)
        requires
            camera_wf(*self),
        ensures
            eye == eye_pos_val(*self),
            -2_000_000_000_000 <= eye.x <= 2_000_000_000_000,
            -2_000_000_000_000 <= eye.y <= 2_000_000_000_000,
            -2_000_000_000_000 <= eye.z <= 2_000_000_000_000,
    {
        let cy: i64 = cos_fx(self.yaw);
        let sy: i64 = sin_fx(self.yaw);
        let cp: i64 = cos_fx(self.pitch);
        let sp: i64 = sin_fx(self.pitch);
        proof {
            lemma_fx_mul_val_bounds(cy as int, cp as int, SCALE as int, SCALE as int);
            lemma_fx_mul_val_bounds(sy as int, cp as int, SCALE as int, SCALE as int);
            assert((SCALE as int * SCALE as int) / (SCALE as int) == SCALE) by (nonlinear_arith);
            lemma_fx_mul_val_bounds(
                self.radius as int,
                fx_mul_val(cy as int, cp as int),
                MAX_RADIUS_FX as int,
                SCALE as int,
            );
            lemma_fx_mul_val_bounds(
                self.radius as int,
                sp as int,
                MAX_RADIUS_FX as int,
                SCALE as int,
            );
            lemma_fx_mul_val_bounds(
                self.radius as int,
                fx_mul_val(sy as int, cp as int),
                MAX_RADIUS_FX as int,
                SCALE as int,
            );
            assert((MAX_RADIUS_FX as int * SCALE as int) / (SCALE as int) == MAX_RADIUS_FX)
                by (nonlinear_arith);
        }
        Vec3Fx {
            x: self.target.x + fx_mul(self.radius, fx_mul(cy, cp)),
            y: self.target.y + fx_mul(self.radius, sp),
            z: self.target.z + fx_mul(self.radius, fx_mul(sy, cp)),
        }
    }

    /// The orbit-camera view-projection transform for the given aspect
    /// ratio (width over height, in micro-units).
    pub fn view_proj(&self, aspect: i64) -> (m: Mat4Fx)
        requires
            camera_wf(*self),
            1_000 <= aspect <= 1_000_000_000,
        ensures
            m == view_proj_val(*self, aspect as int),
    {
        let eye = self.get_eye_pos();
        let view = look_at_rh(eye, self.target);
        perspective_apply(view, aspect)
    }

    /// The chase-view transform from behind the ship.
    pub fn view_proj_from_ship(&self, ship_pos: Vec3Fx, ship_rot: ShipRot, aspect: i64) -> (m:
        Mat4Fx)
        requires
            in_world(ship_pos),
            ship_rot_wf(ship_rot),
            1_000 <= aspect <= 1_000_000_000,
        ensures
            m == ship_view_proj_val(ship_pos, ship_rot, aspect as int),
    {
        let fwd = ship_forward(ship_rot);
        proof {
            lemma_fx_mul_val_bounds(fwd.x as int, CHASE_BACK_FX as int, SCALE as int, CHASE_BACK_FX as int);
            lemma_fx_mul_val_bounds(fwd.y as int, CHASE_BACK_FX as int, SCALE as int, CHASE_BACK_FX as int);
            lemma_fx_mul_val_bounds(fwd.z as int, CHASE_BACK_FX as int, SCALE as int, CHASE_BACK_FX as int);
            lemma_fx_mul_val_bounds(fwd.x as int, CHASE_AHEAD_FX as int, SCALE as int, CHASE_AHEAD_FX as int);
            lemma_fx_mul_val_bounds(fwd.y as int, CHASE_AHEAD_FX as int, SCALE as int, CHASE_AHEAD_FX as int);
            lemma_fx_mul_val_bounds(fwd.z as int, CHASE_AHEAD_FX as int, SCALE as int, CHASE_AHEAD_FX as int);
            assert((SCALE as int * CHASE_BACK_FX as int) / (SCALE as int) == CHASE_BACK_FX
                && (SCALE as int * CHASE_AHEAD_FX as int) / (SCALE as int) == CHASE_AHEAD_FX)
                by (nonlinear_arith);
        }
        let eye = Vec3Fx {
            x: ship_pos.x - fx_mul(fwd.x, CHASE_BACK_FX),
            y: ship_pos.y - fx_mul(fwd.y, CHASE_BACK_FX) + CHASE_UP_FX,
            z: ship_pos.z - fx_mul(fwd.z, CHASE_BACK_FX),
        };
        let center = Vec3Fx {
            x: ship_pos.x + fx_mul(fwd.x, CHASE_AHEAD_FX),
            y: ship_pos.y + fx_mul(fwd.y, CHASE_AHEAD_FX),
            z: ship_pos.z + fx_mul(fwd.z, CHASE_AHEAD_FX),
        };
        let view = look_at_rh(eye, center);
        perspective_apply(view, aspect)
    }

    /// One tick of ship flight: turn by the active arrow intents at the
    /// fixed rate, pitch stopped a quarter turn from level, then fly along
    /// the new forward vector at flight speed.
    pub fn update_player_ship(&self, dt: i64, ship_pos: &mut Vec3Fx, ship_rot: &mut ShipRot)
        requires
            0 <= dt <= MAX_DT_FX,
            in_world(*old(ship_pos)),
            ship_rot_wf(*old(ship_rot)),
        ensures
            *final(ship_rot) == ship_rot_next_val(*self, *old(ship_rot), dt as int),
            *final(ship_pos) == ship_pos_next_val(
                *old(ship_pos),
                ship_rot_next_val(*self, *old(ship_rot), dt as int),
                dt as int,
            ),
            ship_rot_wf(*final(ship_rot)),
            in_world(*final(ship_pos)),
    {
        proof {
            lemma_fx_mul_val_bounds(
                SHIP_TURN_SPEED_FX as int,
                dt as int,
                SHIP_TURN_SPEED_FX as int,
                MAX_DT_FX as int,
            );
            assert((SHIP_TURN_SPEED_FX as int * MAX_DT_FX as int) / (SCALE as int)
                == 2_000_000_000) by (nonlinear_arith);
        }
        let turn: i64 = fx_mul(SHIP_TURN_SPEED_FX, dt);
        let mut yaw1: i64 = ship_rot.yaw;
        if self.ship_turn_left {
            yaw1 = yaw1 + turn;
        }
        if self.ship_turn_right {
            yaw1 = yaw1 - turn;
        }
        let mut pitch1: i64 = ship_rot.pitch;
        if self.ship_turn_up {
            let raised: i64 = pitch1 + turn;
            pitch1 = if raised <= QUARTER_FX {
                raised
            } else {
                QUARTER_FX
            };
        }
        if self.ship_turn_down {
            let lowered: i64 = pitch1 - turn;
            pitch1 = if lowered >= -QUARTER_FX {
                lowered
            } else {
                -QUARTER_FX
            };
        }
        let rot2 = ShipRot { yaw: reduce_angle(yaw1), pitch: pitch1 };
        proof {
            assert(rot2 == ship_rot_next_val(*self, *old(ship_rot), dt as int));
        }
        let fwd = ship_forward(rot2);
        proof {
            lemma_fx_mul_val_bounds(
                SHIP_SPEED_FX as int,
                dt as int,
                SHIP_SPEED_FX as int,
                MAX_DT_FX as int,
            );
            assert((SHIP_SPEED_FX as int * MAX_DT_FX as int) / (SCALE as int) == 40_000_000_000)
                by (nonlinear_arith);
        }
        let step: i64 = fx_mul(SHIP_SPEED_FX, dt);
        proof {
            lemma_fx_mul_val_bounds(fwd.x as int, step as int, SCALE as int, 40_000_000_000);
            lemma_fx_mul_val_bounds(fwd.y as int, step as int, SCALE as int, 40_000_000_000);
            lemma_fx_mul_val_bounds(fwd.z as int, step as int, SCALE as int, 40_000_000_000);
            assert((SCALE as int * 40_000_000_000) / (SCALE as int) == 40_000_000_000)
                by (nonlinear_arith);
        }
        let new_pos = Vec3Fx {
            x: clamp_fx(ship_pos.x + fx_mul(fwd.x, step), -WORLD_LIMIT_FX, WORLD_LIMIT_FX),
            y: clamp_fx(ship_pos.y + fx_mul(fwd.y, step), -WORLD_LIMIT_FX, WORLD_LIMIT_FX),
            z: clamp_fx(ship_pos.z + fx_mul(fwd.z, step), -WORLD_LIMIT_FX, WORLD_LIMIT_FX),
        };
        *ship_rot = rot2;
        *ship_pos = new_pos;
    }
}

/// The unit vector along the ship's orientation.
pub fn ship_forward(rot: ShipRot) -> (fwd: Vec3Fx)
    requires
        rot.yaw > i64::MIN,
        rot.pitch > i64::MIN,
    ensures
        fwd == ship_forward_val(rot),
        -SCALE <= fwd.x <= SCALE,
        -SCALE <= fwd.y <= SCALE,
        -SCALE <= fwd.z <= SCALE,
{
    let cy: i64 = cos_fx(rot.yaw);
    let sy: i64 = sin_fx(rot.yaw);
    let cp: i64 = cos_fx(rot.pitch);
    let sp: i64 = sin_fx(rot.pitch);
    proof {
        lemma_fx_mul_val_bounds(cy as int, cp as int, SCALE as int, SCALE as int);
        lemma_fx_mul_val_bounds(sy as int, cp as int, SCALE as int, SCALE as int);
        assert((SCALE as int * SCALE as int) / (SCALE as int) == SCALE) by (nonlinear_arith);
    }
    Vec3Fx { x: fx_mul(cy, cp), y: sp, z: fx_mul(sy, cp) }
}

} // verus!
