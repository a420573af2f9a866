//! Verified simulation core for an orbital solar-system viewer.
//!
//! All world quantities (positions, angles, distances, durations) are held
//! in fixed-point micro-units: an `i64` value of `1_000_000` stands for
//! `1.0`. The rendering layer converts between these integers and the
//! GPU's floats; everything the simulation decides — camera motion,
//! collision response, orbital positions, view transforms, procedural
//! texture bytes — is computed and proved here.
//!
//! The modules follow the parts of the viewer: [`camera`] is the view
//! controller, [`collision`] the collision detector, [`orbit`] the orbital
//! motion engine, [`scene`] the animated solar system, [`texture`] the
//! procedural surface synthesizer, [`frame`] the per-tick orchestrator,
//! and [`fixed`], [`trig`], [`vec3`] and [`matrix`] the fixed-point
//! arithmetic they all share.

pub mod camera;
pub mod collision;
pub mod fixed;
pub mod frame;
pub mod matrix;
pub mod mesh;
pub mod orbit;
pub mod scene;
pub mod spaceship;
pub mod texture;
pub mod trig;
pub mod vec3;
