//! A first-person "view model" camera rig, modelled in fixed-point arithmetic.
//!
//! Lengths are held in micro-units (one unit = 1_000_000), angles in
//! microradians.  The crate provides the scene spawner (a player rig carrying
//! a world camera and a close-up view-model camera, static floor and cube
//! geometry, lights), the per-frame camera-control systems (mouse-look with a
//! pitch clamp, normalized keyboard movement, zoom with a clamped projection
//! parameter), and an explicit schedule that a game-loop driver steps once
//! per frame.

pub mod angle;
pub mod fixed;
pub mod movement;
pub mod orientation;
pub mod projection;
pub mod scene;
pub mod schedule;
pub mod systems;
pub mod trig;
