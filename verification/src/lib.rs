//! Rules of a small top-down arena game: the level grid and the pieces that
//! furnish it, the camera-view state machine and the input decisions of the
//! game's systems. The engine-facing program around it lives outside this crate.

pub mod aim_system;
pub mod camera;
pub mod chance;
pub mod debug_physics;
pub mod layout;
pub mod level;
pub mod mesh_loader;
pub mod movement;
pub mod view_system;
