//! The physics debugging keys.

use vstd::prelude::*;

verus! {

/// The two switches of the physics engine that the pause key flips.
#[derive(Clone, Copy, Debug, PartialEq, Eq, Structural)]
pub struct Pipelines {
    pub physics_pipeline_active: bool,
    pub query_pipeline_active: bool,
}

/// Handles the debugging keys of one frame. `P` just pressed flips both
/// pipeline switches, each on its own; otherwise they stay as they are. The
/// result says whether the collider outlines are to be shown from now on,
/// which `;` just pressed asks for.
pub fn debug_physics_system(
    semicolon_just_pressed: bool,
    p_just_pressed: bool,
    pipelines: &mut Pipelines,
) -> (show_colliders: bool)
    ensures
        show_colliders == semicolon_just_pressed,
        final(pipelines).physics_pipeline_active == (old(pipelines).physics_pipeline_active
            != p_just_pressed),
        final(pipelines).query_pipeline_active == (old(pipelines).query_pipeline_active
            != p_just_pressed),
{
    if p_just_pressed {
        pipelines.physics_pipeline_active = !pipelines.physics_pipeline_active;
        pipelines.query_pipeline_active = !pipelines.query_pipeline_active;
    }
    semicolon_just_pressed
}

} // verus!
