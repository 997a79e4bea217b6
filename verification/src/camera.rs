//! The overhead camera rig: when it orbits, and when its free-flight controls
//! come and go.

use crate::movement::axis_steps;
use crate::view_system::orbit_steps;
use vstd::prelude::*;

verus! {

/// The orbit that the held keys ask of the overhead camera, in steps of the
/// orbit angle as `orbit_steps` counts them, or `None` where the camera is to
/// stay as it is: with neither key held, and with both.
pub fn camera_system(q_pressed: bool, e_pressed: bool) -> (orbit: Option<i8>)
    ensures
        orbit == if q_pressed == e_pressed {
            None
        } else {
            Some(axis_steps(e_pressed, q_pressed) as i8)
        },
{
    let steps = orbit_steps(q_pressed, e_pressed);
    if steps != 0 {
        Some(steps)
    } else {
        None
    }
}

/// What happens to the free-flight controls of the overhead camera.
#[derive(Clone, Copy, Debug, PartialEq, Eq, Structural)]
pub enum FlyCamChange {
    /// The camera stays as it is.
    Keep,
    /// The camera loses its free-flight controls.
    Remove,
    /// The camera gains free-flight controls, reset to their defaults.
    Insert,
}

/// Toggles free flight when `Insert` has just gone down: a camera that has the
/// controls loses them and one that lacks them gains them. Without the key
/// nothing changes.
pub fn switch_camera_view_system(insert_just_pressed: bool, has_fly_cam: bool) -> (change:
    FlyCamChange)
    ensures
        change == if !insert_just_pressed {
            FlyCamChange::Keep
        } else if has_fly_cam {
            FlyCamChange::Remove
        } else {
            FlyCamChange::Insert
        },
{
    if insert_just_pressed {
        if has_fly_cam {
            FlyCamChange::Remove
        } else {
            FlyCamChange::Insert
        }
    } else {
        FlyCamChange::Keep
    }
}

} // verus!
