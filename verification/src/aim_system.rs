//! Aiming with the mouse: in which views the cursor steers the character.

use crate::view_system::ViewKind;
use vstd::prelude::*;

verus! {

/// What the mouse cursor does to the character and its light.
#[derive(Clone, Copy, Debug, PartialEq, Eq, Structural)]
pub enum Aim {
    /// The cursor steers nothing.
    Idle,
    /// The character faces the point of the ground under the cursor, and the
    /// light hovers over that point.
    Ground,
}

/// Picks the aim for the view on screen: only the third-person view aims at
/// the ground under the cursor.
pub fn aim_system(view_kind: &ViewKind) -> (aim: Aim)
    ensures
        aim == if *view_kind == ViewKind::Third {
            Aim::Ground
        } else {
            Aim::Idle
        },
{
    match view_kind {
        ViewKind::First => Aim::Idle,
        ViewKind::Fly => Aim::Idle,
        ViewKind::Third => Aim::Ground,
    }
}

} // verus!
