//! The camera views of the game and the rules by which the player moves
//! between them.

use crate::movement::axis_steps;
use vstd::prelude::*;

verus! {

/// The view through which the game is played.
#[derive(Clone, Copy, Debug, PartialEq, Eq, Structural)]
pub enum ViewKind {
    /// Through the eyes of the character.
    First,
    /// A free camera, detached from the character.
    Fly,
    /// From above and behind the character.
    Third,
}

impl ViewKind {
    /// The view that follows this one when the player switches views: first
    /// person gives way to third person, third person to the free camera, and
    /// the free camera to first person.
    pub open spec fn next(self) -> ViewKind {
        match self {
            ViewKind::First => ViewKind::Third,
            ViewKind::Third => ViewKind::Fly,
            ViewKind::Fly => ViewKind::First,
        }
    }

    /// Whether the systems that belong to view `self` run while the game
    /// shows `view_kind`: they do when the two are the same view.
    pub fn should_run(&self, view_kind: &ViewKind) -> (run: bool)
        ensures
            run == (*view_kind == *self),
    {
        *view_kind == *self
    }
}

/// Switching views three times leads back to the view one started from, and
/// not sooner.
pub proof fn lemma_views_form_one_cycle(view_kind: ViewKind)
    ensures
        view_kind.next() != view_kind,
        view_kind.next().next() != view_kind,
        view_kind.next().next().next() == view_kind,
{
}

/// Moves on to the next view when the switch key (`Insert` or the grave
/// accent) has just gone down, and leaves the view alone otherwise.
pub fn switch_camera_view_system(
    insert_just_pressed: bool,
    grave_just_pressed: bool,
    view_kind: &mut ViewKind,
)
    ensures
        *final(view_kind) == if insert_just_pressed || grave_just_pressed {
            old(view_kind).next()
        } else {
            *old(view_kind)
        },
{
    if insert_just_pressed || grave_just_pressed {
        *view_kind = match *view_kind {
            ViewKind::First => ViewKind::Third,
            ViewKind::Third => ViewKind::Fly,
            ViewKind::Fly => ViewKind::First,
        }
    }
}

/// Whether the third-person systems run while the game shows `view_kind`.
pub fn run_third_person(view_kind: &ViewKind) -> (run: bool)
    ensures
        run == (*view_kind == ViewKind::Third),
{
    ViewKind::Third.should_run(view_kind)
}

/// Whether the first-person systems run while the game shows `view_kind`.
pub fn run_first_person(view_kind: &ViewKind) -> (run: bool)
    ensures
        run == (*view_kind == ViewKind::First),
{
    ViewKind::First.should_run(view_kind)
}

/// How far the camera orbits its focus in one frame, in steps of the orbit
/// angle: `Q` held turns it one step back, `E` held one step on, and the two
/// together cancel.
pub fn orbit_steps(q_pressed: bool, e_pressed: bool) -> (steps: i8)
    ensures
        steps == axis_steps(e_pressed, q_pressed),
{
    let mut steps: i8 = 0;
    if q_pressed {
        steps = steps - 1;
    }
    if e_pressed {
        steps = steps + 1;
    }
    steps
}

} // verus!
