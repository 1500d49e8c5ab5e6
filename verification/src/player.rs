//! The player: the one body that input, gravity and collisions act on.

use vstd::prelude::*;
use crate::geometry::{Transform, TransformView, Vector, VectorView};

verus! {

/// The state of the player. There is exactly one, held by value, so no
/// function has to look it up or can find none.
#[derive(Clone, Copy, Debug, PartialEq, Eq, Structural)]
pub struct Player {
    pub transform: Transform,
    pub velocity: Vector,
    /// Kept for a later use; only a collision from a side other than the top
    /// ever writes it, and it writes `false`.
    pub jump: bool,
    /// A dash is available. Spent by dashing, refilled by landing.
    pub dash: bool,
    /// The last collision pass found the player standing on something.
    pub grounded: bool,
    /// The player has touched a hazard. Nothing in the core reads this.
    pub dead: bool,
}

/// The mathematical value of a [`Player`].
pub struct PlayerView {
    pub transform: TransformView,
    pub velocity: VectorView,
    pub jump: bool,
    pub dash: bool,
    pub grounded: bool,
    pub dead: bool,
}

impl PlayerView {
    pub open spec fn fits(self) -> bool {
        self.transform.fits() && self.velocity.fits()
    }
}

impl View for Player {
    type V = PlayerView;

    open spec fn view(&self) -> PlayerView {
        PlayerView {
            transform: self.transform@,
            velocity: self.velocity@,
            jump: self.jump,
            dash: self.dash,
            grounded: self.grounded,
            dead: self.dead,
        }
    }
}

impl Player {
    /// A player at rest with every flag cleared.
    pub fn new(transform: Transform) -> (p: Player)
        ensures
            p == (Player {
                transform,
                velocity: Vector { x: 0, y: 0 },
                jump: false,
                dash: false,
                grounded: false,
                dead: false,
            }),
    {
        Player {
            transform,
            velocity: Vector { x: 0, y: 0 },
            jump: false,
            dash: false,
            grounded: false,
            dead: false,
        }
    }
}

} // verus!
