//! The one actor of the scene.

use vstd::prelude::*;
use crate::direction::Direction;
use crate::geometry::{Point, Rect};

verus! {

/// Number of frames in the walk cycle.
pub const FRAME_COUNT: i32 = 3;

/// A sprite that walks: where it is, how fast it moves, which way it faces
/// and which frame of its walk cycle it shows.
#[derive(Clone, Copy, Debug, PartialEq, Eq, Structural)]
pub struct Player {
    /// Where the sprite's middle is, in world coordinates.
    pub position: Point,
    /// The first frame of the first row on the sheet; its size is the size of
    /// every frame.
    pub sprite: Rect,
    /// How far the sprite moves in one tick.
    pub velocity: Point,
    /// The frame of the walk cycle that is shown.
    pub current_frame: i32,
    /// The way the sprite faces, kept from its last movement while it stands.
    pub facing: Direction,
}

impl Player {
    /// Position, velocity and sprite lie on the grid, and the frame is one of
    /// the walk cycle.
    pub open spec fn wf(self) -> bool {
        &&& self.position.wf()
        &&& self.velocity.wf()
        &&& self.sprite.wf()
        &&& 0 <= self.current_frame < FRAME_COUNT
    }

    /// The player as the scene starts: at the origin, standing, facing down,
    /// on the first frame.
    pub open spec fn spec_new(sprite: Rect) -> Player {
        Player {
            position: Point { x: 0, y: 0 },
            sprite,
            velocity: Point { x: 0, y: 0 },
            current_frame: 0,
            facing: Direction::Down,
        }
    }

    /// A player at the origin that stands, faces down and shows the first
    /// frame of the sheet region `sprite`.
    pub fn new(sprite: Rect) -> (p: Player)
        ensures
            p == Player::spec_new(sprite),
            sprite.wf() ==> p.wf(),
    {
        Player {
            position: Point { x: 0, y: 0 },
            sprite,
            velocity: Point { x: 0, y: 0 },
            current_frame: 0,
            facing: Direction::Down,
        }
    }

    /// Tells whether this player is well formed.
    pub fn is_wf(&self) -> (b: bool)
        ensures
            b == self.wf(),
    {
        self.position.is_wf() && self.velocity.is_wf() && self.sprite.is_wf() && 0
            <= self.current_frame && self.current_frame < FRAME_COUNT
    }
}

} // verus!
