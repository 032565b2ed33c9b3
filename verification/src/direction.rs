//! The four ways a sprite can face.

use vstd::prelude::*;

verus! {

/// A cardinal direction on the screen, where `Down` is towards larger `y`.
#[derive(Clone, Copy, Debug, PartialEq, Eq, Structural)]
pub enum Direction {
    Up,
    Down,
    Left,
    Right,
}

} // verus!
