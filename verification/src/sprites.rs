//! How a sprite sheet is laid out, and which way a moving sprite faces.
//!
//! A sheet holds one row of frames for each direction; the frames of one
//! walk cycle stand side by side in their row.

use vstd::prelude::*;
use crate::direction::Direction;
use crate::geometry::Point;

verus! {

/// Number of rows on a sheet: one for each direction.
pub const ROW_COUNT: i32 = 4;

/// The row of the sheet that holds the frames for `direction`, counted from
/// the top.
pub open spec fn sheet_row(direction: Direction) -> int {
    match direction {
        Direction::Down => 0,
        Direction::Left => 1,
        Direction::Right => 2,
        Direction::Up => 3,
    }
}

/// The direction a sprite with the given velocity faces, if it moves at all.
/// Vertical movement decides wherever there is any: a sprite that moves
/// diagonally faces up or down, never sideways.
pub open spec fn heading(vx: int, vy: int) -> Option<Direction> {
    if vy > 0 {
        Some(Direction::Down)
    } else if vy < 0 {
        Some(Direction::Up)
    } else if vx > 0 {
        Some(Direction::Right)
    } else if vx < 0 {
        Some(Direction::Left)
    } else {
        None
    }
}

/// The row of the sheet that holds the frames for `direction`.
pub fn direction_sprite_sheet_row(direction: Direction) -> (row: i32)
    ensures
        row == sheet_row(direction),
        0 <= row < ROW_COUNT,
{
    match direction {
        Direction::Down => 0,
        Direction::Left => 1,
        Direction::Right => 2,
        Direction::Up => 3,
    }
}

/// The direction a sprite with this velocity faces: `None` exactly when it
/// stands still.
pub fn direction_from_velocity(velocity: &Point) -> (d: Option<Direction>)
    ensures
        d == heading(velocity.x as int, velocity.y as int),
        velocity.y > 0 ==> d == Some(Direction::Down),
        velocity.y < 0 ==> d == Some(Direction::Up),
        velocity.y == 0 && velocity.x > 0 ==> d == Some(Direction::Right),
        velocity.y == 0 && velocity.x < 0 ==> d == Some(Direction::Left),
        d is None <==> velocity.is_zero(),
{
    if velocity.y > 0 {
        Some(Direction::Down)
    } else if velocity.y < 0 {
        Some(Direction::Up)
    } else if velocity.x > 0 {
        Some(Direction::Right)
    } else if velocity.x < 0 {
        Some(Direction::Left)
    } else {
        None
    }
}

/// No two directions share a row of the sheet.
pub proof fn lemma_rows_are_distinct(a: Direction, b: Direction)
    ensures
        sheet_row(a) == sheet_row(b) <==> a == b,
{
}

/// A sprite that moves up or down at all faces that way, whatever its
/// horizontal speed.
pub proof fn lemma_vertical_movement_decides(vx: int, vy: int)
    requires
        vy != 0,
    ensures
        heading(vx, vy) == Some(if vy > 0 { Direction::Down } else { Direction::Up }),
{
}

/// A sprite that moves only sideways faces the way it moves.
pub proof fn lemma_horizontal_movement(vx: int)
    requires
        vx != 0,
    ensures
        heading(vx, 0) == Some(if vx > 0 { Direction::Right } else { Direction::Left }),
{
}

/// Only a sprite that stands still faces no way of its own.
pub proof fn lemma_heading_none_iff_still(vx: int, vy: int)
    ensures
        heading(vx, vy) is None <==> vx == 0 && vy == 0,
{
}

} // verus!
