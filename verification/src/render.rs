//! Which part of the sprite sheet is drawn, and where on the screen.
//!
//! The camera stands still: the world's origin is shown in the middle of the
//! viewport, and a sprite is drawn around the point that its position maps
//! to.

use vstd::prelude::*;
use crate::direction::Direction;
use crate::geometry::{
    clamp_position, position_from, Point, Rect, MAX_POSITION, MAX_SIZE, MIN_POSITION,
};
use crate::player::{Player, FRAME_COUNT};
use crate::sprites::{direction_sprite_sheet_row, sheet_row, ROW_COUNT};

verus! {

/// One copy from the sheet to the screen.
#[derive(Clone, Copy, Debug, PartialEq, Eq, Structural)]
pub struct Blit {
    /// The region of the sheet that is read.
    pub source: Rect,
    /// The region of the screen that is drawn to.
    pub target: Rect,
}

/// The region of the sheet that holds frame `frame` of the walk cycle for
/// `facing`, where `base` is the first frame of the first row: `frame`
/// widths to the right of `base` and as many heights below it as the row of
/// `facing` says, with the size of `base`.
pub open spec fn frame_rect(base: Rect, facing: Direction, frame: int) -> Rect {
    Rect::spec_new(
        base.x + frame * base.w,
        base.y + sheet_row(facing) * base.h,
        base.w as int,
        base.h as int,
    )
}

/// The point of the screen that shows the world's point `position`, in a
/// viewport of the given width and height.
pub open spec fn screen_center(position: Point, viewport: (u32, u32)) -> Point {
    position.spec_offset(
        clamp_position(viewport.0 as int / 2),
        clamp_position(viewport.1 as int / 2),
    )
}

/// The region of the screen that a sprite of size `sprite_size` at
/// `position` covers: the rectangle of that size around the point that shows
/// `position`.
pub open spec fn screen_rect(
    position: Point,
    sprite_size: (u32, u32),
    viewport: (u32, u32),
) -> Rect {
    Rect::spec_from_center(
        screen_center(position, viewport),
        sprite_size.0 as int,
        sprite_size.1 as int,
    )
}

/// Two rectangles have no point in common.
pub open spec fn disjoint(a: Rect, b: Rect) -> bool {
    ||| a.x + a.w <= b.x
    ||| b.x + b.w <= a.x
    ||| a.y + a.h <= b.y
    ||| b.y + b.h <= a.y
}

/// The region of the sheet to read for frame `frame` of the walk cycle for
/// `facing`.
pub fn compute_frame_rect(base: Rect, facing: Direction, frame: i32) -> (r: Rect)
    ensures
        r == frame_rect(base, facing, frame as int),
        r.x == clamp_position(base.x + frame * base.w),
        r.y == clamp_position(base.y + sheet_row(facing) * base.h),
        base.wf() ==> r.w == base.w && r.h == base.h,
        r.wf(),
{
    let width: i64 = base.w as i64;
    let height: i64 = base.h as i64;
    let column: i64 = frame as i64;
    let row: i64 = direction_sprite_sheet_row(facing) as i64;
    assert(-0x7FFF_FFFF_8000_0000 <= column * width <= 0x7FFF_FFFE_8000_0001) by (nonlinear_arith)
        requires
            0 <= width <= 0xFFFF_FFFF,
            -0x8000_0000 <= column <= 0x7FFF_FFFF,
    ;
    assert(0 <= row * height <= 0x2_FFFF_FFFD) by (nonlinear_arith)
        requires
            0 <= height <= 0xFFFF_FFFF,
            0 <= row <= 3,
    ;
    let x: i32 = position_from(base.x as i64 + column * width);
    let y: i32 = position_from(base.y as i64 + row * height);
    Rect::new(x, y, base.w, base.h)
}

/// The region of the screen to draw a sprite of size `sprite_size` to, when
/// the sprite is at `position` and the viewport is `viewport.0` wide and
/// `viewport.1` high.
pub fn compute_screen_rect(
    position: Point,
    sprite_size: (u32, u32),
    viewport: (u32, u32),
) -> (r: Rect)
    ensures
        r == screen_rect(position, sprite_size, viewport),
        r.wf(),
{
    let half_width: i32 = (viewport.0 / 2) as i32;
    let half_height: i32 = (viewport.1 / 2) as i32;
    let middle: Point = Point::new(half_width, half_height);
    let center: Point = position.offset(middle.x, middle.y);
    Rect::from_center(center, sprite_size.0, sprite_size.1)
}

/// What to copy to show `player` in a viewport of the given width and
/// height.
pub fn render(player: &Player, viewport: (u32, u32)) -> (blit: Blit)
    ensures
        blit.source == frame_rect(player.sprite, player.facing, player.current_frame as int),
        blit.target == screen_rect(player.position, (player.sprite.w, player.sprite.h), viewport),
        blit.source.wf(),
        blit.target.wf(),
{
    let source: Rect = compute_frame_rect(player.sprite, player.facing, player.current_frame);
    let target: Rect = compute_screen_rect(player.position, player.sprite.size(), viewport);
    Blit { source, target }
}

/// `compute_screen_rect` has no hidden state: whatever it returns for some
/// position, size and viewport, it returns every time.
pub proof fn lemma_screen_rect_is_repeatable(
    position: Point,
    sprite_size: (u32, u32),
    viewport: (u32, u32),
    first: Rect,
    second: Rect,
)
    requires
        call_ensures(compute_screen_rect, (position, sprite_size, viewport), first),
        call_ensures(compute_screen_rect, (position, sprite_size, viewport), second),
    ensures
        first == second,
{
}

/// Where nothing reaches the grid's edge, the frame of column `frame` and of
/// the row of `facing` has the size of `base` and lies that many widths to
/// the right of it and that many heights below it.
pub proof fn lemma_frame_rect_exact(base: Rect, facing: Direction, frame: int)
    requires
        base.wf(),
        MIN_POSITION <= base.x + frame * base.w <= MAX_POSITION,
        base.y + sheet_row(facing) * base.h <= MAX_POSITION,
    ensures
        frame_rect(base, facing, frame).x == base.x + frame * base.w,
        frame_rect(base, facing, frame).y == base.y + sheet_row(facing) * base.h,
        frame_rect(base, facing, frame).w == base.w,
        frame_rect(base, facing, frame).h == base.h,
{
    assert(0 <= sheet_row(facing) * base.h) by (nonlinear_arith)
        requires
            0 <= sheet_row(facing),
            0 <= base.h,
    ;
}

/// The first frame of the row for `Direction::Down` is `base` itself.
pub proof fn lemma_first_frame_is_base(base: Rect)
    requires
        base.wf(),
    ensures
        frame_rect(base, Direction::Down, 0) == base,
{
}

/// On a sheet that lies on the grid, no two frames overlap: frames of one
/// row stand side by side, and rows stand one below the other.
pub proof fn lemma_frames_are_disjoint(
    base: Rect,
    facing_a: Direction,
    frame_a: int,
    facing_b: Direction,
    frame_b: int,
)
    requires
        base.wf(),
        0 <= frame_a < FRAME_COUNT,
        0 <= frame_b < FRAME_COUNT,
        base.x + FRAME_COUNT * base.w <= MAX_POSITION,
        base.y + ROW_COUNT * base.h <= MAX_POSITION,
        facing_a != facing_b || frame_a != frame_b,
    ensures
        disjoint(frame_rect(base, facing_a, frame_a), frame_rect(base, facing_b, frame_b)),
{
    let w: int = base.w as int;
    let h: int = base.h as int;
    let row_a: int = sheet_row(facing_a);
    let row_b: int = sheet_row(facing_b);
    lemma_steps_in_order(w, frame_a, frame_b, FRAME_COUNT as int);
    lemma_steps_in_order(w, frame_b, frame_a, FRAME_COUNT as int);
    lemma_steps_in_order(h, row_a, row_b, ROW_COUNT as int);
    lemma_steps_in_order(h, row_b, row_a, ROW_COUNT as int);
    lemma_frame_rect_exact(base, facing_a, frame_a);
    lemma_frame_rect_exact(base, facing_b, frame_b);
}

/// Every frame of the walk cycle lies on the sheet: within the rows and
/// columns that start at `base`.
pub proof fn lemma_frame_lies_on_sheet(base: Rect, facing: Direction, frame: int)
    requires
        base.wf(),
        0 <= frame < FRAME_COUNT,
        base.x + FRAME_COUNT * base.w <= MAX_POSITION,
        base.y + ROW_COUNT * base.h <= MAX_POSITION,
    ensures
        base.x <= frame_rect(base, facing, frame).x,
        frame_rect(base, facing, frame).x + frame_rect(base, facing, frame).w <= base.x
            + FRAME_COUNT * base.w,
        base.y <= frame_rect(base, facing, frame).y,
        frame_rect(base, facing, frame).y + frame_rect(base, facing, frame).h <= base.y
            + ROW_COUNT * base.h,
{
    lemma_steps_in_order(base.w as int, frame, frame, FRAME_COUNT as int);
    lemma_steps_in_order(base.h as int, sheet_row(facing), sheet_row(facing), ROW_COUNT as int);
    lemma_frame_rect_exact(base, facing, frame);
}

/// Multiples of a positive step: each lies a full step before the next, and
/// none lies beyond the last.
proof fn lemma_steps_in_order(step: int, i: int, j: int, count: int)
    requires
        step > 0,
        0 <= i < count,
        0 <= j < count,
    ensures
        0 <= i * step,
        i * step + step <= count * step,
        i < j ==> i * step + step <= j * step,
{
    assert(0 <= i * step) by (nonlinear_arith)
        requires
            0 <= i,
            step > 0,
    ;
    assert(i * step + step <= count * step) by (nonlinear_arith)
        requires
            i + 1 <= count,
            step > 0,
    ;
    if i < j {
        assert(i * step + step <= j * step) by (nonlinear_arith)
            requires
                i + 1 <= j,
                step > 0,
        ;
    }
}

/// Where nothing reaches the grid's edge, the sprite is drawn with its own
/// size around the middle of the viewport moved by the sprite's position.
pub proof fn lemma_screen_rect_is_centered(
    position: Point,
    sprite_size: (u32, u32),
    viewport: (u32, u32),
)
    requires
        1 <= sprite_size.0 <= MAX_SIZE,
        1 <= sprite_size.1 <= MAX_SIZE,
        viewport.0 / 2 <= MAX_POSITION,
        viewport.1 / 2 <= MAX_POSITION,
        position.x + viewport.0 / 2 <= MAX_POSITION,
        position.y + viewport.1 / 2 <= MAX_POSITION,
        MIN_POSITION <= position.x + viewport.0 / 2 - sprite_size.0 / 2,
        MIN_POSITION <= position.y + viewport.1 / 2 - sprite_size.1 / 2,
    ensures
        screen_rect(position, sprite_size, viewport).w == sprite_size.0,
        screen_rect(position, sprite_size, viewport).h == sprite_size.1,
        screen_rect(position, sprite_size, viewport).x + sprite_size.0 / 2 == position.x
            + viewport.0 / 2,
        screen_rect(position, sprite_size, viewport).y + sprite_size.1 / 2 == position.y
            + viewport.1 / 2,
{
}

} // verus!
