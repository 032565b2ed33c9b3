//! One tick of the simulation.

use vstd::prelude::*;
use crate::geometry::{clamp_position, MAX_POSITION, MIN_POSITION};
use crate::player::{Player, FRAME_COUNT};
use crate::sprites::{direction_from_velocity, heading};

verus! {

/// The frame that follows `frame` in the walk cycle.
pub open spec fn next_frame(frame: int) -> int {
    (frame + 1) % (FRAME_COUNT as int)
}

impl Player {
    /// This player one tick later. It has moved by its velocity. If it moves,
    /// it faces the way it moves and shows the next frame of the walk cycle;
    /// if it stands, it keeps its facing and its frame.
    pub open spec fn advanced(self) -> Player {
        Player {
            position: self.position.spec_offset(self.velocity.x as int, self.velocity.y as int),
            sprite: self.sprite,
            velocity: self.velocity,
            current_frame: if self.velocity.is_zero() {
                self.current_frame
            } else {
                next_frame(self.current_frame as int) as i32
            },
            facing: match heading(self.velocity.x as int, self.velocity.y as int) {
                Some(direction) => direction,
                None => self.facing,
            },
        }
    }

    /// This player `ticks` ticks later.
    pub open spec fn advanced_by(self, ticks: nat) -> Player
        decreases ticks,
    {
        if ticks == 0 {
            self
        } else {
            self.advanced_by((ticks - 1) as nat).advanced()
        }
    }
}

/// Advances the player by one tick: moves it by its velocity, turns it the
/// way it moves, and steps its walk cycle if it moves.
pub fn update(player: &mut Player)
    requires
        old(player).wf(),
    ensures
        *final(player) == old(player).advanced(),
        final(player).wf(),
        final(player).velocity == old(player).velocity,
        final(player).sprite == old(player).sprite,
        final(player).position.x == clamp_position(
            old(player).position.x + old(player).velocity.x,
        ),
        final(player).position.y == clamp_position(
            old(player).position.y + old(player).velocity.y,
        ),
        final(player).facing == match heading(
            old(player).velocity.x as int,
            old(player).velocity.y as int,
        ) {
            Some(direction) => direction,
            None => old(player).facing,
        },
        old(player).velocity.is_zero() ==> *final(player) == *old(player),
        !old(player).velocity.is_zero() ==> final(player).current_frame == next_frame(
            old(player).current_frame as int,
        ),
{
    let direction = direction_from_velocity(&player.velocity);
    player.facing = match direction {
        Some(d) => d,
        None => player.facing,
    };
    player.position = player.position.offset(player.velocity.x, player.velocity.y);
    if player.velocity.x != 0 || player.velocity.y != 0 {
        player.current_frame = (player.current_frame + 1) % FRAME_COUNT;
    }
}

/// A tick keeps a well-formed player well formed.
pub proof fn lemma_advanced_is_wf(player: Player)
    requires
        player.wf(),
    ensures
        player.advanced().wf(),
{
}

/// A tick changes nothing about a player that stands still: not its
/// position, not its facing, not its frame.
pub proof fn lemma_standing_player_stays(player: Player)
    requires
        player.wf(),
        player.velocity.is_zero(),
    ensures
        player.advanced() == player,
{
}

/// As long as the grid's edge is not reached, a tick moves the player by
/// exactly its velocity.
pub proof fn lemma_moves_by_velocity(player: Player)
    requires
        MIN_POSITION <= player.position.x + player.velocity.x <= MAX_POSITION,
        MIN_POSITION <= player.position.y + player.velocity.y <= MAX_POSITION,
    ensures
        player.advanced().position.x == player.position.x + player.velocity.x,
        player.advanced().position.y == player.position.y + player.velocity.y,
{
}

/// The walk cycle has three frames: a moving player shows three different
/// frames in three ticks and is back on the first of them after the third.
pub proof fn lemma_walk_cycle(player: Player)
    requires
        player.wf(),
        !player.velocity.is_zero(),
    ensures
        player.advanced().current_frame != player.current_frame,
        player.advanced().advanced().current_frame != player.current_frame,
        player.advanced().advanced().current_frame != player.advanced().current_frame,
        player.advanced().advanced().advanced().current_frame == player.current_frame,
{
}

/// Many ticks at once. While the grid's edge is not reached, a player that
/// keeps its velocity for `ticks` ticks has moved by `ticks` times that
/// velocity, and a moving player has gone `ticks` frames round the walk
/// cycle.
pub proof fn lemma_advanced_by(player: Player, ticks: nat)
    requires
        player.wf(),
        MIN_POSITION <= player.position.x + ticks * player.velocity.x <= MAX_POSITION,
        MIN_POSITION <= player.position.y + ticks * player.velocity.y <= MAX_POSITION,
    ensures
        player.advanced_by(ticks).wf(),
        player.advanced_by(ticks).velocity == player.velocity,
        player.advanced_by(ticks).sprite == player.sprite,
        player.advanced_by(ticks).position.x == player.position.x + ticks * player.velocity.x,
        player.advanced_by(ticks).position.y == player.position.y + ticks * player.velocity.y,
        player.velocity.is_zero() ==> player.advanced_by(ticks) == player,
        !player.velocity.is_zero() ==> player.advanced_by(ticks).current_frame == (
            player.current_frame + ticks
        ) % 3,
    decreases ticks,
{
    let px: int = player.position.x as int;
    let py: int = player.position.y as int;
    let vx: int = player.velocity.x as int;
    let vy: int = player.velocity.y as int;
    if ticks == 0 {
        assert(ticks * vx == 0 && ticks * vy == 0) by (nonlinear_arith)
            requires
                ticks == 0,
        ;
    } else {
        let before: nat = (ticks - 1) as nat;
        lemma_between(px, vx, before, ticks);
        lemma_between(py, vy, before, ticks);
        lemma_advanced_by(player, before);
        assert(ticks * vx == before * vx + vx) by (nonlinear_arith)
            requires
                ticks == before + 1,
        ;
        assert(ticks * vy == before * vy + vy) by (nonlinear_arith)
            requires
                ticks == before + 1,
        ;
    }
}

/// A walk along a line that starts and ends on the grid stays on the grid.
proof fn lemma_between(start: int, step: int, part: nat, whole: nat)
    requires
        part <= whole,
        MIN_POSITION <= start <= MAX_POSITION,
        MIN_POSITION <= start + whole * step <= MAX_POSITION,
    ensures
        MIN_POSITION <= start + part * step <= MAX_POSITION,
{
    if step >= 0 {
        assert(0 <= part * step <= whole * step) by (nonlinear_arith)
            requires
                0 <= part <= whole,
                step >= 0,
        ;
    } else {
        assert(whole * step <= part * step <= 0) by (nonlinear_arith)
            requires
                0 <= part <= whole,
                step < 0,
        ;
    }
}

} // verus!
