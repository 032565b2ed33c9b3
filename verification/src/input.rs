//! What the keyboard does to the player.
//!
//! Pressing an arrow key adds one step of speed in its direction, releasing
//! it takes the step away again. Keys held together add up. Nothing here
//! keeps track of which keys are down: the velocity is the only memory.

use vstd::prelude::*;
use crate::direction::Direction;
use crate::geometry::{Point, MAX_POSITION, MIN_POSITION};
use crate::player::Player;
use crate::update::next_frame;

verus! {

/// The speed that one arrow key gives, in units per tick.
pub const PLAYER_MOVEMENT_SPEED: i32 = 5;

/// A key of the keyboard, as far as the scene tells keys apart.
#[derive(Clone, Copy, Debug, PartialEq, Eq, Structural)]
pub enum Key {
    Escape,
    Left,
    Right,
    Up,
    Down,
    /// Any other key, or a key that could not be told.
    Other,
}

/// Something that happened at the window.
#[derive(Clone, Copy, Debug, PartialEq, Eq, Structural)]
pub enum InputEvent {
    /// The window was asked to close.
    Quit,
    /// A key went down; `repeat` says that it was held and the keyboard
    /// repeats it.
    KeyDown { key: Key, repeat: bool },
    /// A key came up.
    KeyUp { key: Key, repeat: bool },
    /// Anything else.
    Other,
}

/// Whether the scene goes on after an event.
#[derive(Clone, Copy, Debug, PartialEq, Eq, Structural)]
pub enum Control {
    Continue,
    Quit,
}

/// The direction that an arrow key stands for.
pub open spec fn key_direction(key: Key) -> Option<Direction> {
    match key {
        Key::Left => Some(Direction::Left),
        Key::Right => Some(Direction::Right),
        Key::Up => Some(Direction::Up),
        Key::Down => Some(Direction::Down),
        _ => None,
    }
}

/// One step of speed in a direction, as a displacement per tick.
pub open spec fn step_towards(direction: Direction) -> (int, int) {
    match direction {
        Direction::Left => (-PLAYER_MOVEMENT_SPEED, 0),
        Direction::Right => (PLAYER_MOVEMENT_SPEED as int, 0),
        Direction::Up => (0, -PLAYER_MOVEMENT_SPEED),
        Direction::Down => (0, PLAYER_MOVEMENT_SPEED as int),
    }
}

/// The event ends the scene: the window is closed, or Escape goes down.
pub open spec fn ends_scene(event: InputEvent) -> bool {
    match event {
        InputEvent::Quit => true,
        InputEvent::KeyDown { key, .. } => key == Key::Escape,
        _ => false,
    }
}

/// What an event adds to the velocity, if it touches the velocity at all: a
/// step in the key's direction when an arrow key goes down, the opposite
/// step when it comes up, and nothing for a repeated key.
pub open spec fn velocity_change(event: InputEvent) -> Option<(int, int)> {
    match event {
        InputEvent::KeyDown { key, repeat } => match key_direction(key) {
            Some(direction) if !repeat => Some(step_towards(direction)),
            _ => None,
        },
        InputEvent::KeyUp { key, repeat } => match key_direction(key) {
            Some(direction) if !repeat => Some(
                (-step_towards(direction).0, -step_towards(direction).1),
            ),
            _ => None,
        },
        _ => None,
    }
}

/// The velocity that `velocity` becomes by an event.
pub open spec fn velocity_after(velocity: Point, event: InputEvent) -> Point {
    match velocity_change(event) {
        Some(change) => velocity.spec_offset(change.0, change.1),
        None => velocity,
    }
}

impl Player {
    /// This player after an event: its velocity is changed as the event
    /// asks, and nothing else is.
    pub open spec fn handled(self, event: InputEvent) -> Player {
        Player { velocity: velocity_after(self.velocity, event), ..self }
    }
}

/// Both components are whole multiples of the step of speed.
pub open spec fn on_steps(velocity: Point) -> bool {
    velocity.x % PLAYER_MOVEMENT_SPEED == 0 && velocity.y % PLAYER_MOVEMENT_SPEED == 0
}

/// Takes one event: changes the player's velocity as the event asks, and
/// says whether the scene goes on.
pub fn handle_event(player: &mut Player, event: InputEvent) -> (control: Control)
    ensures
        control == Control::Quit <==> ends_scene(event),
        *final(player) == old(player).handled(event),
        final(player).velocity == velocity_after(old(player).velocity, event),
        final(player).position == old(player).position,
        final(player).sprite == old(player).sprite,
        final(player).current_frame == old(player).current_frame,
        final(player).facing == old(player).facing,
        old(player).wf() ==> final(player).wf(),
{
    match event {
        InputEvent::Quit => Control::Quit,
        InputEvent::KeyDown { key: Key::Escape, .. } => Control::Quit,
        InputEvent::KeyDown { key: Key::Left, repeat: false } => {
            player.velocity = player.velocity.offset(-PLAYER_MOVEMENT_SPEED, 0);
            Control::Continue
        },
        InputEvent::KeyDown { key: Key::Right, repeat: false } => {
            player.velocity = player.velocity.offset(PLAYER_MOVEMENT_SPEED, 0);
            Control::Continue
        },
        InputEvent::KeyDown { key: Key::Up, repeat: false } => {
            player.velocity = player.velocity.offset(0, -PLAYER_MOVEMENT_SPEED);
            Control::Continue
        },
        InputEvent::KeyDown { key: Key::Down, repeat: false } => {
            player.velocity = player.velocity.offset(0, PLAYER_MOVEMENT_SPEED);
            Control::Continue
        },
        InputEvent::KeyUp { key: Key::Left, repeat: false } => {
            player.velocity = player.velocity.offset(PLAYER_MOVEMENT_SPEED, 0);
            Control::Continue
        },
        InputEvent::KeyUp { key: Key::Right, repeat: false } => {
            player.velocity = player.velocity.offset(-PLAYER_MOVEMENT_SPEED, 0);
            Control::Continue
        },
        InputEvent::KeyUp { key: Key::Up, repeat: false } => {
            player.velocity = player.velocity.offset(0, PLAYER_MOVEMENT_SPEED);
            Control::Continue
        },
        InputEvent::KeyUp { key: Key::Down, repeat: false } => {
            player.velocity = player.velocity.offset(0, -PLAYER_MOVEMENT_SPEED);
            Control::Continue
        },
        _ => Control::Continue,
    }
}

/// Releasing a key undoes pressing it, as long as the press did not reach
/// the grid's edge.
pub proof fn lemma_release_undoes_press(velocity: Point, key: Key)
    requires
        MIN_POSITION + PLAYER_MOVEMENT_SPEED <= velocity.x <= MAX_POSITION
            - PLAYER_MOVEMENT_SPEED,
        MIN_POSITION + PLAYER_MOVEMENT_SPEED <= velocity.y <= MAX_POSITION
            - PLAYER_MOVEMENT_SPEED,
    ensures
        velocity_after(
            velocity_after(velocity, InputEvent::KeyDown { key, repeat: false }),
            InputEvent::KeyUp { key, repeat: false },
        ) == velocity,
{
}

/// A velocity made of whole steps of speed stays so by every event, as long
/// as the grid's edge is not reached.
pub proof fn lemma_velocity_stays_on_steps(velocity: Point, event: InputEvent)
    requires
        on_steps(velocity),
        MIN_POSITION + PLAYER_MOVEMENT_SPEED <= velocity.x <= MAX_POSITION
            - PLAYER_MOVEMENT_SPEED,
        MIN_POSITION + PLAYER_MOVEMENT_SPEED <= velocity.y <= MAX_POSITION
            - PLAYER_MOVEMENT_SPEED,
    ensures
        on_steps(velocity_after(velocity, event)),
{
}

/// A key that the keyboard repeats, and any key that is no arrow, leaves the
/// velocity as it is.
pub proof fn lemma_other_events_keep_velocity(velocity: Point, event: InputEvent)
    requires
        velocity_change(event) is None,
    ensures
        velocity_after(velocity, event) == velocity,
{
}

/// A standing player that gets an arrow key walks one step that way in the
/// next tick, facing that way and showing the next frame; once the key is
/// released, the tick after leaves it where the step took it, still facing
/// that way, on the same frame.
pub proof fn lemma_press_walk_release_stand(player: Player, key: Key)
    requires
        player.wf(),
        player.velocity.is_zero(),
        key_direction(key) is Some,
        MIN_POSITION + PLAYER_MOVEMENT_SPEED <= player.position.x <= MAX_POSITION
            - PLAYER_MOVEMENT_SPEED,
        MIN_POSITION + PLAYER_MOVEMENT_SPEED <= player.position.y <= MAX_POSITION
            - PLAYER_MOVEMENT_SPEED,
    ensures
        ({
            let direction = key_direction(key).unwrap();
            let walking = player.handled(InputEvent::KeyDown { key, repeat: false }).advanced();
            let standing = walking.handled(InputEvent::KeyUp { key, repeat: false }).advanced();
            &&& walking.facing == direction
            &&& walking.position.x == player.position.x + step_towards(direction).0
            &&& walking.position.y == player.position.y + step_towards(direction).1
            &&& walking.current_frame == next_frame(player.current_frame as int)
            &&& standing.velocity.is_zero()
            &&& standing.position == walking.position
            &&& standing.facing == walking.facing
            &&& standing.current_frame == walking.current_frame
        }),
{
}

} // verus!
