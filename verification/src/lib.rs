//! Movement, animation and sprite-sheet addressing for a walking sprite.
//!
//! A [`Player`] moves over a bounded integer grid. Events from the keyboard
//! change its velocity ([`handle_event`]), a tick moves it, turns it and
//! steps its walk cycle ([`update`]), and [`render`] says which frame of the
//! sprite sheet is copied to which part of the screen. Every function is
//! total on well-formed values: coordinates that would leave the grid stop
//! at its edge.

pub mod direction;
pub mod geometry;
pub mod input;
pub mod player;
pub mod render;
pub mod sprites;
pub mod update;

pub use direction::Direction;
pub use geometry::{Point, Rect};
pub use input::{handle_event, Control, InputEvent, Key, PLAYER_MOVEMENT_SPEED};
pub use player::{Player, FRAME_COUNT};
pub use render::{compute_frame_rect, compute_screen_rect, render, Blit};
pub use sprites::{direction_from_velocity, direction_sprite_sheet_row};
pub use update::update;
