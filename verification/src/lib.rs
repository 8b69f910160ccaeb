//! Core of a small side-scrolling arcade game: a player glyph falls under
//! gravity, flaps upward, and must pass through gap obstacles that shrink as
//! the score grows.
//!
//! The crate holds the whole game logic: the per-frame state machine
//! (menu, playing, dead), the physics step, obstacle generation and the
//! collision test. Each tick takes an input snapshot (the pressed key and the
//! elapsed frame time) and returns the list of drawing commands for the
//! display driver, so the logic never touches a terminal itself.
//!
//! Units: vertical velocity is kept in tenths of a cell per physics step, and
//! time in tenths of a millisecond, so that every quantity is an integer.

use vstd::prelude::*;

pub mod command;
pub mod game;
pub mod obstacle;
pub mod player;

verus! {

/// Width of the display in character cells.
pub const SCREEN_WIDTH: i32 = 80;

/// Height of the display in character cells.
pub const SCREEN_HEIGHT: i32 = 50;

/// Time between physics steps, in tenths of a millisecond.
pub const FRAME_DURATION: u32 = 750;

} // verus!
