//! Core logic of a terminal falling-block puzzle game: the shape table,
//! the playfield grid with its line-clear pass, the moving piece with its
//! collision and rotation rules, and the game session that ties them together.

pub mod blocks;
pub mod game;
pub mod graphic;
mod rng;

use vstd::prelude::*;

verus! {

/// The playfield's lateral size in cells, fixed for every game session.
pub const FIELD_WIDTH: u32 = 10;

/// The playfield's vertical size in cells, fixed for every game session.
pub const FIELD_HEIGHT: u32 = 20;

} // verus!
