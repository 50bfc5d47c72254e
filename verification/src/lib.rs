//! A grid-based snake game engine: a bounded board of cells, a snake with a
//! capped trailing body, and a step function that advances the simulation one
//! tick at a time, consuming food and terminating on collision.

pub mod board;
pub mod data;
pub mod logic;
pub mod snake;

use vstd::prelude::*;

verus! {

/// Length of the snake's trailing body once the movement cap is reached.
pub const INITIAL_TAIL_LEN: usize = 3;

} // verus!
