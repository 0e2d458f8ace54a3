//! Game of the Goose: a four-player race over a 64-cell linear track.
//!
//! The board module classifies each cell (start, end, setback, bonus or
//! normal) and builds its display label; the engine module owns the game
//! state and the turn transition; the messages module builds the log
//! messages of each turn; the laws module states and proves the general
//! properties of the engine; the text module renders the decimal numbers
//! that labels and messages contain; the render module computes the
//! layout fractions the terminal front end asks for.

use vstd::prelude::*;

pub mod board;
pub mod engine;
pub mod laws;
pub mod messages;
pub mod render;
pub mod text;

verus! {

/// Index of the final cell; cells are numbered from 0, and landing
/// exactly here wins the game.
pub const LAST_CELL: i16 = 63;

} // verus!
