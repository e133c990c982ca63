use vstd::prelude::*;

pub mod obstacle;
pub mod player;
pub mod rng;
pub mod state;

verus! {

/// Width of the play field in columns.
pub const SCREEN_WIDTH: i32 = 80;

/// Height of the play field in rows; a body below this row has fallen out.
pub const SCREEN_HEIGHT: i32 = 50;

} // verus!
