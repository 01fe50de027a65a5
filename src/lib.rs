//! A fixed-timestep render loop for a character-grid display.
//!
//! The clock advances simulation time in fixed steps, a pluggable handler
//! updates the world and paints the grid, and the screen turns that grid into
//! the text of one frame. Printing and sleeping are left to the caller.
use vstd::prelude::*;

pub mod clock;
pub mod pacing;
pub mod screen;
