//! Board interaction model for a 3×3 terminal board game: screen geometry,
//! selection and move candidates, the click/quit state machine, and the
//! paint instructions that render a frame.
use vstd::prelude::*;

pub mod board;
pub mod geometry;
pub mod laws;
pub mod render;

verus! {

} // verus!
