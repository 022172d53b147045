//! Tick-driven movement core of a snake game: a head steered by intent, a body
//! that retraces the head's path one tick behind, an arena that clamps the
//! head, and growth when the head reaches the food.
use vstd::prelude::*;

pub mod direction;
pub mod geometry;
pub mod timer;
pub mod snake;
pub mod food;
pub mod game;

verus! {

} // verus!
