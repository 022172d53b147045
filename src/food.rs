use vstd::prelude::*;
use crate::geometry::{Arena, Position, inside};

verus! {

/// Relies on rand::random: a value drawn from the thread-local generator;
/// nothing is known of it.
pub assume_specification<T>[ rand::random::<T> ]() -> (r: T)
    where
        rand::distributions::Standard: rand::distributions::Distribution<T>,
;

/// The food the head is steering for: reaching it makes the chain grow.
#[derive(PartialEq, Eq, Structural, Copy, Clone, Debug)]
pub struct Food {
    pub position: Position,
}

/// The coordinate that a draw `r` picks in the range `lo..=hi`.
pub open spec fn pick(lo: int, hi: int, r: int) -> int {
    lo + r % (hi - lo + 1)
}

/// The position picked in the arena by the draws `rx` and `ry`.
pub open spec fn picked(arena: Arena, rx: u32, ry: u32) -> Position {
    Position {
        x: pick(arena.min_x as int, arena.max_x as int, rx as int) as i64,
        y: pick(arena.min_y as int, arena.max_y as int, ry as int) as i64,
    }
}

/// Turns two random draws into a position in the arena, one draw per axis.
pub fn target_from_draws(arena: Arena, rx: u32, ry: u32) -> (r: Position)
    requires
        arena.wf(),
    ensures
        r == picked(arena, rx, ry),
        inside(r, arena),
{
    let span_x: i64 = arena.max_x - arena.min_x + 1;
    let span_y: i64 = arena.max_y - arena.min_y + 1;
    Position { x: arena.min_x + (rx as i64) % span_x, y: arena.min_y + (ry as i64) % span_y }
}

/// A random position in the arena for the next food.
pub fn spawn_target(arena: Arena) -> (r: Position)
    requires
        arena.wf(),
    ensures
        inside(r, arena),
{
    let rx: u32 = rand::random::<u32>();
    let ry: u32 = rand::random::<u32>();
    target_from_draws(arena, rx, ry)
}

} // verus!
