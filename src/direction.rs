use vstd::prelude::*;

verus! {

/// One of the four grid directions a segment can move in.
#[derive(PartialEq, Eq, Structural, Copy, Clone, Debug)]
pub enum Direction {
    Up,
    Down,
    Left,
    Right,
}

/// The direction pointing the other way.
pub open spec fn opposite_of(d: Direction) -> Direction {
    match d {
        Direction::Up => Direction::Down,
        Direction::Down => Direction::Up,
        Direction::Left => Direction::Right,
        Direction::Right => Direction::Left,
    }
}

/// The direction a head moves in next: a request is taken unless there is none
/// or it would turn the head back on itself.
pub open spec fn resolved(current: Direction, requested: Option<Direction>) -> Direction {
    match requested {
        None => current,
        Some(r) => if r == opposite_of(current) {
            current
        } else {
            r
        },
    }
}

/// Whether a pressed key for `d` turns a head moving in `current`: only a
/// quarter turn does.
pub open spec fn turns(current: Direction, d: Direction) -> bool {
    d != current && d != opposite_of(current)
}

/// The request read from the four direction keys: the first pressed key, in the
/// order up, down, left, right, that turns the head.
pub open spec fn key_request(
    current: Direction,
    up: bool,
    down: bool,
    left: bool,
    right: bool,
) -> Option<Direction> {
    if up && turns(current, Direction::Up) {
        Some(Direction::Up)
    } else if down && turns(current, Direction::Down) {
        Some(Direction::Down)
    } else if left && turns(current, Direction::Left) {
        Some(Direction::Left)
    } else if right && turns(current, Direction::Right) {
        Some(Direction::Right)
    } else {
        None
    }
}

impl Direction {
    /// The direction pointing the other way.
    pub fn opposite(self) -> (r: Direction)
        ensures
            r == opposite_of(self),
    {
        match self {
            Direction::Up => Direction::Down,
            Direction::Down => Direction::Up,
            Direction::Left => Direction::Right,
            Direction::Right => Direction::Left,
        }
    }
}

/// The head's next direction from its current one and the latest request.
pub fn resolve(current: Direction, requested: Option<Direction>) -> (r: Direction)
    ensures
        r == resolved(current, requested),
{
    match requested {
        None => current,
        Some(d) => if d == current.opposite() {
            current
        } else {
            d
        },
    }
}

/// Picks the request from a snapshot of the four direction keys, pressed keys
/// checked in the fixed order up, down, left, right.
pub fn request_from_keys(current: Direction, up: bool, down: bool, left: bool, right: bool) -> (r:
    Option<Direction>)
    ensures
        r == key_request(current, up, down, left, right),
{
    if up && current != Direction::Up && current != Direction::Down {
        Some(Direction::Up)
    } else if down && current != Direction::Down && current != Direction::Up {
        Some(Direction::Down)
    } else if left && current != Direction::Left && current != Direction::Right {
        Some(Direction::Left)
    } else if right && current != Direction::Right && current != Direction::Left {
        Some(Direction::Right)
    } else {
        None
    }
}

/// Turning around twice faces the way one started.
pub proof fn lemma_opposite_involutive(d: Direction)
    ensures
        opposite_of(opposite_of(d)) == d,
{
}

/// A request for the opposite of the current direction is refused: the head
/// keeps its direction.
pub proof fn lemma_reversal_rejected(d: Direction)
    ensures
        resolved(d, Some(opposite_of(d))) == d,
{
}

} // verus!
