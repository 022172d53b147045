use vstd::prelude::*;
use crate::direction::Direction;

verus! {

/// Largest magnitude of an arena edge, a movement step or a segment width, in
/// arena units.
pub const COORD_LIMIT: i64 = 1073741824;

/// A point of the arena, in arena units (one segment is a few units wide).
#[derive(PartialEq, Eq, Structural, Copy, Clone, Debug)]
pub struct Position {
    pub x: i64,
    pub y: i64,
}

/// The playable rectangle: the positions a head may occupy.
#[derive(PartialEq, Eq, Structural, Copy, Clone, Debug)]
pub struct Arena {
    pub min_x: i64,
    pub max_x: i64,
    pub min_y: i64,
    pub max_y: i64,
}

/// `v` pushed up to `lo`, then down to `hi`.
pub open spec fn clamp_axis(v: int, lo: int, hi: int) -> int {
    let raised = if v < lo {
        lo
    } else {
        v
    };
    if raised > hi {
        hi
    } else {
        raised
    }
}

/// Each coordinate of `p` clamped independently to the arena's range.
pub open spec fn clamped(p: Position, a: Arena) -> Position {
    Position {
        x: clamp_axis(p.x as int, a.min_x as int, a.max_x as int) as i64,
        y: clamp_axis(p.y as int, a.min_y as int, a.max_y as int) as i64,
    }
}

/// Whether `p` lies in the arena.
pub open spec fn inside(p: Position, a: Arena) -> bool {
    a.min_x <= p.x <= a.max_x && a.min_y <= p.y <= a.max_y
}

/// The horizontal component of one unit of motion in `d`.
pub open spec fn dx(d: Direction) -> int {
    match d {
        Direction::Left => -1,
        Direction::Right => 1,
        _ => 0,
    }
}

/// The vertical component of one unit of motion in `d`.
pub open spec fn dy(d: Direction) -> int {
    match d {
        Direction::Up => 1,
        Direction::Down => -1,
        _ => 0,
    }
}

/// `p` moved `dist` units in direction `d`, as exact integers.
pub open spec fn shifted_x(p: Position, d: Direction, dist: int) -> int {
    p.x + dx(d) * dist
}

/// `p` moved `dist` units in direction `d`, as exact integers.
pub open spec fn shifted_y(p: Position, d: Direction, dist: int) -> int {
    p.y + dy(d) * dist
}

/// `p` moved `dist` units in direction `d` (a negative `dist` moves backwards).
pub open spec fn shifted(p: Position, d: Direction, dist: int) -> Position {
    Position { x: shifted_x(p, d, dist) as i64, y: shifted_y(p, d, dist) as i64 }
}

/// The square of the Euclidean distance between two positions.
pub open spec fn dist_sq(a: Position, b: Position) -> int {
    (a.x - b.x) * (a.x - b.x) + (a.y - b.y) * (a.y - b.y)
}

/// Whether two positions are closer than `reach`.
pub open spec fn touching(a: Position, b: Position, reach: int) -> bool {
    dist_sq(a, b) < reach * reach
}

impl Arena {
    /// A well-formed arena is non-empty and its edges stay within the coordinate limit.
    pub open spec fn wf(self) -> bool {
        &&& -COORD_LIMIT <= self.min_x <= self.max_x <= COORD_LIMIT
        &&& -COORD_LIMIT <= self.min_y <= self.max_y <= COORD_LIMIT
    }

    /// The arena of a window `width` by `height` units, centred on the origin,
    /// whose edges are pulled in by half a segment so that a segment centred on
    /// an edge stays in view; `None` when nothing is left or an edge is beyond
    /// the coordinate limit.
    pub fn from_window(width: u64, height: u64, segment_width: u64) -> (r: Option<Arena>)
        ensures
            ({
                let half_w = width as int / 2;
                let half_h = height as int / 2;
                let margin = segment_width as int / 2;
                match r {
                    Some(a) => {
                        &&& half_w <= COORD_LIMIT && half_h <= COORD_LIMIT
                        &&& margin <= half_w && margin <= half_h
                        &&& a.min_x == margin - half_w && a.max_x == half_w - margin
                        &&& a.min_y == margin - half_h && a.max_y == half_h - margin
                        &&& a.wf()
                    },
                    None => !(half_w <= COORD_LIMIT && half_h <= COORD_LIMIT && margin <= half_w
                        && margin <= half_h),
                }
            }),
    {
        let half_w = width / 2;
        let half_h = height / 2;
        let margin = segment_width / 2;
        if half_w > COORD_LIMIT as u64 || half_h > COORD_LIMIT as u64 || margin > half_w || margin
            > half_h {
            return None;
        }
        let hw = half_w as i64;
        let hh = half_h as i64;
        let m = margin as i64;
        Some(Arena { min_x: m - hw, max_x: hw - m, min_y: m - hh, max_y: hh - m })
    }

    /// Whether `p` lies in the arena.
    pub fn contains(&self, p: Position) -> (r: bool)
        ensures
            r == inside(p, *self),
    {
        self.min_x <= p.x && p.x <= self.max_x && self.min_y <= p.y && p.y <= self.max_y
    }
}

fn clamp_coord(v: i64, lo: i64, hi: i64) -> (r: i64)
    ensures
        r == clamp_axis(v as int, lo as int, hi as int),
{
    let raised = if v < lo {
        lo
    } else {
        v
    };
    if raised > hi {
        hi
    } else {
        raised
    }
}

/// Clamps each coordinate of `p` to the arena's range: saturating, not wrapping.
pub fn clamp(p: Position, arena: Arena) -> (r: Position)
    ensures
        r == clamped(p, arena),
        arena.wf() ==> inside(r, arena),
        inside(p, arena) ==> r == p,
{
    Position {
        x: clamp_coord(p.x, arena.min_x, arena.max_x),
        y: clamp_coord(p.y, arena.min_y, arena.max_y),
    }
}

/// Whether `a` and `b` are closer than `reach` (Euclidean distance).
pub fn within_reach(a: Position, b: Position, reach: u32) -> (r: bool)
    ensures
        r == touching(a, b, reach as int),
{
    let ddx: i128 = a.x as i128 - b.x as i128;
    let ddy: i128 = a.y as i128 - b.y as i128;
    let r: i128 = reach as i128;
    if ddx >= r || ddx <= -r || ddy >= r || ddy <= -r {
        assert(dist_sq(a, b) >= (reach as int) * (reach as int)) by (nonlinear_arith)
            requires
                ddx == a.x - b.x,
                ddy == a.y - b.y,
                r == reach,
                r >= 0,
                ddx >= r || ddx <= -r || ddy >= r || ddy <= -r,
        ;
        return false;
    }
    assert(0 <= ddx * ddx <= 0x1_0000_0000_0000_0000 && 0 <= ddy * ddy <= 0x1_0000_0000_0000_0000
        && 0 <= r * r <= 0x1_0000_0000_0000_0000) by (nonlinear_arith)
        requires
            -r < ddx < r,
            -r < ddy < r,
            0 <= r <= 0xffff_ffff,
    ;
    let sx: i128 = ddx * ddx;
    let sy: i128 = ddy * ddy;
    let rr: i128 = r * r;
    sx + sy < rr
}

/// Clamping a clamped position changes nothing.
pub proof fn lemma_clamp_idempotent(p: Position, a: Arena)
    ensures
        clamped(clamped(p, a), a) == clamped(p, a),
{
}

} // verus!
