use vstd::prelude::*;
use std::collections::VecDeque;
use crate::direction::{Direction, resolved, resolve};
use crate::geometry::{Arena, Position, COORD_LIMIT, clamp, clamped, shifted, shifted_x, shifted_y};

verus! {

/// The number of segments a chain can reach: indices are `u32`.
pub const SEGMENT_CAP: u64 = 4294967296;

/// What a segment is, as a mathematical value.
pub struct SegmentState {
    pub index: int,
    pub direction: Direction,
    pub queue: Seq<Direction>,
    pub position: Position,
}

/// One segment of the chain; index 0 is the head.
pub struct Segment {
    /// Place in the chain, counted from the head; fixed for the segment's life.
    pub index: u32,
    /// The direction the segment moves in this tick.
    pub direction: Direction,
    /// Directions handed down by the predecessor that this segment has still
    /// to take, oldest first.
    pub queue: VecDeque<Direction>,
    /// Where the segment is.
    pub position: Position,
}

impl View for Segment {
    type V = SegmentState;

    open spec fn view(&self) -> SegmentState {
        SegmentState {
            index: self.index as int,
            direction: self.direction,
            queue: self.queue@,
            position: self.position,
        }
    }
}

/// Both coordinates of `p` have magnitude at most `bound`.
pub open spec fn within_limit(p: Position, bound: int) -> bool {
    -bound <= p.x <= bound && -bound <= p.y <= bound
}

/// A chain is non-empty, each segment's index is its place, the indices fit
/// in `u32`, and segment `i` lies no farther out than `i + 1` coordinate
/// limits: the head is kept in the arena, and each growth steps one segment
/// width beyond the tail at most.
pub open spec fn chain_ok(s: Seq<SegmentState>) -> bool {
    &&& 1 <= s.len() <= SEGMENT_CAP
    &&& forall|i: int| 0 <= i < s.len() ==> #[trigger] s[i].index == i
    &&& forall|i: int|
        0 <= i < s.len() ==> within_limit(#[trigger] s[i].position, COORD_LIMIT * (i + 1))
}

/// The direction that segment `i` (not the head) is handed this tick: what its
/// predecessor faces once the head has turned to `head_dir`.
pub open spec fn handed_down(s: Seq<SegmentState>, head_dir: Direction, i: int) -> Direction {
    if i == 1 {
        head_dir
    } else {
        s[i - 1].direction
    }
}

/// The queue of segment `i` (not the head) once this tick's direction is pushed.
pub open spec fn fed_queue(s: Seq<SegmentState>, head_dir: Direction, i: int) -> Seq<Direction> {
    s[i].queue.push(handed_down(s, head_dir, i))
}

/// One propagation step: the head takes `head_dir` and moves to `head_pos`;
/// every other segment pushes the direction handed down to it, pops the
/// oldest one as its own, and moves to where its predecessor was.
pub open spec fn propagated(s: Seq<SegmentState>, head_dir: Direction, head_pos: Position) -> Seq<
    SegmentState,
> {
    Seq::new(
        s.len(),
        |i: int|
            if i == 0 {
                SegmentState {
                    index: s[0].index,
                    direction: head_dir,
                    queue: s[0].queue,
                    position: head_pos,
                }
            } else {
                SegmentState {
                    index: s[i].index,
                    direction: fed_queue(s, head_dir, i)[0],
                    queue: fed_queue(s, head_dir, i).drop_first(),
                    position: s[i - 1].position,
                }
            },
    )
}

/// Where the head goes on a tick: it turns as requested unless that reverses
/// it, then moves `distance` units and is clamped to the arena.
pub open spec fn head_target(
    s: Seq<SegmentState>,
    requested: Option<Direction>,
    distance: int,
    arena: Arena,
) -> Position {
    clamped(shifted(s[0].position, resolved(s[0].direction, requested), distance), arena)
}

/// The chain after one tick of movement.
pub open spec fn stepped(
    s: Seq<SegmentState>,
    requested: Option<Direction>,
    distance: int,
    arena: Arena,
) -> Seq<SegmentState> {
    propagated(
        s,
        resolved(s[0].direction, requested),
        head_target(s, requested, distance, arena),
    )
}

/// The segment appended by growth: one segment width behind the tail, facing
/// the tail's way, with a copy of the tail's queue.
pub open spec fn new_tail(s: Seq<SegmentState>, width: int) -> SegmentState {
    let last = s.last();
    SegmentState {
        index: s.len() as int,
        direction: last.direction,
        queue: last.queue,
        position: shifted(last.position, last.direction, -width),
    }
}

/// The chain after growth.
pub open spec fn grown(s: Seq<SegmentState>, width: int) -> Seq<SegmentState> {
    s.push(new_tail(s, width))
}

/// The chain after each tick of a run, one request per tick, with no growth.
pub open spec fn run(
    s: Seq<SegmentState>,
    requests: Seq<Option<Direction>>,
    distance: int,
    arena: Arena,
    t: nat,
) -> Seq<SegmentState>
    decreases t,
{
    if t == 0 {
        s
    } else {
        stepped(run(s, requests, distance, arena, (t - 1) as nat), requests[t - 1], distance, arena)
    }
}

/// On each tick every body segment moves to exactly where its predecessor
/// stood before the tick, and the chain keeps its length.
pub proof fn lemma_body_follows(s: Seq<SegmentState>, head_dir: Direction, head_pos: Position)
    ensures
        propagated(s, head_dir, head_pos).len() == s.len(),
        forall|i: int|
            1 <= i < s.len() ==> #[trigger] propagated(s, head_dir, head_pos)[i].position == s[i
                - 1].position,
{
}

/// A run without growth keeps the chain's length.
pub proof fn lemma_run_len(
    s: Seq<SegmentState>,
    requests: Seq<Option<Direction>>,
    distance: int,
    arena: Arena,
    t: nat,
)
    ensures
        run(s, requests, distance, arena, t).len() == s.len(),
    decreases t,
{
    if t > 0 {
        lemma_run_len(s, requests, distance, arena, (t - 1) as nat);
    }
}

/// Over any number of ticks without growth, segment `i` at tick `t + 1` stands
/// where segment `i - 1` stood at tick `t`.
pub proof fn lemma_exact_follow(
    s: Seq<SegmentState>,
    requests: Seq<Option<Direction>>,
    distance: int,
    arena: Arena,
    t: nat,
    i: int,
)
    requires
        1 <= i < s.len(),
    ensures
        run(s, requests, distance, arena, t + 1)[i].position == run(
            s,
            requests,
            distance,
            arena,
            t,
        )[i - 1].position,
{
    lemma_run_len(s, requests, distance, arena, t);
}

/// Queue depth: a tick pushes one direction onto each body segment's queue and
/// pops one, so every queue keeps the length it had; the head's queue is never
/// fed. Growth leaves every existing queue as it was and gives the new segment
/// its own copy of its predecessor's queue.
pub proof fn lemma_queue_depth(
    s: Seq<SegmentState>,
    head_dir: Direction,
    head_pos: Position,
    width: int,
)
    requires
        s.len() >= 1,
    ensures
        propagated(s, head_dir, head_pos)[0].queue == s[0].queue,
        forall|i: int|
            1 <= i < s.len() ==> (#[trigger] propagated(s, head_dir, head_pos)[i]).queue.len()
                == s[i].queue.len(),
        forall|i: int| 0 <= i < s.len() ==> (#[trigger] grown(s, width)[i]).queue == s[i].queue,
        grown(s, width)[s.len() as int].queue == s[s.len() - 1].queue,
{
}

/// In a chain started from a single head, no queue ever holds anything between
/// ticks: the head's queue is never fed, each body queue pops what it was
/// pushed on the same tick, and a new segment copies an empty queue.
pub proof fn lemma_queues_stay_empty(
    s: Seq<SegmentState>,
    head_dir: Direction,
    head_pos: Position,
    width: int,
)
    requires
        s.len() >= 1,
        forall|i: int| 0 <= i < s.len() ==> (#[trigger] s[i]).queue.len() == 0,
    ensures
        forall|i: int|
            0 <= i < s.len() ==> (#[trigger] propagated(s, head_dir, head_pos)[i]).queue.len()
                == 0,
        forall|i: int| 0 <= i <= s.len() ==> (#[trigger] grown(s, width)[i]).queue.len() == 0,
{
    assert forall|i: int| 0 <= i < s.len() implies (#[trigger] propagated(
        s,
        head_dir,
        head_pos,
    )[i]).queue.len() == 0 by {
        if i > 0 {
            assert(s[i].queue.len() == 0);
        }
    }
    assert(s[s.len() - 1].queue.len() == 0);
}

/// Growth appends and never disturbs: every existing segment is kept as it was,
/// at its index, and the new segment's index is the old length.
pub proof fn lemma_growth_keeps_segments(s: Seq<SegmentState>, width: int)
    requires
        chain_ok(s),
    ensures
        grown(s, width).len() == s.len() + 1,
        forall|i: int| 0 <= i < s.len() ==> #[trigger] grown(s, width)[i] == s[i],
        forall|i: int| 0 <= i < s.len() ==> (#[trigger] grown(s, width)[i]).index == i,
        grown(s, width)[s.len() as int].index == s.len(),
{
}

/// `p` moved `dist` units in `d`; exact, as both coordinates stay far from
/// the ends of `i64`.
fn shift(p: Position, d: Direction, dist: i64) -> (r: Position)
    requires
        within_limit(p, COORD_LIMIT * SEGMENT_CAP),
        -COORD_LIMIT <= dist <= COORD_LIMIT,
    ensures
        r == shifted(p, d, dist as int),
        r.x == shifted_x(p, d, dist as int),
        r.y == shifted_y(p, d, dist as int),
{
    match d {
        Direction::Up => Position { x: p.x, y: p.y + dist },
        Direction::Down => Position { x: p.x, y: p.y - dist },
        Direction::Left => Position { x: p.x - dist, y: p.y },
        Direction::Right => Position { x: p.x + dist, y: p.y },
    }
}

/// The chain of segments, head first.
pub struct Snake {
    segments: Vec<Segment>,
}

impl View for Snake {
    type V = Seq<SegmentState>;

    closed spec fn view(&self) -> Seq<SegmentState> {
        self.segments@.map_values(|s: Segment| s@)
    }
}

impl Snake {
    /// The chain's invariant.
    pub open spec fn wf(&self) -> bool {
        chain_ok(self@)
    }

    /// A chain of one segment, the head, at `head` facing `direction`.
    pub fn new(head: Position, direction: Direction) -> (r: Snake)
        requires
            within_limit(head, COORD_LIMIT as int),
        ensures
            r.wf(),
            r@ == seq![
                SegmentState {
                    index: 0,
                    direction: direction,
                    queue: Seq::<Direction>::empty(),
                    position: head,
                },
            ],
    {
        let seg = Segment { index: 0, direction, queue: VecDeque::new(), position: head };
        let mut segments: Vec<Segment> = Vec::new();
        segments.push(seg);
        let r = Snake { segments };
        assert(r@ =~= seq![seg@]);
        r
    }

    /// Number of segments.
    pub fn len(&self) -> (r: usize)
        ensures
            r == self@.len(),
    {
        self.segments.len()
    }

    /// Segment `i`, counted from the head.
    pub fn segment(&self, i: usize) -> (r: &Segment)
        requires
            i < self@.len(),
        ensures
            r@ == self@[i as int],
    {
        &self.segments[i]
    }

    /// The head.
    pub fn head(&self) -> (r: &Segment)
        requires
            self.wf(),
        ensures
            r@ == self@[0],
    {
        &self.segments[0]
    }

    /// The positions of all segments, head first.
    pub fn positions(&self) -> (r: Vec<Position>)
        ensures
            r@.len() == self@.len(),
            forall|i: int| 0 <= i < r@.len() ==> r@[i] == #[trigger] self@[i].position,
    {
        let mut r: Vec<Position> = Vec::new();
        let mut i: usize = 0;
        while i < self.segments.len()
            invariant
                i <= self.segments.len() == self@.len(),
                r@.len() == i,
                forall|j: int| 0 <= j < i ==> r@[j] == #[trigger] self@[j].position,
            decreases self.segments.len() - i,
        {
            r.push(self.segments[i].position);
            i += 1;
        }
        r
    }

    /// One propagation step, worked from the tail to the head so that each
    /// segment still reads its predecessor's state from before the tick.
    pub fn propagate(&mut self, head_direction: Direction, head_position: Position)
        requires
            old(self).wf(),
            within_limit(head_position, COORD_LIMIT as int),
        ensures
            final(self).wf(),
            final(self)@ == propagated(old(self)@, head_direction, head_position),
    {
        let ghost s0 = self@;
        let ghost goal = propagated(s0, head_direction, head_position);
        let n = self.segments.len();
        let mut i: usize = n - 1;
        while i > 0
            invariant
                1 <= n == self.segments.len() == s0.len(),
                i < n,
                s0 == old(self)@,
                goal == propagated(s0, head_direction, head_position),
                forall|j: int| 0 <= j <= i ==> #[trigger] self.segments@[j]@ == s0[j],
                forall|j: int| i < j < n ==> #[trigger] self.segments@[j]@ == goal[j],
            decreases i,
        {
            let handed = if i == 1 {
                head_direction
            } else {
                self.segments[i - 1].direction
            };
            let pos = self.segments[i - 1].position;
            let ghost before = self.segments@;
            let ghost fed = fed_queue(s0, head_direction, i as int);
            assert(self.segments@[i as int - 1]@ == s0[i - 1]);
            assert(handed == handed_down(s0, head_direction, i as int));
            assert(self.segments@[i as int]@ == s0[i as int]);
            let seg = &mut self.segments[i];
            seg.queue.push_back(handed);
            match seg.queue.pop_front() {
                Some(d) => {
                    seg.direction = d;
                },
                None => {},
            }
            seg.position = pos;
            assert(self.segments@[i as int].queue@ =~= fed.drop_first());
            assert(self.segments@[i as int]@ == goal[i as int]);
            assert forall|j: int| 0 <= j < n && j != i implies self.segments@[j] == before[j] by {}
            i -= 1;
        }
        let ghost before = self.segments@;
        assert(before[0]@ == s0[0]);
        let head = &mut self.segments[0];
        head.direction = head_direction;
        head.position = head_position;
        assert(self.segments@[0]@ == goal[0]);
        assert forall|j: int| 0 <= j < n implies #[trigger] self@[j] == goal[j] by {
            if j > 0 {
                assert(self.segments@[j] == before[j]);
                assert(before[j]@ == goal[j]);
            }
        }
        assert(self@ =~= goal);
    }

    /// One tick of movement: the head resolves `requested` against its
    /// direction, moves `distance` units and is clamped to `arena`; the body
    /// follows one tick behind.
    pub fn step(&mut self, requested: Option<Direction>, distance: i64, arena: Arena)
        requires
            old(self).wf(),
            arena.wf(),
            0 <= distance <= COORD_LIMIT,
            within_limit(old(self)@[0].position, COORD_LIMIT as int),
        ensures
            final(self).wf(),
            final(self)@ == stepped(old(self)@, requested, distance as int, arena),
    {
        let head = &self.segments[0];
        let heading = resolve(head.direction, requested);
        let moved = shift(head.position, heading, distance);
        let target = clamp(moved, arena);
        self.propagate(heading, target);
    }

    /// Appends one segment a segment width behind the tail (growth).
    pub fn grow(&mut self, segment_width: i64)
        requires
            old(self).wf(),
            0 < segment_width <= COORD_LIMIT,
            old(self)@.len() < SEGMENT_CAP,
        ensures
            final(self).wf(),
            final(self)@ == grown(old(self)@, segment_width as int),
    {
        let n = self.segments.len();
        let last = &self.segments[n - 1];
        assert(within_limit(self@[n - 1].position, COORD_LIMIT * n));
        let position = shift(last.position, last.direction, -segment_width);
        let queue = last.queue.clone();
        assert(queue@ =~= last.queue@);
        let seg = Segment { index: n as u32, direction: last.direction, queue, position };
        proof {
            let s = self@;
            assert(seg@ == new_tail(s, segment_width as int));
            assert(within_limit(seg@.position, COORD_LIMIT * (n + 1)));
        }
        self.segments.push(seg);
        assert(self@ =~= grown(old(self)@, segment_width as int));
    }
}

} // verus!
