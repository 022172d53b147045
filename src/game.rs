use vstd::prelude::*;
use crate::direction::Direction;
use crate::food::{Food, spawn_target};
use crate::geometry::{Arena, Position, COORD_LIMIT, inside, touching, within_reach};
use crate::snake::{SegmentState, Snake, SEGMENT_CAP, chain_ok, grown, stepped};
use crate::timer::MoveTimer;

verus! {

/// How fast the game runs.
#[derive(PartialEq, Eq, Structural, Copy, Clone, Debug)]
pub struct Settings {
    /// Head speed, in arena units per second.
    pub speed: u64,
    /// Length of one fixed movement step, in milliseconds.
    pub period_ms: u64,
    /// Width of one segment, in arena units: the growth offset and the reach
    /// within which the head eats the food.
    pub segment_width: u64,
}

/// Why a game cannot start.
#[derive(PartialEq, Eq, Structural, Copy, Clone, Debug)]
pub enum SetupError {
    /// The arena is empty or an edge lies beyond the coordinate limit.
    InvalidArena,
    /// The movement step has no length in time.
    ZeroPeriod,
    /// One movement step would cover more than the coordinate limit.
    StepTooLong,
    /// The segment width is zero or beyond the coordinate limit.
    InvalidSegmentWidth,
    /// The head would start outside the arena.
    StartOutsideArena,
}

/// What one call of `tick` did.
#[derive(PartialEq, Eq, Structural, Copy, Clone, Debug)]
pub struct TickResult {
    /// A movement step was taken.
    pub stepped: bool,
    /// The chain grew on that step.
    pub grew: bool,
}

/// The distance the head covers in one step: speed times step length.
pub open spec fn step_distance(settings: Settings) -> int {
    (settings.speed as int * settings.period_ms as int) / 1000
}

/// The first reason, if any, why a game with these inputs cannot start.
pub open spec fn setup_error(arena: Arena, start: Position, settings: Settings) -> Option<
    SetupError,
> {
    if !arena.wf() {
        Some(SetupError::InvalidArena)
    } else if settings.period_ms == 0 {
        Some(SetupError::ZeroPeriod)
    } else if step_distance(settings) > COORD_LIMIT {
        Some(SetupError::StepTooLong)
    } else if settings.segment_width == 0 || settings.segment_width > COORD_LIMIT {
        Some(SetupError::InvalidSegmentWidth)
    } else if !inside(start, arena) {
        Some(SetupError::StartOutsideArena)
    } else {
        None
    }
}

/// Whether the head of the moved chain `moved` eats `food`: it comes closer
/// than one segment width, and the chain has room for one more segment.
pub open spec fn eats(moved: Seq<SegmentState>, food: Option<Food>, width: int) -> bool {
    match food {
        Some(f) => touching(moved[0].position, f.position, width) && moved.len() < SEGMENT_CAP,
        None => false,
    }
}

/// A running game: the chain, the arena, the step timer and the food.
pub struct Game {
    snake: Snake,
    arena: Arena,
    timer: MoveTimer,
    food: Option<Food>,
    distance: i64,
    width: i64,
}

impl Game {
    /// The chain, head first.
    pub closed spec fn chain(&self) -> Seq<SegmentState> {
        self.snake@
    }

    /// The arena.
    pub closed spec fn bounds(&self) -> Arena {
        self.arena
    }

    /// The step timer.
    pub closed spec fn clock(&self) -> MoveTimer {
        self.timer
    }

    /// The food on the board, if any.
    pub closed spec fn target(&self) -> Option<Food> {
        self.food
    }

    /// Distance the head covers in one step.
    pub closed spec fn step_len(&self) -> int {
        self.distance as int
    }

    /// Segment width.
    pub closed spec fn width(&self) -> int {
        self.width as int
    }

    /// The game's invariant: a sound chain whose head is in a sound arena, a
    /// running timer, limits on the step and the segment width, and food, if
    /// any, in the arena.
    pub open spec fn wf(&self) -> bool {
        &&& chain_ok(self.chain())
        &&& self.bounds().wf()
        &&& inside(self.chain()[0].position, self.bounds())
        &&& self.clock().wf()
        &&& 0 <= self.step_len() <= COORD_LIMIT
        &&& 0 < self.width() <= COORD_LIMIT
        &&& (self.target() matches Some(f) ==> inside(f.position, self.bounds()))
    }

    /// Starts a game with a one-segment chain at `start` facing `direction`,
    /// no food and a fresh timer; fails with the first reason in
    /// `setup_error`.
    pub fn new(arena: Arena, start: Position, direction: Direction, settings: Settings) -> (r:
        Result<Game, SetupError>)
        ensures
            match r {
                Ok(g) => {
                    &&& setup_error(arena, start, settings) is None
                    &&& g.wf()
                    &&& g.chain() == seq![
                        SegmentState {
                            index: 0,
                            direction: direction,
                            queue: Seq::<Direction>::empty(),
                            position: start,
                        },
                    ]
                    &&& g.bounds() == arena
                    &&& g.target() is None
                    &&& g.clock().period() == settings.period_ms
                    &&& g.clock().elapsed() == 0
                    &&& g.step_len() == step_distance(settings)
                    &&& g.width() == settings.segment_width
                },
                Err(e) => setup_error(arena, start, settings) == Some(e),
            },
    {
        if !(-COORD_LIMIT <= arena.min_x && arena.min_x <= arena.max_x && arena.max_x
            <= COORD_LIMIT && -COORD_LIMIT <= arena.min_y && arena.min_y <= arena.max_y
            && arena.max_y <= COORD_LIMIT) {
            return Err(SetupError::InvalidArena);
        }
        if settings.period_ms == 0 {
            return Err(SetupError::ZeroPeriod);
        }
        let speed: u128 = settings.speed as u128;
        let period: u128 = settings.period_ms as u128;
        assert(0 <= speed * period <= 0xffff_ffff_ffff_ffff * 0xffff_ffff_ffff_ffff)
            by (nonlinear_arith)
            requires
                speed <= 0xffff_ffff_ffff_ffff,
                period <= 0xffff_ffff_ffff_ffff,
        ;
        let distance: u128 = (speed * period) / 1000;
        if distance > COORD_LIMIT as u128 {
            return Err(SetupError::StepTooLong);
        }
        if settings.segment_width == 0 || settings.segment_width > COORD_LIMIT as u64 {
            return Err(SetupError::InvalidSegmentWidth);
        }
        if !arena.contains(start) {
            return Err(SetupError::StartOutsideArena);
        }
        Ok(
            Game {
                snake: Snake::new(start, direction),
                arena,
                timer: MoveTimer::new(settings.period_ms),
                food: None,
                distance: distance as i64,
                width: settings.segment_width as i64,
            },
        )
    }

    /// The chain.
    pub fn snake(&self) -> (r: &Snake)
        ensures
            r@ == self.chain(),
    {
        &self.snake
    }

    /// The arena.
    pub fn arena(&self) -> (r: Arena)
        ensures
            r == self.bounds(),
    {
        self.arena
    }

    /// The step timer.
    pub fn timer(&self) -> (r: &MoveTimer)
        ensures
            *r == self.clock(),
    {
        &self.timer
    }

    /// The food on the board, if any.
    pub fn food(&self) -> (r: Option<Food>)
        ensures
            r == self.target(),
    {
        self.food
    }

    /// Distance the head covers in one step.
    pub fn step_length(&self) -> (r: i64)
        ensures
            r == self.step_len(),
    {
        self.distance
    }

    /// Segment width.
    pub fn segment_width(&self) -> (r: i64)
        ensures
            r == self.width(),
    {
        self.width
    }

    /// One fixed movement step: the head turns as `requested` allows, the chain
    /// moves, and if the head has come within one segment width of the food,
    /// the food is eaten and the chain grows by one segment. Returns whether
    /// it grew.
    pub fn advance(&mut self, requested: Option<Direction>) -> (grew: bool)
        requires
            old(self).wf(),
        ensures
            final(self).wf(),
            ({
                let moved = stepped(
                    old(self).chain(),
                    requested,
                    old(self).step_len(),
                    old(self).bounds(),
                );
                &&& grew == eats(moved, old(self).target(), old(self).width())
                &&& final(self).chain() == if grew {
                    grown(moved, old(self).width())
                } else {
                    moved
                }
                &&& final(self).target() == if grew {
                    None
                } else {
                    old(self).target()
                }
            }),
            final(self).bounds() == old(self).bounds(),
            final(self).clock() == old(self).clock(),
            final(self).step_len() == old(self).step_len(),
            final(self).width() == old(self).width(),
    {
        self.snake.step(requested, self.distance, self.arena);
        match self.food {
            Some(f) => {
                let head = self.snake.head().position;
                if within_reach(head, f.position, self.width as u32) && (self.snake.len() as u64)
                    < SEGMENT_CAP {
                    self.food = None;
                    self.snake.grow(self.width);
                    true
                } else {
                    false
                }
            },
            None => false,
        }
    }

    /// Feeds `dt_ms` of time to the step timer and takes one movement step
    /// when it fires; nothing else changes otherwise.
    pub fn tick(&mut self, dt_ms: u64, requested: Option<Direction>) -> (r: TickResult)
        requires
            old(self).wf(),
        ensures
            final(self).wf(),
            r.stepped == (old(self).clock().elapsed() + dt_ms >= old(self).clock().period()),
            final(self).clock().period() == old(self).clock().period(),
            final(self).clock().elapsed() == (old(self).clock().elapsed() + dt_ms) % (old(
                self,
            ).clock().period() as int),
            !r.stepped ==> {
                &&& !r.grew
                &&& final(self).chain() == old(self).chain()
                &&& final(self).target() == old(self).target()
            },
            r.stepped ==> ({
                let moved = stepped(
                    old(self).chain(),
                    requested,
                    old(self).step_len(),
                    old(self).bounds(),
                );
                &&& r.grew == eats(moved, old(self).target(), old(self).width())
                &&& final(self).chain() == if r.grew {
                    grown(moved, old(self).width())
                } else {
                    moved
                }
                &&& final(self).target() == if r.grew {
                    None
                } else {
                    old(self).target()
                }
            }),
            final(self).bounds() == old(self).bounds(),
            final(self).step_len() == old(self).step_len(),
            final(self).width() == old(self).width(),
    {
        let fired = self.timer.advance(dt_ms);
        if fired {
            let grew = self.advance(requested);
            TickResult { stepped: true, grew }
        } else {
            TickResult { stepped: false, grew: false }
        }
    }

    /// Appends one segment behind the tail, as on eating, without touching the
    /// food; returns false, changing nothing, when the chain is full.
    pub fn grow(&mut self) -> (grew: bool)
        requires
            old(self).wf(),
        ensures
            final(self).wf(),
            grew == (old(self).chain().len() < SEGMENT_CAP),
            final(self).chain() == if grew {
                grown(old(self).chain(), old(self).width())
            } else {
                old(self).chain()
            },
            final(self).target() == old(self).target(),
            final(self).bounds() == old(self).bounds(),
            final(self).clock() == old(self).clock(),
            final(self).step_len() == old(self).step_len(),
            final(self).width() == old(self).width(),
    {
        if (self.snake.len() as u64) < SEGMENT_CAP {
            self.snake.grow(self.width);
            true
        } else {
            false
        }
    }

    /// Puts food at `position`; refused, changing nothing, while food is on
    /// the board or when `position` is outside the arena.
    pub fn place_food(&mut self, position: Position) -> (placed: bool)
        requires
            old(self).wf(),
        ensures
            final(self).wf(),
            placed == (old(self).target() is None && inside(position, old(self).bounds())),
            final(self).target() == if placed {
                Some(Food { position })
            } else {
                old(self).target()
            },
            final(self).chain() == old(self).chain(),
            final(self).bounds() == old(self).bounds(),
            final(self).clock() == old(self).clock(),
            final(self).step_len() == old(self).step_len(),
            final(self).width() == old(self).width(),
    {
        if self.food.is_none() && self.arena.contains(position) {
            self.food = Some(Food { position });
            true
        } else {
            false
        }
    }

    /// Puts food at a random position of the arena when none is on the board;
    /// returns whether it did.
    pub fn spawn_food(&mut self) -> (spawned: bool)
        requires
            old(self).wf(),
        ensures
            final(self).wf(),
            spawned == old(self).target() is None,
            spawned ==> final(self).target() is Some,
            !spawned ==> final(self).target() == old(self).target(),
            final(self).chain() == old(self).chain(),
            final(self).bounds() == old(self).bounds(),
            final(self).clock() == old(self).clock(),
            final(self).step_len() == old(self).step_len(),
            final(self).width() == old(self).width(),
    {
        if self.food.is_some() {
            return false;
        }
        let position = spawn_target(self.arena);
        self.food = Some(Food { position });
        true
    }
}

} // verus!
