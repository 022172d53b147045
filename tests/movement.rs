use snake::direction::{request_from_keys, resolve, Direction};
use snake::game::{Game, Settings, SetupError, TickResult};
use snake::geometry::{clamp, within_reach, Arena, Position};

fn arena() -> Arena {
    Arena::from_window(640, 480, 10).unwrap()
}

fn settings() -> Settings {
    Settings { speed: 100, period_ms: 100, segment_width: 10 }
}

fn game_at(x: i64, y: i64, d: Direction) -> Game {
    Game::new(arena(), Position { x, y }, d, settings()).unwrap()
}

fn positions(g: &Game) -> Vec<(i64, i64)> {
    g.snake().positions().iter().map(|p| (p.x, p.y)).collect()
}

#[test]
fn reversal_is_rejected_for_every_direction() {
    for d in [Direction::Up, Direction::Down, Direction::Left, Direction::Right] {
        assert_eq!(resolve(d, Some(d.opposite())), d);
        assert_eq!(d.opposite().opposite(), d);
    }
}

#[test]
fn resolve_keeps_direction_without_request_and_takes_turns() {
    assert_eq!(resolve(Direction::Up, None), Direction::Up);
    assert_eq!(resolve(Direction::Up, Some(Direction::Left)), Direction::Left);
    assert_eq!(resolve(Direction::Left, Some(Direction::Down)), Direction::Down);
    assert_eq!(resolve(Direction::Right, Some(Direction::Right)), Direction::Right);
}

#[test]
fn keys_are_checked_up_down_left_right() {
    assert_eq!(request_from_keys(Direction::Left, true, true, false, false), Some(Direction::Up));
    assert_eq!(request_from_keys(Direction::Left, false, true, false, true), Some(Direction::Down));
    // Up does not turn a head moving up, so the next pressed key wins.
    assert_eq!(request_from_keys(Direction::Up, true, false, true, true), Some(Direction::Left));
    assert_eq!(request_from_keys(Direction::Up, false, true, false, false), None);
    assert_eq!(request_from_keys(Direction::Down, false, false, false, true), Some(Direction::Right));
    assert_eq!(request_from_keys(Direction::Down, false, false, false, false), None);
}

#[test]
fn clamp_is_idempotent_and_saturates() {
    let a = arena();
    assert_eq!((a.min_x, a.max_x, a.min_y, a.max_y), (-315, 315, -235, 235));
    let p = Position { x: 1000, y: -1000 };
    let once = clamp(p, a);
    assert_eq!(once, Position { x: 315, y: -235 });
    assert_eq!(clamp(once, a), once);
    let inner = Position { x: 3, y: 4 };
    assert_eq!(clamp(inner, a), inner);
}

#[test]
fn arena_from_window_refuses_a_margin_wider_than_the_window() {
    assert_eq!(Arena::from_window(8, 480, 10), None);
    assert_eq!(Arena::from_window(10, 10, 10), Some(Arena { min_x: 0, max_x: 0, min_y: 0, max_y: 0 }));
}

#[test]
fn reach_is_a_strict_euclidean_distance() {
    let o = Position { x: 0, y: 0 };
    assert!(within_reach(o, Position { x: 6, y: 7 }, 10));
    assert!(!within_reach(o, Position { x: 6, y: 8 }, 10));
    assert!(!within_reach(o, Position { x: 10, y: 0 }, 10));
    assert!(!within_reach(o, Position { x: i64::MAX, y: i64::MIN }, 10));
}

#[test]
fn straight_line_head_only() {
    let mut g = game_at(0, 0, Direction::Up);
    for k in 1..=23 {
        let r = g.tick(100, None);
        assert_eq!(r, TickResult { stepped: true, grew: false });
        assert_eq!(positions(&g), vec![(0, 10 * k)]);
    }
    // 240 would leave the arena: the head stops at its edge.
    g.tick(100, None);
    assert_eq!(positions(&g), vec![(0, 235)]);
    g.tick(100, None);
    assert_eq!(positions(&g), vec![(0, 235)]);
}

#[test]
fn single_growth() {
    let mut g = game_at(0, 0, Direction::Up);
    assert!(g.grow());
    assert_eq!(g.snake().len(), 2);
    let tail = g.snake().segment(1);
    assert_eq!(tail.position, Position { x: 0, y: -10 });
    assert_eq!(tail.direction, Direction::Up);
    assert_eq!(tail.index, 1);
}

#[test]
fn lag_after_growth() {
    let mut g = game_at(0, 0, Direction::Up);
    g.grow();
    g.tick(100, None);
    assert_eq!(positions(&g), vec![(0, 10), (0, 0)]);
    g.tick(100, None);
    assert_eq!(positions(&g), vec![(0, 20), (0, 10)]);
}

#[test]
fn body_follows_the_path_round_a_corner() {
    let mut g = game_at(0, 0, Direction::Up);
    g.grow();
    g.grow();
    assert_eq!(positions(&g), vec![(0, 0), (0, -10), (0, -20)]);
    let requests = [None, Some(Direction::Right), None, None];
    let mut before = positions(&g);
    for r in requests {
        g.tick(100, r);
        let now = positions(&g);
        for i in 1..now.len() {
            assert_eq!(now[i], before[i - 1]);
        }
        before = now;
    }
    assert_eq!(positions(&g), vec![(30, 10), (20, 10), (10, 10)]);
    assert_eq!(g.snake().segment(1).direction, Direction::Right);
    assert_eq!(g.snake().segment(2).direction, Direction::Right);
}

#[test]
fn directions_travel_one_segment_per_tick() {
    let mut g = game_at(0, 0, Direction::Up);
    g.grow();
    g.grow();
    g.tick(100, Some(Direction::Left));
    let dirs = |g: &Game| (0..3).map(|i| g.snake().segment(i).direction).collect::<Vec<_>>();
    assert_eq!(dirs(&g), vec![Direction::Left, Direction::Left, Direction::Up]);
    g.tick(100, None);
    assert_eq!(dirs(&g), vec![Direction::Left, Direction::Left, Direction::Left]);
}

#[test]
fn queues_keep_their_depth_and_are_copied_on_growth() {
    let mut g = game_at(0, 0, Direction::Right);
    g.grow();
    for _ in 0..3 {
        g.tick(100, Some(Direction::Down));
        for i in 0..g.snake().len() {
            assert_eq!(g.snake().segment(i).queue.len(), 0);
        }
    }
    g.grow();
    let s = g.snake();
    assert_eq!(s.segment(2).queue, s.segment(1).queue);
}

#[test]
fn growth_keeps_existing_segments() {
    let mut g = game_at(50, 50, Direction::Left);
    g.grow();
    g.tick(100, Some(Direction::Down));
    let before: Vec<(u32, Position, Direction)> = (0..g.snake().len())
        .map(|i| {
            let s = g.snake().segment(i);
            (s.index, s.position, s.direction)
        })
        .collect();
    assert!(g.grow());
    assert_eq!(g.snake().len(), 3);
    for (i, b) in before.iter().enumerate() {
        let s = g.snake().segment(i);
        assert_eq!((s.index, s.position, s.direction), *b);
    }
    let tail = g.snake().segment(2);
    assert_eq!(tail.index, 2);
    // The old tail was handed the head's turn Down, so the new one starts one
    // width above it.
    assert_eq!(tail.direction, Direction::Down);
    assert_eq!(tail.position, Position { x: 50, y: 60 });
}

#[test]
fn eating_food_grows_the_chain_and_removes_the_food() {
    let mut g = game_at(0, 0, Direction::Up);
    assert!(g.place_food(Position { x: 0, y: 20 }));
    assert!(!g.place_food(Position { x: 0, y: 30 }));
    let r = g.tick(100, None);
    assert_eq!(r, TickResult { stepped: true, grew: false });
    let r = g.tick(100, None);
    assert_eq!(r, TickResult { stepped: true, grew: true });
    assert_eq!(g.food(), None);
    assert_eq!(positions(&g), vec![(0, 20), (0, 10)]);
}

#[test]
fn food_outside_the_arena_is_refused() {
    let mut g = game_at(0, 0, Direction::Up);
    assert!(!g.place_food(Position { x: 400, y: 0 }));
    assert_eq!(g.food(), None);
}

#[test]
fn spawned_food_lies_in_the_arena_and_is_single() {
    let mut g = game_at(0, 0, Direction::Up);
    assert!(g.spawn_food());
    let f = g.food().unwrap();
    assert!(g.arena().contains(f.position));
    assert!(!g.spawn_food());
    assert_eq!(g.food(), Some(f));
}

#[test]
fn the_timer_gates_movement() {
    let mut g = game_at(0, 0, Direction::Up);
    assert_eq!(g.tick(60, None), TickResult { stepped: false, grew: false });
    assert_eq!(positions(&g), vec![(0, 0)]);
    assert_eq!(g.timer().elapsed_ms(), 60);
    assert_eq!(g.tick(60, None), TickResult { stepped: true, grew: false });
    assert_eq!(positions(&g), vec![(0, 10)]);
    assert_eq!(g.timer().elapsed_ms(), 20);
    // Several periods at once still take a single step.
    assert_eq!(g.tick(350, None), TickResult { stepped: true, grew: false });
    assert_eq!(positions(&g), vec![(0, 20)]);
    assert_eq!(g.timer().elapsed_ms(), 70);
}

#[test]
fn step_length_is_speed_times_period() {
    let g = Game::new(arena(), Position { x: 0, y: 0 }, Direction::Up, Settings { speed: 500, period_ms: 100, segment_width: 10 }).unwrap();
    assert_eq!(g.step_length(), 50);
    assert_eq!(g.segment_width(), 10);
}

#[test]
fn setup_errors() {
    let start = Position { x: 0, y: 0 };
    let bad = Arena { min_x: 5, max_x: 4, min_y: 0, max_y: 0 };
    assert_eq!(Game::new(bad, start, Direction::Up, settings()).err(), Some(SetupError::InvalidArena));
    let s = Settings { period_ms: 0, ..settings() };
    assert_eq!(Game::new(arena(), start, Direction::Up, s).err(), Some(SetupError::ZeroPeriod));
    let s = Settings { speed: u64::MAX, ..settings() };
    assert_eq!(Game::new(arena(), start, Direction::Up, s).err(), Some(SetupError::StepTooLong));
    let s = Settings { segment_width: 0, ..settings() };
    assert_eq!(Game::new(arena(), start, Direction::Up, s).err(), Some(SetupError::InvalidSegmentWidth));
    let far = Position { x: 0, y: 300 };
    assert_eq!(Game::new(arena(), far, Direction::Up, settings()).err(), Some(SetupError::StartOutsideArena));
}
