use rusty_snake::clock::SimulationClock;
use rusty_snake::direction::Direction;
use rusty_snake::game::App;
use rusty_snake::snake::{Snake, SnakePart};

fn part(x: i32, y: i32, direction: Direction) -> SnakePart {
    SnakePart { x, y, direction }
}

fn line_right(n: i32, x0: i32, y: i32) -> Snake {
    let mut parts: Vec<SnakePart> = Vec::new();
    let mut i: i32 = 0;
    while i < n {
        parts.push(part(x0 + i, y, Direction::Right));
        i += 1;
    }
    Snake::new(parts)
}

#[test]
fn tick_moves_each_segment_one_unit() {
    let mut s = Snake::initial();
    s.advance();
    assert_eq!(s.len(), 5);
    for i in 0..5 {
        let p = s.part(i);
        assert_eq!(p.x, 3 + i as i32);
        assert_eq!(p.y, 5);
        assert_eq!(p.direction, Direction::Right);
    }
}

#[test]
fn chain_stays_contiguous_over_many_ticks() {
    let mut s = Snake::initial();
    s.request_direction(Direction::Up);
    s.advance();
    s.request_direction(Direction::Left);
    s.advance();
    s.advance();
    s.request_direction(Direction::Down);
    s.advance();
    for i in 0..s.len() - 1 {
        let behind = s.part(i);
        let ahead = s.part(i + 1);
        let dx = (ahead.x - behind.x).abs();
        let dy = (ahead.y - behind.y).abs();
        assert_eq!(dx + dy, 1);
    }
}

#[test]
fn opposite_request_never_turns_head() {
    let mut s = Snake::initial();
    assert_eq!(s.head_direction(), Direction::Right);
    s.request_direction(Direction::Left);
    assert_eq!(s.head_direction(), Direction::Right);
}

#[test]
fn opposite_request_rejected_for_every_direction() {
    let pairs = [
        (Direction::Up, Direction::Down),
        (Direction::Down, Direction::Up),
        (Direction::Left, Direction::Right),
        (Direction::Right, Direction::Left),
    ];
    for (current, reversal) in pairs {
        let mut s = Snake::new(vec![part(0, 0, current)]);
        s.request_direction(reversal);
        assert_eq!(s.head_direction(), current);
    }
}

#[test]
fn only_first_request_per_tick_takes_effect() {
    let mut s = Snake::initial();
    s.request_direction(Direction::Up);
    assert_eq!(s.head_direction(), Direction::Up);
    s.request_direction(Direction::Down);
    assert_eq!(s.head_direction(), Direction::Up);
    s.advance();
    s.request_direction(Direction::Left);
    assert_eq!(s.head_direction(), Direction::Left);
}

#[test]
fn propagation_is_one_tick_delayed() {
    let mut s = line_right(3, 2, 5);
    s.request_direction(Direction::Up);
    s.advance();
    // The head moved up; the middle segment still moved right during the
    // tick in which the head turned.
    assert_eq!((s.part(2).x, s.part(2).y), (4, 4));
    assert_eq!((s.part(1).x, s.part(1).y), (4, 5));
    assert_eq!((s.part(0).x, s.part(0).y), (3, 5));
    // The inherited direction moves the middle segment only on this tick.
    s.advance();
    assert_eq!((s.part(2).x, s.part(2).y), (4, 3));
    assert_eq!((s.part(1).x, s.part(1).y), (4, 4));
    assert_eq!((s.part(0).x, s.part(0).y), (4, 5));
}

#[test]
fn rejected_reversal_twice_same_as_once() {
    let mut s = Snake::initial();
    s.request_direction(Direction::Left);
    let after_once: Vec<SnakePart> = s.parts().clone();
    let head_once = s.head_direction();
    let flag_once = s.next_direction_set();
    s.request_direction(Direction::Left);
    assert_eq!(s.parts().as_slice(), after_once.as_slice());
    assert_eq!(s.head_direction(), head_once);
    assert_eq!(s.next_direction_set(), flag_once);
    assert_eq!(s.head_direction(), Direction::Right);
    assert!(s.next_direction_set());
}

#[test]
fn debounce_flag_reopens_after_tick() {
    let mut s = Snake::initial();
    s.request_direction(Direction::Up);
    assert!(s.next_direction_set());
    s.advance();
    assert!(!s.next_direction_set());
}

#[test]
fn single_segment_snake_moves_and_turns() {
    let mut s = Snake::new(vec![part(0, 0, Direction::Down)]);
    s.advance();
    assert_eq!((s.part(0).x, s.part(0).y), (0, 1));
    s.request_direction(Direction::Left);
    s.advance();
    assert_eq!((s.part(0).x, s.part(0).y), (-1, 1));
    assert_eq!(s.head_direction(), Direction::Left);
}

#[test]
fn six_tenths_of_a_second_is_one_tick_with_residue() {
    let mut c = SimulationClock::new(500);
    let ticks = c.advance(600);
    assert_eq!(ticks, 1);
    assert_eq!(c.tick_accumulator(), 100);
    assert_eq!(c.time(), 600);
}

#[test]
fn twelve_tenths_of_a_second_is_two_ticks() {
    let mut c = SimulationClock::new(500);
    let ticks = c.advance(1200);
    assert_eq!(ticks, 2);
    assert_eq!(c.tick_accumulator(), 200);
}

#[test]
fn residue_carries_into_the_next_window() {
    let mut c = SimulationClock::new(500);
    assert_eq!(c.advance(300), 0);
    assert_eq!(c.advance(300), 1);
    assert_eq!(c.tick_accumulator(), 100);
    assert_eq!(c.time(), 600);
}

#[test]
fn short_delta_releases_no_tick() {
    let mut c = SimulationClock::new(250);
    assert_eq!(c.advance(249), 0);
    assert_eq!(c.tick_accumulator(), 249);
    assert_eq!(c.advance(1), 1);
    assert_eq!(c.tick_accumulator(), 0);
}

#[test]
fn one_tick_shifts_the_whole_line_right() {
    let mut app = App::new(250, Snake::initial());
    let ticks = app.update(250);
    assert_eq!(ticks, 1);
    let s = app.snake();
    assert_eq!(s.len(), 5);
    for i in 0..5 {
        let p = s.part(i);
        assert_eq!(p.x, 3 + i as i32);
        assert_eq!(p.y, 5);
        assert_eq!(p.direction, Direction::Right);
    }
}

#[test]
fn update_shorter_than_a_tick_moves_nothing() {
    let mut app = App::new(250, Snake::initial());
    let ticks = app.update(100);
    assert_eq!(ticks, 0);
    let s = app.snake();
    for i in 0..5 {
        assert_eq!(s.part(i).x, 2 + i as i32);
    }
    assert_eq!(app.clock().tick_accumulator(), 100);
}

#[test]
fn key_press_turns_head_on_next_tick() {
    let mut app = App::new(250, Snake::initial());
    app.key(Direction::Up);
    app.key(Direction::Down);
    let ticks = app.update(500);
    assert_eq!(ticks, 2);
    let s = app.snake();
    // Two ticks after turning up: the head rose twice, the follower once.
    assert_eq!((s.part(4).x, s.part(4).y), (6, 3));
    assert_eq!((s.part(3).x, s.part(3).y), (6, 4));
    assert_eq!((s.part(2).x, s.part(2).y), (6, 5));
}
