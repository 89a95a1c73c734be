use snake_game::direction::Direction;
use snake_game::snake::Snake;
use std::time::Duration;

fn snake(x: u16, y: u16, direction: Direction) -> Snake {
    Snake { x, y, direction }
}

#[test]
fn glyph_of_each_heading() {
    assert_eq!(Direction::Up.glyph(), '^');
    assert_eq!(Direction::Down.glyph(), 'v');
    assert_eq!(Direction::Left.glyph(), '<');
    assert_eq!(Direction::Right.glyph(), '>');
}

#[test]
fn glyphs_are_pairwise_distinct() {
    let all = [Direction::Up, Direction::Down, Direction::Left, Direction::Right];
    for (i, a) in all.iter().enumerate() {
        for (j, b) in all.iter().enumerate() {
            assert_eq!(a.glyph() == b.glyph(), i == j);
        }
    }
}

#[test]
fn wait_millis_is_75_vertical_and_50_horizontal() {
    assert_eq!(Direction::Up.wait_millis(), 75);
    assert_eq!(Direction::Down.wait_millis(), 75);
    assert_eq!(Direction::Left.wait_millis(), 50);
    assert_eq!(Direction::Right.wait_millis(), 50);
}

#[test]
fn new_snake_starts_top_left_heading_right() {
    let s = Snake::new();
    assert_eq!(s.x, 0);
    assert_eq!(s.y, 0);
    assert_eq!(s.direction, Direction::Right);
}

#[test]
fn get_char_follows_the_heading() {
    assert_eq!(Snake::new().get_char(), '>');
    assert_eq!(snake(3, 4, Direction::Up).get_char(), '^');
    assert_eq!(snake(3, 4, Direction::Down).get_char(), 'v');
    assert_eq!(snake(3, 4, Direction::Left).get_char(), '<');
}

#[test]
fn get_wait_time_is_75ms_when_vertical() {
    assert_eq!(snake(0, 0, Direction::Up).get_wait_time(), Duration::from_millis(75));
    assert_eq!(snake(0, 0, Direction::Down).get_wait_time(), Duration::from_millis(75));
    assert_eq!(snake(0, 0, Direction::Up).get_wait_time().as_millis(), 75);
}

#[test]
fn get_wait_time_is_50ms_when_horizontal() {
    assert_eq!(snake(0, 0, Direction::Left).get_wait_time(), Duration::from_millis(50));
    assert_eq!(snake(0, 0, Direction::Right).get_wait_time(), Duration::from_millis(50));
    assert_eq!(Snake::new().get_wait_time().as_millis(), 50);
}

#[test]
fn set_direction_overwrites_the_heading_only() {
    let mut s = snake(7, 2, Direction::Right);
    s.set_direction(Direction::Left);
    assert_eq!(s, snake(7, 2, Direction::Left));
    s.set_direction(Direction::Left);
    assert_eq!(s, snake(7, 2, Direction::Left));
    s.set_direction(Direction::Down);
    assert_eq!(s, snake(7, 2, Direction::Down));
}

#[test]
fn right_at_the_limit_is_refused() {
    for y in [0u16, 1, 10, 11, 4000, u16::MAX] {
        let mut s = snake(10, y, Direction::Right);
        assert!(!s.move_snake(10, 10));
        assert_eq!(s, snake(10, y, Direction::Right));
    }
}

#[test]
fn right_below_the_limit_steps_onto_it() {
    for y in [0u16, 1, 10, 4000, u16::MAX] {
        let mut s = snake(9, y, Direction::Right);
        assert!(s.move_snake(10, 10));
        assert_eq!(s, snake(10, y, Direction::Right));
    }
}

#[test]
fn up_on_the_top_row_is_refused_whatever_the_height() {
    for max_height in [0u16, 1, 5, 24, u16::MAX] {
        let mut s = snake(4, 0, Direction::Up);
        assert!(!s.move_snake(80, max_height));
        assert_eq!(s, snake(4, 0, Direction::Up));
    }
}

#[test]
fn up_from_row_one_reaches_the_top_row() {
    for max_height in [0u16, 1, 5, 24, u16::MAX] {
        let mut s = snake(4, 1, Direction::Up);
        assert!(s.move_snake(80, max_height));
        assert_eq!(s, snake(4, 0, Direction::Up));
    }
}

#[test]
fn down_steps_until_the_row_equals_the_limit() {
    let mut s = snake(2, 0, Direction::Down);
    assert!(s.move_snake(5, 2));
    assert_eq!(s.y, 1);
    assert!(s.move_snake(5, 2));
    assert_eq!(s.y, 2);
    assert!(!s.move_snake(5, 2));
    assert_eq!(s, snake(2, 2, Direction::Down));
}

#[test]
fn left_on_the_first_column_is_refused() {
    let mut s = snake(0, 3, Direction::Left);
    assert!(!s.move_snake(5, 5));
    assert_eq!(s, snake(0, 3, Direction::Left));
    let mut t = snake(1, 3, Direction::Left);
    assert!(t.move_snake(5, 5));
    assert_eq!(t, snake(0, 3, Direction::Left));
}

#[test]
fn largest_coordinates_do_not_overflow() {
    let mut s = snake(u16::MAX, u16::MAX, Direction::Right);
    assert!(!s.move_snake(u16::MAX, u16::MAX));
    s.set_direction(Direction::Down);
    assert!(!s.move_snake(u16::MAX, u16::MAX));
    assert_eq!(s, snake(u16::MAX, u16::MAX, Direction::Down));
    let mut t = snake(u16::MAX - 1, u16::MAX - 1, Direction::Right);
    assert!(t.move_snake(u16::MAX, u16::MAX));
    t.set_direction(Direction::Down);
    assert!(t.move_snake(u16::MAX, u16::MAX));
    assert_eq!(t, snake(u16::MAX, u16::MAX, Direction::Down));
}

#[test]
fn a_snake_beyond_the_limit_may_still_step_back() {
    let mut s = snake(12, 12, Direction::Left);
    assert!(s.move_snake(10, 10));
    assert_eq!(s, snake(11, 12, Direction::Left));
    s.set_direction(Direction::Down);
    assert!(!s.move_snake(10, 10));
}

#[test]
fn an_allowed_step_stays_within_the_limits() {
    let all = [Direction::Up, Direction::Down, Direction::Left, Direction::Right];
    for x in 0u16..=4 {
        for y in 0u16..=3 {
            for d in all {
                let mut s = snake(x, y, d);
                let before = s;
                let moved = s.move_snake(4, 3);
                assert!(s.x <= 4 && s.y <= 3);
                assert_eq!(s.direction, d);
                if !moved {
                    assert_eq!(s, before);
                } else {
                    let dx = (s.x as i32 - before.x as i32).abs();
                    let dy = (s.y as i32 - before.y as i32).abs();
                    assert_eq!(dx + dy, 1);
                }
            }
        }
    }
}
