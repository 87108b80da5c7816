use paddles::ball::Ball;
use paddles::direction::Direction;
use paddles::grid::GridPosition;
use paddles::paddle::{Padle, Segment, PADDLE_LEN};

fn ys(p: &Padle) -> Vec<i16> {
    p.body.iter().map(|s| s.pos.y).collect()
}

fn xs(p: &Padle) -> Vec<i16> {
    p.body.iter().map(|s| s.pos.x).collect()
}

#[test]
fn segment_wraps_a_position() {
    let s = Segment::new(GridPosition::new(4, 9));
    assert_eq!(s.pos, GridPosition::new(4, 9));
}

#[test]
fn new_paddle_descends_from_the_anchor() {
    let p = Padle::new(GridPosition::new(0, 10));
    assert_eq!(p.body.len(), PADDLE_LEN);
    assert_eq!(ys(&p), vec![10, 9, 8, 7, 6]);
    assert_eq!(xs(&p), vec![0, 0, 0, 0, 0]);
    assert_eq!(p.dir, Direction::Still);
}

#[test]
fn body_length_is_constant_over_updates() {
    let mut p = Padle::new(GridPosition::new(0, 10));
    for i in 0..50 {
        p.dir = match i % 4 {
            0 => Direction::Up,
            1 => Direction::Down,
            2 => Direction::Still,
            _ => Direction::Left,
        };
        p.update();
        assert_eq!(p.body.len(), PADDLE_LEN);
    }
}

#[test]
fn up_update_shifts_the_bar_up() {
    let mut p = Padle::new(GridPosition::new(0, 10));
    assert_eq!(ys(&p), vec![10, 9, 8, 7, 6]);
    p.dir = Direction::Up;
    p.update();
    assert_eq!(ys(&p), vec![9, 8, 7, 6, 5]);
    assert_eq!(xs(&p), vec![0, 0, 0, 0, 0]);
    assert_eq!(p.dir, Direction::Still);
}

#[test]
fn down_update_shifts_the_bar_down() {
    let mut p = Padle::new(GridPosition::new(0, 10));
    assert_eq!(ys(&p), vec![10, 9, 8, 7, 6]);
    p.dir = Direction::Down;
    p.update();
    assert_eq!(ys(&p), vec![11, 10, 9, 8, 7]);
    assert_eq!(xs(&p), vec![0, 0, 0, 0, 0]);
    assert_eq!(p.dir, Direction::Still);
}

#[test]
fn up_update_wraps_over_the_top_edge() {
    let mut p = Padle::new(GridPosition::new(0, 4));
    assert_eq!(ys(&p), vec![4, 3, 2, 1, 0]);
    p.dir = Direction::Up;
    p.update();
    assert_eq!(ys(&p), vec![3, 2, 1, 0, 19]);
}

#[test]
fn sideways_or_idle_direction_changes_nothing() {
    let mut p = Padle::new(GridPosition::new(0, 10));
    p.dir = Direction::Left;
    p.update();
    assert_eq!(ys(&p), vec![10, 9, 8, 7, 6]);
    assert_eq!(p.dir, Direction::Left);
    p.dir = Direction::Still;
    p.update();
    assert_eq!(ys(&p), vec![10, 9, 8, 7, 6]);
    assert_eq!(p.dir, Direction::Still);
}

#[test]
fn meats_ball_scans_every_segment() {
    let p = Padle::new(GridPosition::new(0, 10));
    for y in [10, 9, 8, 7, 6] {
        assert!(p.meats_ball(&Ball::new(GridPosition::new(0, y))));
    }
    assert!(!p.meats_ball(&Ball::new(GridPosition::new(0, 5))));
    assert!(!p.meats_ball(&Ball::new(GridPosition::new(0, 11))));
    assert!(!p.meats_ball(&Ball::new(GridPosition::new(1, 10))));
}
