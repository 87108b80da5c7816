use paddles::direction::{Direction, Key};

#[test]
fn inverse_maps_every_variant() {
    assert_eq!(Direction::Still.inverse(), Direction::Still);
    assert_eq!(Direction::Up.inverse(), Direction::Down);
    assert_eq!(Direction::Down.inverse(), Direction::Up);
    assert_eq!(Direction::Left.inverse(), Direction::Right);
    assert_eq!(Direction::Right.inverse(), Direction::Left);
}

#[test]
fn inverse_is_involutive() {
    let all = [
        Direction::Still,
        Direction::Up,
        Direction::Down,
        Direction::Left,
        Direction::Right,
    ];
    for d in all {
        assert_eq!(d.inverse().inverse(), d);
    }
}

#[test]
fn keys_map_to_directions() {
    assert_eq!(Direction::from_keycode(Key::Up), Some(Direction::Up));
    assert_eq!(Direction::from_keycode(Key::Down), Some(Direction::Down));
    assert_eq!(Direction::from_keycode(Key::W), Some(Direction::Up));
    assert_eq!(Direction::from_keycode(Key::S), Some(Direction::Down));
    assert_eq!(Direction::from_keycode(Key::Left), Some(Direction::Left));
    assert_eq!(Direction::from_keycode(Key::Right), Some(Direction::Right));
    assert_eq!(Direction::from_keycode(Key::Other), None);
}

#[test]
fn keys_map_to_players() {
    assert_eq!(Direction::from_keycode_player_number(Key::Up), Some(2));
    assert_eq!(Direction::from_keycode_player_number(Key::Down), Some(2));
    assert_eq!(Direction::from_keycode_player_number(Key::Left), Some(2));
    assert_eq!(Direction::from_keycode_player_number(Key::Right), Some(2));
    assert_eq!(Direction::from_keycode_player_number(Key::W), Some(1));
    assert_eq!(Direction::from_keycode_player_number(Key::S), Some(1));
    assert_eq!(Direction::from_keycode_player_number(Key::Other), None);
}
