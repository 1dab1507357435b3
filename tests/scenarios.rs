use grid_puzzle::cell::{Cell, Direction, Point, Powerup};
use grid_puzzle::game_state::{GameState, Key};
use grid_puzzle::level::Level;
use grid_puzzle::levels::{level_1, level_2, level_4, levels};

fn p(x: i8, y: i8) -> Point {
    Point { x, y }
}

/// Plays `keys` on a working copy of `template`; gives the level, the state
/// and whether the exit was reached.
fn play(template: &Level, keys: &[Key]) -> (Level, GameState, bool) {
    let (mut level, mut state) = GameState::new().begin_level(template);
    let finish = template.finish_position();
    let (max_x, max_y) = template.size();
    let mut finished = false;
    for &key in keys {
        let player = level.player_position().expect("player present");
        let (next, done) = state.take_turn(&mut level, player, finish, key, max_x, max_y);
        state = next;
        finished = finished || done;
        if done {
            break;
        }
    }
    (level, state, finished)
}

#[test]
fn open_room_reached_along_the_edges() {
    let (level, state, finished) = play(&level_1(), &[Key::Right, Key::Right, Key::Right, Key::Down, Key::Down, Key::Down]);
    assert!(finished);
    assert!(!state.is_run());
    assert_eq!(level.get(p(3, 3)), Some(Cell::Player(Powerup::Regular)));
    assert_eq!(level.player_position(), Some(p(3, 3)));
}

#[test]
fn open_room_reached_by_another_path() {
    let (level, _, finished) = play(&level_1(), &[Key::Down, Key::Right, Key::Right, Key::Right, Key::Down, Key::Down]);
    assert!(finished);
    assert_eq!(level.player_position(), Some(p(3, 3)));
}

#[test]
fn door_blocks_the_exit_until_its_switch_is_pressed() {
    let template = level_2();
    let to_door = [Key::Up, Key::Up, Key::Up, Key::Up, Key::Right, Key::Right, Key::Right, Key::Right, Key::Down, Key::Down, Key::Down, Key::Down];
    let (level, _, finished) = play(&template, &to_door);
    assert!(!finished);
    assert_eq!(level.player_position(), Some(p(4, 2)));
    assert_eq!(level.get(p(4, 3)), Some(Cell::Door(1)));

    let via_switch = [
        Key::Up, Key::Up, Key::Up, Key::Up, Key::Right, Key::Right, Key::Down, Key::Up, Key::Right, Key::Right, Key::Down, Key::Down, Key::Down, Key::Down,
    ];
    let (level, state, finished) = play(&template, &via_switch);
    assert!(finished);
    assert!(!state.is_run());
    assert_eq!(level.get(p(4, 3)), Some(Cell::Empty));
    assert_eq!(level.player_position(), Some(p(4, 4)));
}

#[test]
fn rejected_moves_leave_the_level_unchanged() {
    let mut level = Level::empty(3, 3);
    level.update(p(1, 1), Cell::Player(Powerup::Regular));
    level.update(p(1, 0), Cell::HorizontalWall);
    level.update(p(0, 1), Cell::Door(2));
    level.update(p(2, 1), Cell::Void);
    level.update(p(1, 2), Cell::CounterClockwiseEnemy(Direction::Up));
    for target in [p(1, 0), p(0, 1), p(2, 1), p(1, 2)] {
        let before: Vec<Option<Cell>> = (0..3)
            .flat_map(|x| (0..3).map(move |y| (x, y)))
            .map(|(x, y)| level.get(p(x, y)))
            .collect();
        level.move_player(p(1, 1), target, 2, 2);
        let after: Vec<Option<Cell>> = (0..3)
            .flat_map(|x| (0..3).map(move |y| (x, y)))
            .map(|(x, y)| level.get(p(x, y)))
            .collect();
        assert_eq!(before, after);
    }
}

#[test]
fn bounds_reject_moves_beyond_the_size() {
    let mut level = Level::empty(3, 2);
    level.update(p(0, 0), Cell::Player(Powerup::Regular));
    level.update(p(2, 0), Cell::Player(Powerup::Regular));
    let (max_x, max_y) = level.size();
    assert_eq!((max_x, max_y), (2, 1));
    level.move_player(p(0, 0), p(-1, 0), max_x, max_y);
    assert_eq!(level.get(p(0, 0)), Some(Cell::Player(Powerup::Regular)));
    level.move_player(p(2, 0), p(max_x + 1, 0), max_x, max_y);
    assert_eq!(level.get(p(2, 0)), Some(Cell::Player(Powerup::Regular)));
    assert_eq!(level.get(p(3, 0)), None);
}

#[test]
fn switch_opens_its_door_only() {
    let mut level = Level::empty(4, 4);
    level.update(p(0, 0), Cell::Player(Powerup::Regular));
    level.update(p(1, 0), Cell::Switch(7));
    level.update(p(3, 3), Cell::Door(7));
    level.update(p(3, 2), Cell::Door(8));
    level.move_player(p(0, 0), p(1, 0), 3, 3);
    assert_eq!(level.get(p(3, 3)), Some(Cell::Empty));
    assert_eq!(level.get(p(3, 2)), Some(Cell::Door(8)));
    assert_eq!(level.get(p(1, 0)), Some(Cell::Player(Powerup::Regular)));
    assert_eq!(level.get(p(0, 0)), Some(Cell::Empty));
}

#[test]
fn teleporter_works_once() {
    let mut level = Level::empty(3, 3);
    level.update(p(0, 0), Cell::Player(Powerup::Regular));
    level.update(p(1, 0), Cell::OneWayTeleporter(p(2, 2)));
    level.move_player(p(0, 0), p(1, 0), 2, 2);
    assert_eq!(level.get(p(1, 0)), Some(Cell::Empty));
    assert_eq!(level.get(p(2, 2)), Some(Cell::Player(Powerup::Regular)));
    level.update(p(2, 2), Cell::Empty);
    level.update(p(0, 0), Cell::Player(Powerup::Regular));
    level.move_player(p(0, 0), p(1, 0), 2, 2);
    assert_eq!(level.get(p(1, 0)), Some(Cell::Player(Powerup::Regular)));
    assert_eq!(level.get(p(2, 2)), Some(Cell::Empty));
}

#[test]
fn teleporter_may_populate_a_new_point() {
    let mut level = Level::empty(2, 1);
    level.update(p(0, 0), Cell::Player(Powerup::Regular));
    level.update(p(1, 0), Cell::OneWayTeleporter(p(5, 5)));
    level.move_player(p(0, 0), p(1, 0), 1, 0);
    assert_eq!(level.get(p(5, 5)), Some(Cell::Player(Powerup::Regular)));
    assert_eq!(level.size(), (5, 5));
}

#[test]
fn breakable_ground_collapses_behind_the_player() {
    let mut level = Level::empty(3, 1);
    level.update(p(0, 0), Cell::Player(Powerup::Regular));
    level.update(p(1, 0), Cell::BreakableGround);
    level.move_player(p(0, 0), p(1, 0), 2, 0);
    assert_eq!(level.get(p(0, 0)), Some(Cell::Void));
    assert_eq!(level.get(p(1, 0)), Some(Cell::Player(Powerup::Regular)));
    level.move_player(p(1, 0), p(2, 0), 2, 0);
    assert_eq!(level.get(p(1, 0)), Some(Cell::Empty));
    assert_eq!(level.get(p(2, 0)), Some(Cell::Player(Powerup::Regular)));
}

#[test]
fn invincibility_counts_down_then_runs_out() {
    let mut level = Level::empty(8, 1);
    level.update(p(0, 0), Cell::Player(Powerup::Regular));
    level.update(p(1, 0), Cell::Invincibility);
    level.move_player(p(0, 0), p(1, 0), 7, 0);
    assert_eq!(level.get(p(1, 0)), Some(Cell::Player(Powerup::Invincible(5))));
    let expected = [
        Powerup::Invincible(4),
        Powerup::Invincible(3),
        Powerup::Invincible(2),
        Powerup::Invincible(1),
        Powerup::Invincible(0),
        Powerup::Regular,
    ];
    for (k, want) in expected.iter().enumerate() {
        let from = p(1 + k as i8, 0);
        let to = p(2 + k as i8, 0);
        level.move_player(from, to, 7, 0);
        assert_eq!(level.get(to), Some(Cell::Player(*want)));
    }
}

#[test]
fn invincible_player_crosses_void_and_eats_enemies() {
    let mut level = Level::empty(3, 1);
    level.update(p(0, 0), Cell::Player(Powerup::Invincible(2)));
    level.update(p(1, 0), Cell::Void);
    level.update(p(2, 0), Cell::CounterClockwiseEnemy(Direction::Left));
    level.move_player(p(0, 0), p(1, 0), 2, 0);
    assert_eq!(level.get(p(0, 0)), Some(Cell::Empty));
    assert_eq!(level.get(p(1, 0)), Some(Cell::Player(Powerup::Invincible(1))));
    level.move_player(p(1, 0), p(2, 0), 2, 0);
    assert_eq!(level.get(p(2, 0)), Some(Cell::Player(Powerup::Invincible(0))));
    assert_eq!(level.get(p(1, 0)), Some(Cell::Empty));
}

#[test]
fn exit_is_walkable() {
    let mut level = Level::empty(2, 1);
    level.update(p(0, 0), Cell::Player(Powerup::Regular));
    level.update(p(1, 0), Cell::Exit);
    level.move_player(p(0, 0), p(1, 0), 1, 0);
    assert_eq!(level.get(p(1, 0)), Some(Cell::Player(Powerup::Regular)));
    assert_eq!(level.finish_position(), None);
}

#[test]
fn blocked_enemies_turn_counter_clockwise() {
    let cases = [
        (Direction::Up, Direction::Left),
        (Direction::Down, Direction::Right),
        (Direction::Left, Direction::Down),
        (Direction::Right, Direction::Up),
    ];
    for (facing, turned) in cases {
        // Before a wall.
        let mut level = Level::empty(3, 3);
        level.update(p(1, 1), Cell::CounterClockwiseEnemy(facing));
        for q in [p(1, 0), p(1, 2), p(0, 1), p(2, 1)] {
            level.update(q, Cell::VerticalWall);
        }
        level.update_enemies();
        assert_eq!(level.get(p(1, 1)), Some(Cell::CounterClockwiseEnemy(turned)));
        // Before the edge of the map.
        let mut level = Level::empty(1, 1);
        level.update(p(0, 0), Cell::CounterClockwiseEnemy(facing));
        level.update_enemies();
        assert_eq!(level.get(p(0, 0)), Some(Cell::CounterClockwiseEnemy(turned)));
    }
}

#[test]
fn enemies_decide_from_the_level_before_the_tick() {
    let mut level = Level::empty(3, 1);
    level.update(p(0, 0), Cell::CounterClockwiseEnemy(Direction::Right));
    level.update(p(1, 0), Cell::CounterClockwiseEnemy(Direction::Right));
    level.update_enemies();
    assert_eq!(level.get(p(0, 0)), Some(Cell::CounterClockwiseEnemy(Direction::Right)));
    assert_eq!(level.get(p(1, 0)), Some(Cell::Empty));
    assert_eq!(level.get(p(2, 0)), Some(Cell::CounterClockwiseEnemy(Direction::Right)));
}

#[test]
fn enemy_stays_before_a_pickup() {
    let mut level = Level::empty(2, 1);
    level.update(p(0, 0), Cell::CounterClockwiseEnemy(Direction::Right));
    level.update(p(1, 0), Cell::Invincibility);
    level.update_enemies();
    assert_eq!(level.get(p(0, 0)), Some(Cell::CounterClockwiseEnemy(Direction::Right)));
    assert_eq!(level.get(p(1, 0)), Some(Cell::Invincibility));
}

#[test]
fn enemy_kills_a_player_and_the_level_restarts() {
    let mut level = Level::empty(2, 1);
    level.update(p(0, 0), Cell::CounterClockwiseEnemy(Direction::Right));
    level.update(p(1, 0), Cell::Player(Powerup::Regular));
    let state = GameState::new();
    let state = state.enemy_turn(&mut level);
    assert!(!state.is_restart());
    assert_eq!(level.get(p(1, 0)), Some(Cell::CounterClockwiseEnemy(Direction::Right)));
    assert_eq!(level.player_position(), None);
    let state = state.enemy_turn(&mut level);
    assert!(state.is_restart());
    assert_eq!(level.get(p(1, 0)), Some(Cell::CounterClockwiseEnemy(Direction::Right)));
}

#[test]
fn invincible_player_destroys_an_enemy_walking_onto_it() {
    let mut level = Level::empty(2, 1);
    level.update(p(0, 0), Cell::CounterClockwiseEnemy(Direction::Right));
    level.update(p(1, 0), Cell::Player(Powerup::Invincible(3)));
    level.update_enemies();
    assert_eq!(level.get(p(0, 0)), Some(Cell::Empty));
    assert_eq!(level.get(p(1, 0)), Some(Cell::Player(Powerup::Invincible(3))));
}

#[test]
fn stepping_on_void_asks_for_a_restart() {
    let mut template = Level::empty(2, 1);
    template.update(p(0, 0), Cell::Player(Powerup::Regular));
    template.update(p(1, 0), Cell::Void);
    let (mut level, state) = GameState::new().begin_level(&template);
    let (state, finished) = state.take_turn(&mut level, p(0, 0), None, Key::Right, 1, 0);
    assert!(!finished);
    assert!(state.is_restart());
    assert_eq!(level.get(p(0, 0)), Some(Cell::Player(Powerup::Regular)));
    let (fresh, state) = GameState::restart_level(&template);
    assert!(!state.is_restart());
    assert_eq!(state.point(), p(0, 0));
    assert_eq!(fresh.get(p(1, 0)), Some(Cell::Void));
}

#[test]
fn control_keys_do_not_move_the_player() {
    let (mut level, state) = GameState::new().begin_level(&level_1());
    let (state, _) = state.take_turn(&mut level, p(0, 0), Some(p(3, 3)), Key::Char('h'), 3, 3);
    assert!(state.is_help());
    assert_eq!(level.player_position(), Some(p(0, 0)));
    let (state, _) = state.take_turn(&mut level, p(0, 0), Some(p(3, 3)), Key::Other, 3, 3);
    assert_eq!(state.point(), p(0, 0));
    let (state, _) = state.take_turn(&mut level, p(0, 0), Some(p(3, 3)), Key::Esc, 3, 3);
    assert!(state.is_terminate());
    assert!(!state.is_run());
}

#[test]
fn arrow_key_at_the_edge_of_the_coordinates_keeps_the_point() {
    let state = GameState::new().new_point(p(-128, 127));
    assert_eq!(state.update_player_position(Key::Left).point(), p(-128, 127));
    assert_eq!(state.update_player_position(Key::Down).point(), p(-128, 127));
    assert_eq!(state.update_player_position(Key::Up).point(), p(-128, 126));
}

#[test]
fn searches_find_the_first_in_scan_order() {
    let mut level = Level::empty(3, 3);
    level.update(p(2, 0), Cell::Door(4));
    level.update(p(1, 2), Cell::Door(4));
    assert_eq!(level.door_position(4), Some(p(1, 2)));
    assert_eq!(level.door_position(5), None);
}

#[test]
fn all_levels_have_a_player_and_an_exit() {
    let all = levels();
    assert_eq!(all.len(), 5);
    for level in &all {
        assert!(level.player_position().is_some());
        assert!(level.finish_position().is_some());
    }
    assert_eq!(level_4().size(), (30, 23));
    assert_eq!(level_4().finish_position(), Some(p(30, 23)));
    assert_eq!(level_2().size(), (4, 4));
}

#[test]
fn empty_level_without_cells() {
    let level = Level::empty(0, 0);
    assert_eq!(level.size(), (0, 0));
    assert_eq!(level.get(p(0, 0)), None);
    assert_eq!(level.player_position(), None);
    assert_eq!(level.finish_position(), None);
    assert!(level.cells().is_empty());
}

#[test]
fn largest_level() {
    let level = Level::empty(128, 128);
    assert_eq!(level.size(), (127, 127));
    assert_eq!(level.get(p(127, 127)), Some(Cell::Empty));
    assert_eq!(level.get(p(-1, 0)), None);
    assert_eq!(level.cells().len(), 128 * 128);
}

#[test]
fn size_ignores_negative_coordinates() {
    let mut level = Level::empty(2, 3);
    level.update(p(-5, -7), Cell::VerticalWall);
    assert_eq!(level.size(), (1, 2));
    let cells = level.cells();
    assert_eq!(cells[0], (p(-5, -7), Cell::VerticalWall));
    assert_eq!(cells.len(), 7);
}

#[test]
fn invincible_pickup_resets_the_count() {
    let mut level = Level::empty(2, 1);
    level.update(p(0, 0), Cell::Player(Powerup::Invincible(1)));
    level.update(p(1, 0), Cell::Invincibility);
    level.move_player(p(0, 0), p(1, 0), 1, 0);
    assert_eq!(level.get(p(1, 0)), Some(Cell::Player(Powerup::Invincible(5))));
}
