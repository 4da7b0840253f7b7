use snake_core::game::GameState;
use snake_core::grid::{ArenaConfig, Direction, Position};
use snake_core::timer::TickTimer;

fn pos(x: u32, y: u32) -> Position {
    Position { x, y }
}

fn open_arena(width: u32, height: u32) -> ArenaConfig {
    ArenaConfig { width, height, border: 0 }
}

fn state(config: ArenaConfig, body: Vec<Position>, direction: Direction) -> GameState {
    GameState {
        config,
        body,
        direction,
        food: None,
        score: 0,
        last_tail: None,
    }
}

#[test]
fn opposite_maps_each_direction() {
    assert_eq!(Direction::Left.opposite(), Direction::Right);
    assert_eq!(Direction::Right.opposite(), Direction::Left);
    assert_eq!(Direction::Up.opposite(), Direction::Down);
    assert_eq!(Direction::Down.opposite(), Direction::Up);
}

#[test]
fn input_priority_is_left_down_up_right() {
    let config = open_arena(10, 10);
    let mut s = state(config, vec![pos(5, 5)], Direction::Up);
    s.snake_movement_input(true, true, true, true);
    assert_eq!(s.direction, Direction::Left);

    let mut s = state(config, vec![pos(5, 5)], Direction::Left);
    s.snake_movement_input(false, true, true, true);
    assert_eq!(s.direction, Direction::Down);

    let mut s = state(config, vec![pos(5, 5)], Direction::Left);
    s.snake_movement_input(false, false, true, true);
    assert_eq!(s.direction, Direction::Up);

    let mut s = state(config, vec![pos(5, 5)], Direction::Up);
    s.snake_movement_input(false, false, false, true);
    assert_eq!(s.direction, Direction::Right);
}

#[test]
fn input_rejects_exact_reversal() {
    let config = open_arena(10, 10);
    let mut s = state(config, vec![pos(5, 5)], Direction::Right);
    s.snake_movement_input(true, false, false, false);
    assert_eq!(s.direction, Direction::Right);

    let mut s = state(config, vec![pos(5, 5)], Direction::Up);
    s.snake_movement_input(false, true, false, false);
    assert_eq!(s.direction, Direction::Up);

    let mut s = state(config, vec![pos(5, 5)], Direction::Down);
    s.snake_movement_input(false, false, true, false);
    assert_eq!(s.direction, Direction::Down);
}

#[test]
fn input_without_keys_keeps_direction() {
    let config = open_arena(10, 10);
    let mut s = state(config, vec![pos(5, 5)], Direction::Down);
    s.snake_movement_input(false, false, false, false);
    assert_eq!(s.direction, Direction::Down);
}

#[test]
fn tick_steps_head_one_cell_and_tail_follows() {
    // arena 10x10, head (3,3) heading up, one segment at (3,2)
    let config = open_arena(10, 10);
    let mut s = state(config, vec![pos(3, 3), pos(3, 2)], Direction::Up);
    let ev = s.tick();
    assert!(!ev.game_over);
    assert!(!ev.growth);
    assert_eq!(s.body, vec![pos(3, 4), pos(3, 3)]);
    assert_eq!(s.last_tail, Some(pos(3, 2)));
}

#[test]
fn tick_off_left_edge_is_game_over() {
    // head at (0, y) heading left: x would leave the arena
    let config = open_arena(10, 10);
    let mut s = state(config, vec![pos(0, 4)], Direction::Left);
    s.score = 3;
    let ev = s.tick();
    assert!(ev.game_over);
    assert!(!ev.growth);
    // the game restarted: one fresh segment, score and food cleared
    assert_eq!(s.body.len(), 1);
    assert_eq!(s.score, 0);
    assert_eq!(s.food, None);
    let head = s.body[0];
    assert!(head.x < 10 && head.y < 10);
}

#[test]
fn tick_into_own_body_is_game_over() {
    let config = open_arena(10, 10);
    let mut s = state(
        config,
        vec![pos(2, 2), pos(1, 2), pos(1, 3), pos(2, 3)],
        Direction::Up,
    );
    // stepping up from (2,2) lands on the pre-move segment (2,3)
    let ev = s.tick();
    assert!(ev.game_over);
    assert_eq!(s.body.len(), 1);
}

#[test]
fn tick_respects_border_inset() {
    // with a one-cell border the playable region is [1, 29) in each axis
    let config = ArenaConfig { width: 30, height: 30, border: 1 };
    let mut s = state(config, vec![pos(1, 5)], Direction::Left);
    let ev = s.tick();
    assert!(ev.game_over);

    let mut s = state(config, vec![pos(2, 5)], Direction::Left);
    let ev = s.tick();
    assert!(!ev.game_over);
    assert_eq!(s.body, vec![pos(1, 5)]);
}

#[test]
fn head_stays_in_bounds_over_a_long_run() {
    let config = open_arena(8, 8);
    let mut s = state(config, vec![pos(4, 4), pos(4, 3)], Direction::Up);
    for _ in 0..100 {
        let ev = s.tick();
        let head = s.body[0];
        assert!(head.x < 8 && head.y < 8);
        if ev.game_over {
            assert_eq!(s.body.len(), 1);
        }
    }
}

#[test]
fn eating_destroys_food_fires_growth_once_and_grows_by_one() {
    let config = open_arena(10, 10);
    let mut s = state(config, vec![pos(3, 3), pos(3, 2)], Direction::Up);
    s.food = Some(pos(3, 3));
    s.last_tail = Some(pos(3, 1));
    let before = s.body.len();
    let grew = s.snake_eating();
    assert!(grew);
    assert_eq!(s.food, None);
    assert_eq!(s.score, 1);
    s.snake_growth(grew);
    assert_eq!(s.body.len(), before + 1);
    // the new segment sits on the cell the tail vacated this tick
    assert_eq!(s.body[s.body.len() - 1], pos(3, 1));
}

#[test]
fn eating_elsewhere_changes_nothing() {
    let config = open_arena(10, 10);
    let mut s = state(config, vec![pos(3, 3)], Direction::Up);
    s.food = Some(pos(7, 7));
    let grew = s.snake_eating();
    assert!(!grew);
    assert_eq!(s.food, Some(pos(7, 7)));
    assert_eq!(s.score, 0);
    assert_eq!(s.body.len(), 1);
}

#[test]
fn growth_without_event_changes_nothing() {
    let config = open_arena(10, 10);
    let mut s = state(config, vec![pos(3, 3)], Direction::Up);
    s.last_tail = Some(pos(3, 2));
    s.snake_growth(false);
    assert_eq!(s.body, vec![pos(3, 3)]);
}

#[test]
fn tick_over_food_grows_and_scores() {
    let config = open_arena(10, 10);
    let mut s = state(config, vec![pos(3, 3), pos(3, 2)], Direction::Up);
    s.food = Some(pos(3, 4));
    let ev = s.tick();
    assert!(!ev.game_over);
    assert!(ev.growth);
    assert_eq!(s.body, vec![pos(3, 4), pos(3, 3), pos(3, 2)]);
    assert_eq!(s.food, None);
    assert_eq!(s.score, 1);
}

#[test]
fn game_over_phase_destroys_everything_and_respawns() {
    let config = open_arena(10, 10);
    let mut s = state(
        config,
        vec![pos(3, 3), pos(3, 2), pos(3, 1)],
        Direction::Up,
    );
    s.food = Some(pos(7, 7));
    s.score = 7;
    s.game_over(true);
    assert_eq!(s.food, None);
    assert_eq!(s.score, 0);
    assert_eq!(s.body.len(), 1);
    let head = s.body[0];
    assert!(head.x < 10 && head.y < 10);
}

#[test]
fn game_over_phase_without_event_changes_nothing() {
    let config = open_arena(10, 10);
    let mut s = state(config, vec![pos(3, 3)], Direction::Up);
    s.food = Some(pos(7, 7));
    s.score = 2;
    s.game_over(false);
    assert_eq!(s.body, vec![pos(3, 3)]);
    assert_eq!(s.food, Some(pos(7, 7)));
    assert_eq!(s.score, 2);
}

#[test]
fn food_spawner_with_picks_the_selected_free_cell() {
    // 4x4 arena with a one-cell border: playable cells are (1,1), (2,1),
    // (1,2), (2,2) in row-major order; the snake occupies (1,1)
    let config = ArenaConfig { width: 4, height: 4, border: 1 };
    let mut s = state(config, vec![pos(1, 1)], Direction::Up);
    let spawned = s.food_spawner_with(0);
    assert!(spawned);
    assert_eq!(s.food, Some(pos(2, 1)));

    let mut s = state(config, vec![pos(1, 1)], Direction::Up);
    assert!(s.food_spawner_with(1));
    assert_eq!(s.food, Some(pos(1, 2)));

    let mut s = state(config, vec![pos(1, 1)], Direction::Up);
    assert!(s.food_spawner_with(2));
    assert_eq!(s.food, Some(pos(2, 2)));

    // the draw wraps around the three free cells
    let mut s = state(config, vec![pos(1, 1)], Direction::Up);
    assert!(s.food_spawner_with(3));
    assert_eq!(s.food, Some(pos(2, 1)));
}

#[test]
fn food_spawner_with_nothing_free_spawns_nothing() {
    // 3x3 arena with a one-cell border: (1,1) is the only playable cell
    let config = ArenaConfig { width: 3, height: 3, border: 1 };
    let mut s = state(config, vec![pos(1, 1)], Direction::Up);
    let spawned = s.food_spawner_with(5);
    assert!(!spawned);
    assert_eq!(s.food, None);
}

#[test]
fn food_spawner_keeps_existing_food() {
    let config = open_arena(10, 10);
    let mut s = state(config, vec![pos(3, 3)], Direction::Up);
    s.food = Some(pos(7, 7));
    let spawned = s.food_spawner();
    assert!(!spawned);
    assert_eq!(s.food, Some(pos(7, 7)));
}

#[test]
fn food_spawner_lands_on_a_free_cell() {
    let config = open_arena(6, 6);
    let body = vec![pos(2, 2), pos(2, 1), pos(1, 1), pos(1, 2)];
    let mut s = state(config, body.clone(), Direction::Up);
    for _ in 0..50 {
        s.food = None;
        let spawned = s.food_spawner();
        assert!(spawned);
        let f = s.food.expect("food must exist after a spawn");
        assert!(f.x < 6 && f.y < 6);
        assert!(!body.contains(&f));
    }
}

#[test]
fn spawn_snake_with_places_and_directs_by_the_draws() {
    let config = ArenaConfig { width: 30, height: 30, border: 1 };
    let mut s = state(config, vec![pos(5, 5), pos(5, 4)], Direction::Up);
    s.score = 4;
    // playable span is 28 cells: x = 1 + 5 % 28, y = 1 + 7 % 28
    s.spawn_snake_with(5, 7, 2);
    assert_eq!(s.body, vec![pos(6, 8)]);
    assert_eq!(s.direction, Direction::Right);
    assert_eq!(s.last_tail, None);
    assert_eq!(s.score, 4);

    s.spawn_snake_with(30, 0, 1);
    assert_eq!(s.body, vec![pos(3, 1)]);
    assert_eq!(s.direction, Direction::Up);
}

#[test]
fn spawn_snake_random_lands_in_the_playable_region() {
    let config = ArenaConfig { width: 30, height: 30, border: 1 };
    let mut s = state(config, vec![pos(5, 5)], Direction::Up);
    for _ in 0..50 {
        s.spawn_snake();
        assert_eq!(s.body.len(), 1);
        let head = s.body[0];
        assert!(1 <= head.x && head.x < 29);
        assert!(1 <= head.y && head.y < 29);
    }
}

#[test]
fn new_state_starts_centred_without_food_or_score() {
    let config = open_arena(10, 10);
    let s = GameState::new(config);
    assert_eq!(s.body, vec![pos(5, 5)]);
    assert_eq!(s.direction, Direction::Up);
    assert_eq!(s.food, None);
    assert_eq!(s.score, 0);
    assert_eq!(s.last_tail, None);
}

#[test]
fn timer_fires_once_per_full_period() {
    let mut t = TickTimer::new(150);
    assert_eq!(t.advance(100), 0);
    assert_eq!(t.acc, 100);
    assert_eq!(t.advance(100), 1);
    assert_eq!(t.acc, 50);
    assert_eq!(t.advance(250), 2);
    assert_eq!(t.acc, 0);
}

#[test]
fn timer_keeps_phase_across_uneven_frames() {
    let mut t = TickTimer::new(500);
    assert_eq!(t.advance(499), 0);
    assert_eq!(t.advance(2), 1);
    // the odd unit is carried, not discarded
    assert_eq!(t.acc, 1);
    assert_eq!(t.advance(999), 2);
    assert_eq!(t.acc, 0);
}
