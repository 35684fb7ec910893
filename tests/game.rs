use snake::clock::{Clock, TICK_INTERVAL_MICROS};
use snake::game::{Command, Game, RunState};
use snake::grid::{step_pos, Direction, Pos, GRID_HEIGHT, GRID_WIDTH};
use snake::input::{command_for, Key};
use snake::render::{connector, Fill, Rect};

fn pos(x: u64, y: u64) -> Pos {
    Pos { x, y }
}

fn snake_at(head: Pos, direction: Direction, tail: Vec<Pos>, food: Pos) -> Game {
    let mut g = Game::new();
    g.head = head;
    g.prev_head = head;
    g.direction = direction;
    g.pending = direction;
    g.growth = tail.len();
    g.tail = tail;
    g.food = food;
    g
}

#[test]
fn new_game_is_initial() {
    let g = Game::new();
    assert_eq!(g.head, pos(8, 5));
    assert_eq!(g.prev_head, pos(8, 5));
    assert_eq!(g.food, pos(4, 1));
    assert_eq!(g.direction, Direction::Still);
    assert_eq!(g.pending, Direction::Still);
    assert!(g.tail.is_empty());
    assert_eq!(g.growth, 0);
    assert_eq!(g.run, RunState::Running);
    assert_eq!(g.clock.accumulated, 0);
}

#[test]
fn head_wraps_at_every_edge() {
    assert_eq!(step_pos(pos(GRID_WIDTH - 1, 3), Direction::East), pos(0, 3));
    assert_eq!(step_pos(pos(0, 3), Direction::West), pos(GRID_WIDTH - 1, 3));
    assert_eq!(step_pos(pos(4, 0), Direction::North), pos(4, GRID_HEIGHT - 1));
    assert_eq!(step_pos(pos(4, GRID_HEIGHT - 1), Direction::South), pos(4, 0));
    assert_eq!(step_pos(pos(4, 4), Direction::Still), pos(4, 4));
}

#[test]
fn head_stays_on_grid_over_many_ticks() {
    let mut g = snake_at(pos(14, 8), Direction::East, vec![], pos(0, 9));
    for i in 0..40u64 {
        if i % 7 == 3 {
            g.apply(Command::SetDirection(Direction::South));
        } else if i % 7 == 5 {
            g.apply(Command::SetDirection(Direction::East));
        }
        g.step_with(0);
        assert!(g.head.x < GRID_WIDTH && g.head.y < GRID_HEIGHT);
    }
}

#[test]
fn tail_length_tracks_growth() {
    let mut g = snake_at(pos(2, 2), Direction::East, vec![], pos(3, 2));
    g.step_with(0);
    assert_eq!(g.growth, 1);
    assert_eq!(g.tail, vec![pos(2, 2)]);
    g.food = pos(4, 2);
    g.step_with(0);
    assert_eq!(g.growth, 2);
    assert_eq!(g.tail, vec![pos(3, 2), pos(3, 2)]);
    for _ in 0..5 {
        g.step_with(0);
        assert_eq!(g.tail.len(), g.growth);
    }
    assert_eq!(g.growth, 2);
    assert_eq!(g.head, pos(9, 2));
    assert_eq!(g.tail, vec![pos(8, 2), pos(7, 2)]);
}

#[test]
fn reverse_direction_is_rejected() {
    let mut g = snake_at(pos(5, 5), Direction::East, vec![], pos(0, 0));
    g.apply(Command::SetDirection(Direction::West));
    g.step_with(0);
    assert_eq!(g.direction, Direction::East);
    assert_eq!(g.pending, Direction::East);
    assert_eq!(g.head, pos(6, 5));
    g.step_with(0);
    assert_eq!(g.direction, Direction::East);
    assert_eq!(g.head, pos(7, 5));
    g.apply(Command::SetDirection(Direction::South));
    g.step_with(0);
    assert_eq!(g.direction, Direction::South);
    assert_eq!(g.pending, Direction::South);
    assert_eq!(g.head, pos(7, 6));
}

#[test]
fn one_tick_per_call_however_long() {
    let mut g = snake_at(pos(5, 5), Direction::East, vec![], pos(0, 0));
    g.on_tick(10 * TICK_INTERVAL_MICROS);
    assert_eq!(g.head, pos(6, 5));
    assert_eq!(g.clock.accumulated, 9 * TICK_INTERVAL_MICROS);
}

#[test]
fn clock_fires_on_full_interval() {
    let mut c = Clock::new();
    assert!(!c.advance(100_000));
    assert_eq!(c.accumulated, 100_000);
    assert!(c.advance(150_000));
    assert_eq!(c.accumulated, 0);
    assert!(c.advance(10 * TICK_INTERVAL_MICROS));
    assert_eq!(c.accumulated, 9 * TICK_INTERVAL_MICROS);
}

#[test]
fn clock_saturates() {
    let mut c = Clock { accumulated: u64::MAX - 5 };
    assert!(c.advance(100));
    assert_eq!(c.accumulated, u64::MAX - TICK_INTERVAL_MICROS);
}

#[test]
fn short_frames_do_not_tick() {
    let mut g = snake_at(pos(5, 5), Direction::East, vec![], pos(0, 0));
    g.on_tick(TICK_INTERVAL_MICROS - 1);
    assert_eq!(g.head, pos(5, 5));
    g.on_tick(1);
    assert_eq!(g.head, pos(6, 5));
    assert_eq!(g.clock.accumulated, 0);
}

#[test]
fn eaten_food_moves_to_chosen_free_cell() {
    let mut g = Game::new();
    g.food = pos(9, 5);
    g.apply(Command::SetDirection(Direction::East));
    g.step_with(0);
    assert_eq!(g.head, pos(9, 5));
    assert_eq!(g.tail, vec![pos(8, 5)]);
    assert_eq!(g.growth, 1);
    assert_eq!(g.food, pos(0, 0));
}

#[test]
fn food_pick_counts_free_cells_only() {
    let mut g = snake_at(pos(1, 0), Direction::East, vec![pos(0, 0)], pos(2, 0));
    g.step_with(0);
    assert_eq!(g.head, pos(2, 0));
    assert_eq!(g.tail, vec![pos(1, 0), pos(1, 0)]);
    assert_eq!(g.food, pos(0, 0));
    let mut j = snake_at(pos(1, 0), Direction::East, vec![pos(0, 0)], pos(2, 0));
    j.step_with(1);
    assert_eq!(j.food, pos(3, 0));
    let mut h = snake_at(pos(1, 0), Direction::East, vec![pos(0, 0)], pos(2, 0));
    h.step_with(157);
    assert_eq!(h.food, pos(15, 9));
    let mut k = snake_at(pos(1, 0), Direction::East, vec![pos(0, 0)], pos(2, 0));
    k.step_with(158);
    assert_eq!(k.food, pos(0, 0));
}

#[test]
fn random_food_lands_on_a_free_cell() {
    for _ in 0..50 {
        let mut g = snake_at(pos(3, 3), Direction::East, vec![pos(2, 3), pos(1, 3)], pos(4, 3));
        g.step();
        assert_eq!(g.head, pos(4, 3));
        assert_eq!(g.growth, 3);
        assert!(g.food.x < GRID_WIDTH && g.food.y < GRID_HEIGHT);
        assert_ne!(g.food, g.head);
        assert!(!g.tail.contains(&g.food));
    }
}

#[test]
fn full_grid_leaves_food_in_place() {
    let mut tail = Vec::new();
    for i in 0..(GRID_WIDTH * GRID_HEIGHT) {
        let c = pos(i % GRID_WIDTH, i / GRID_WIDTH);
        if c != pos(1, 0) && c != pos(2, 0) {
            tail.push(c);
        }
    }
    tail.push(pos(0, 0));
    let mut g = snake_at(pos(1, 0), Direction::East, tail, pos(2, 0));
    g.step();
    assert_eq!(g.food, pos(2, 0));
}

#[test]
fn self_collision_ends_the_game() {
    let tail = vec![pos(4, 5), pos(3, 5), pos(2, 5), pos(1, 5)];
    let mut g = snake_at(pos(5, 5), Direction::East, tail, pos(0, 0));
    g.apply(Command::SetDirection(Direction::South));
    g.step_with(0);
    assert_eq!(g.run, RunState::Running);
    g.apply(Command::SetDirection(Direction::West));
    g.step_with(0);
    assert_eq!(g.run, RunState::Running);
    g.apply(Command::SetDirection(Direction::North));
    g.step_with(0);
    assert_eq!(g.head, pos(4, 5));
    assert_eq!(g.tail, vec![pos(4, 6), pos(5, 6), pos(5, 5), pos(4, 5)]);
    assert_eq!(g.run, RunState::GameOver);
    let head = g.head;
    let tail = g.tail.clone();
    let food = g.food;
    g.step_with(3);
    g.on_tick(10 * TICK_INTERVAL_MICROS);
    assert_eq!(g.head, head);
    assert_eq!(g.tail, tail);
    assert_eq!(g.food, food);
    assert_eq!(g.clock.accumulated, 0);
    assert_eq!(g.run, RunState::GameOver);
}

#[test]
fn self_collision_after_growing_from_a_fresh_game() {
    let mut g = Game::new();
    g.apply(Command::SetDirection(Direction::East));
    for fx in 9..13u64 {
        g.food = pos(fx, 5);
        g.step_with(0);
    }
    assert_eq!(g.head, pos(12, 5));
    assert_eq!(g.growth, 4);
    g.food = pos(0, 9);
    g.apply(Command::SetDirection(Direction::South));
    g.step_with(0);
    g.apply(Command::SetDirection(Direction::West));
    g.step_with(0);
    assert_eq!(g.run, RunState::Running);
    g.apply(Command::SetDirection(Direction::North));
    g.step_with(0);
    assert_eq!(g.head, pos(11, 5));
    assert_eq!(g.run, RunState::GameOver);
}

#[test]
fn reset_restores_initial_state() {
    let tail = vec![pos(4, 5), pos(4, 6), pos(5, 6), pos(5, 5)];
    let mut g = snake_at(pos(5, 5), Direction::North, tail, pos(0, 0));
    g.run = RunState::GameOver;
    g.clock.accumulated = 1234;
    g.on_input(Key::Space, true);
    assert_eq!(g.head, pos(8, 5));
    assert_eq!(g.direction, Direction::Still);
    assert_eq!(g.pending, Direction::Still);
    assert!(g.tail.is_empty());
    assert_eq!(g.growth, 0);
    assert_eq!(g.run, RunState::Running);
    assert_eq!(g.clock.accumulated, 0);
    assert_eq!(g.food, pos(4, 1));
}

#[test]
fn reset_ignored_while_running() {
    let mut g = snake_at(pos(5, 5), Direction::North, vec![pos(5, 6)], pos(0, 0));
    g.apply(Command::Reset);
    assert_eq!(g.head, pos(5, 5));
    assert_eq!(g.growth, 1);
    assert_eq!(g.run, RunState::Running);
}

#[test]
fn pause_blocks_ticks_and_directions() {
    let mut g = snake_at(pos(5, 5), Direction::East, vec![], pos(0, 0));
    g.on_input(Key::Escape, true);
    assert_eq!(g.run, RunState::Paused);
    g.on_input(Key::S, true);
    assert_eq!(g.pending, Direction::East);
    g.on_tick(TICK_INTERVAL_MICROS);
    g.step_with(0);
    assert_eq!(g.head, pos(5, 5));
    assert_eq!(g.clock.accumulated, 0);
    g.on_input(Key::Escape, false);
    assert_eq!(g.run, RunState::Paused);
    g.on_input(Key::Escape, true);
    assert_eq!(g.run, RunState::Running);
    g.on_input(Key::Down, true);
    assert_eq!(g.pending, Direction::South);
}

#[test]
fn toggle_does_not_leave_game_over() {
    let mut g = Game::new();
    g.run = RunState::GameOver;
    g.on_input(Key::Escape, true);
    assert_eq!(g.run, RunState::GameOver);
}

#[test]
fn keys_map_to_commands() {
    assert_eq!(command_for(Key::W, true), Some(Command::SetDirection(Direction::North)));
    assert_eq!(command_for(Key::Up, true), Some(Command::SetDirection(Direction::North)));
    assert_eq!(command_for(Key::S, true), Some(Command::SetDirection(Direction::South)));
    assert_eq!(command_for(Key::A, true), Some(Command::SetDirection(Direction::West)));
    assert_eq!(command_for(Key::Right, true), Some(Command::SetDirection(Direction::East)));
    assert_eq!(command_for(Key::Escape, true), Some(Command::TogglePause));
    assert_eq!(command_for(Key::Space, true), Some(Command::Reset));
    assert_eq!(command_for(Key::Other, true), None);
    assert_eq!(command_for(Key::D, false), None);
}

#[test]
fn render_new_game() {
    let g = Game::new();
    let r = g.render();
    assert_eq!(
        r,
        vec![
            Rect { x: 648, y: 408, w: 64, h: 64, fill: Fill::Snake },
            Rect { x: 328, y: 88, w: 64, h: 64, fill: Fill::Food },
        ]
    );
}

#[test]
fn render_connects_adjacent_segments_only() {
    let tail = vec![pos(1, 0), pos(1, 1), pos(15, 1)];
    let g = snake_at(pos(2, 0), Direction::East, tail, pos(5, 5));
    let r = g.render();
    assert_eq!(r.len(), 4 + 2 + 1);
    assert_eq!(r[4], Rect { x: 88, y: 8, w: 144, h: 64, fill: Fill::Snake });
    assert_eq!(r[5], Rect { x: 88, y: 8, w: 64, h: 144, fill: Fill::Snake });
    assert_eq!(r[6], Rect { x: 408, y: 408, w: 64, h: 64, fill: Fill::Food });
    let before = (g.head, g.tail.clone(), g.food);
    let _ = g.render();
    assert_eq!(before, (g.head, g.tail.clone(), g.food));
}

#[test]
fn connector_skips_diagonals_and_wraps() {
    assert_eq!(connector(pos(0, 0), pos(1, 1)), None);
    assert_eq!(connector(pos(0, 0), pos(15, 0)), None);
    assert_eq!(connector(pos(3, 3), pos(3, 3)), None);
    assert_eq!(
        connector(pos(3, 4), pos(3, 3)),
        Some(Rect { x: 248, y: 248, w: 64, h: 144, fill: Fill::Snake })
    );
}
