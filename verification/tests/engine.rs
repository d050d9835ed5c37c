// End-to-end tests of the world engine: placement and clue propagation,
// movement, the ranged attack, the state machine, and the reset scenario.

use wumpus_world::object::Object;
use wumpus_world::world::{Action, Direction, GameState, WumpusWorld};

fn tile(w: &WumpusWorld, x: usize, y: usize) -> wumpus_world::tile::Tile {
    w.tile_at(x, y).unwrap()
}

#[test]
fn clue_relation_values() {
    assert_eq!(Object::Wumpus.clue(), Some(Object::Stench));
    assert_eq!(Object::DeadWumpus.clue(), Some(Object::Stench));
    assert_eq!(Object::Pit.clue(), Some(Object::Breeze));
    assert_eq!(Object::Gold.clue(), Some(Object::Glimmer));
    assert_eq!(Object::Stench.clue(), None);
    assert_eq!(Object::Breeze.clue(), None);
    assert_eq!(Object::Glimmer.clue(), None);
}

#[test]
fn texture_ids_are_fixed() {
    assert_eq!(Object::Wumpus.texture_id(), 0);
    assert_eq!(Object::DeadWumpus.texture_id(), 1);
    assert_eq!(Object::Stench.texture_id(), 2);
    assert_eq!(Object::Pit.texture_id(), 3);
    assert_eq!(Object::Breeze.texture_id(), 4);
    assert_eq!(Object::Gold.texture_id(), 5);
    assert_eq!(Object::Glimmer.texture_id(), 6);
}

#[test]
fn new_board_is_empty_and_undiscovered() {
    let w = WumpusWorld::new(10, 10);
    assert_eq!(w.size(), (10, 10));
    assert_eq!(w.hero_pos(), (0, 0));
    assert_eq!(w.facing(), Direction::Right);
    assert_eq!(w.arrows_left(), 1);
    assert_eq!(w.game_state(), GameState::Playing);
    for y in 0..10 {
        for x in 0..10 {
            let t = tile(&w, x, y);
            assert!(!t.visible);
            for o in [
                Object::Wumpus,
                Object::DeadWumpus,
                Object::Stench,
                Object::Pit,
                Object::Breeze,
                Object::Gold,
                Object::Glimmer,
            ] {
                assert!(!t.contains(o));
            }
        }
    }
}

#[test]
fn place_spreads_clue_to_orthogonal_neighbors_only() {
    let mut w = WumpusWorld::new(10, 10);
    assert!(w.add_thing(5, 5, Object::Wumpus).is_ok());
    assert!(tile(&w, 5, 5).contains(Object::Wumpus));
    assert!(!tile(&w, 5, 5).contains(Object::Stench));
    // the four orthogonal neighbors get the clue
    assert!(tile(&w, 4, 5).contains(Object::Stench));
    assert!(tile(&w, 6, 5).contains(Object::Stench));
    assert!(tile(&w, 5, 4).contains(Object::Stench));
    assert!(tile(&w, 5, 6).contains(Object::Stench));
    // the diagonal neighbors never do
    assert!(!tile(&w, 4, 4).contains(Object::Stench));
    assert!(!tile(&w, 6, 4).contains(Object::Stench));
    assert!(!tile(&w, 4, 6).contains(Object::Stench));
    assert!(!tile(&w, 6, 6).contains(Object::Stench));
    // and no tile two cells away does
    assert!(!tile(&w, 3, 5).contains(Object::Stench));
    assert!(!tile(&w, 5, 3).contains(Object::Stench));
}

#[test]
fn place_at_corner_skips_missing_neighbors() {
    let mut w = WumpusWorld::new(10, 10);
    assert!(w.add_thing(0, 0, Object::Pit).is_ok());
    assert!(tile(&w, 0, 0).contains(Object::Pit));
    assert!(tile(&w, 1, 0).contains(Object::Breeze));
    assert!(tile(&w, 0, 1).contains(Object::Breeze));
    for y in 0..10 {
        for x in 0..10 {
            let expect = (x == 1 && y == 0) || (x == 0 && y == 1);
            assert_eq!(tile(&w, x, y).contains(Object::Breeze), expect);
        }
    }
}

#[test]
fn placing_a_clue_marker_spreads_nothing() {
    let mut w = WumpusWorld::new(10, 10);
    assert!(w.add_thing(5, 5, Object::Stench).is_ok());
    assert!(tile(&w, 5, 5).contains(Object::Stench));
    assert!(!tile(&w, 4, 5).contains(Object::Stench));
    assert!(!tile(&w, 6, 5).contains(Object::Stench));
    assert!(!tile(&w, 5, 4).contains(Object::Stench));
    assert!(!tile(&w, 5, 6).contains(Object::Stench));
}

#[test]
fn out_of_bounds_board_operations_are_rejected() {
    let mut w = WumpusWorld::new(10, 10);
    assert!(w.add_thing(10, 5, Object::Gold).is_err());
    assert!(w.add_thing(5, 10, Object::Gold).is_err());
    assert!(w.remove_thing(10, 5, Object::Gold).is_err());
    assert!(w.tile_at(10, 5).is_none());
    // nothing changed
    for y in 0..10 {
        for x in 0..10 {
            assert!(!tile(&w, x, y).contains(Object::Gold));
        }
    }
    assert_eq!(w.game_state(), GameState::Playing);
}

#[test]
fn remove_keeps_propagated_clues() {
    let mut w = WumpusWorld::new(10, 10);
    assert!(w.add_thing(5, 5, Object::Wumpus).is_ok());
    assert!(w.remove_thing(5, 5, Object::Wumpus).is_ok());
    assert!(!tile(&w, 5, 5).contains(Object::Wumpus));
    // the sensory residue stays
    assert!(tile(&w, 4, 5).contains(Object::Stench));
    assert!(tile(&w, 6, 5).contains(Object::Stench));
    assert!(tile(&w, 5, 4).contains(Object::Stench));
    assert!(tile(&w, 5, 6).contains(Object::Stench));
}

#[test]
fn blocked_moves_change_nothing() {
    let mut w = WumpusWorld::new(10, 10);
    // the agent starts at the origin: up and left are walls
    w.move_up();
    assert_eq!(w.hero_pos(), (0, 0));
    w.move_left();
    assert_eq!(w.hero_pos(), (0, 0));
    // a blocked move runs no discovery step either
    assert!(!tile(&w, 0, 0).visible);
    assert_eq!(w.game_state(), GameState::Playing);
    // walk to the far corner and try the other two walls
    for _ in 0..9 {
        w.move_right();
        w.move_down();
    }
    assert_eq!(w.hero_pos(), (9, 9));
    w.move_right();
    assert_eq!(w.hero_pos(), (9, 9));
    w.move_down();
    assert_eq!(w.hero_pos(), (9, 9));
}

#[test]
fn successful_move_discovers_the_new_tile() {
    let mut w = WumpusWorld::new(10, 10);
    w.move_right();
    assert_eq!(w.hero_pos(), (1, 0));
    assert!(tile(&w, 1, 0).visible);
    assert!(!tile(&w, 0, 0).visible);
    assert!(!tile(&w, 2, 0).visible);
}

#[test]
fn fire_with_no_charge_is_a_total_noop() {
    let mut w = WumpusWorld::new(10, 10);
    w.fire_arrow();
    assert_eq!(w.arrows_left(), 0);
    // a target placed in the line of fire afterwards
    assert!(w.add_thing(5, 0, Object::Wumpus).is_ok());
    w.fire_arrow();
    assert_eq!(w.arrows_left(), 0);
    assert!(tile(&w, 5, 0).contains(Object::Wumpus));
    assert!(!tile(&w, 5, 0).contains(Object::DeadWumpus));
}

#[test]
fn fire_converts_every_wumpus_on_the_line() {
    let mut w = WumpusWorld::new(10, 10);
    // two targets ahead on the agent's row, one off the line
    assert!(w.add_thing(3, 0, Object::Wumpus).is_ok());
    assert!(w.add_thing(7, 0, Object::Wumpus).is_ok());
    assert!(w.add_thing(5, 5, Object::Wumpus).is_ok());
    w.fire_arrow();
    assert_eq!(w.arrows_left(), 0);
    assert!(!tile(&w, 3, 0).contains(Object::Wumpus));
    assert!(tile(&w, 3, 0).contains(Object::DeadWumpus));
    assert!(!tile(&w, 7, 0).contains(Object::Wumpus));
    assert!(tile(&w, 7, 0).contains(Object::DeadWumpus));
    // off the line: untouched
    assert!(tile(&w, 5, 5).contains(Object::Wumpus));
    assert!(!tile(&w, 5, 5).contains(Object::DeadWumpus));
    // the stench around the targets stays
    assert!(tile(&w, 2, 0).contains(Object::Stench));
    assert!(tile(&w, 4, 0).contains(Object::Stench));
}

#[test]
fn fire_starts_at_the_agents_own_tile() {
    let mut w = WumpusWorld::new(10, 10);
    assert!(w.add_thing(0, 0, Object::Wumpus).is_ok());
    w.set_direction(Direction::Up);
    // facing up from the origin the line is the origin tile alone
    w.fire_arrow();
    assert!(!tile(&w, 0, 0).contains(Object::Wumpus));
    assert!(tile(&w, 0, 0).contains(Object::DeadWumpus));
}

#[test]
fn fire_does_not_shoot_backwards() {
    let mut w = WumpusWorld::new(10, 10);
    w.move_right();
    w.move_right();
    assert_eq!(w.hero_pos(), (2, 0));
    assert!(w.add_thing(1, 0, Object::Wumpus).is_ok());
    assert!(w.add_thing(5, 0, Object::Wumpus).is_ok());
    w.fire_arrow();
    // behind the agent: alive
    assert!(tile(&w, 1, 0).contains(Object::Wumpus));
    // ahead of the agent: dead
    assert!(!tile(&w, 5, 0).contains(Object::Wumpus));
    assert!(tile(&w, 5, 0).contains(Object::DeadWumpus));
}

#[test]
fn discovering_a_hazard_loses() {
    let mut w = WumpusWorld::new(10, 10);
    assert!(w.add_thing(1, 0, Object::Pit).is_ok());
    w.move_right();
    assert_eq!(w.game_state(), GameState::Lose);
    // terminal states are sticky: later discoveries change nothing
    assert!(w.add_thing(2, 0, Object::Gold).is_ok());
    w.move_right();
    assert_eq!(w.hero_pos(), (2, 0));
    assert!(tile(&w, 2, 0).visible);
    assert_eq!(w.game_state(), GameState::Lose);
}

#[test]
fn discovering_gold_wins() {
    let mut w = WumpusWorld::new(10, 10);
    assert!(w.add_thing(1, 0, Object::Gold).is_ok());
    w.move_right();
    assert_eq!(w.game_state(), GameState::Win);
    // sticky the other way round too
    assert!(w.add_thing(2, 0, Object::Pit).is_ok());
    w.move_right();
    assert_eq!(w.game_state(), GameState::Win);
}

#[test]
fn discovering_a_dead_wumpus_is_harmless() {
    let mut w = WumpusWorld::new(10, 10);
    assert!(w.add_thing(1, 0, Object::Wumpus).is_ok());
    w.fire_arrow();
    assert!(tile(&w, 1, 0).contains(Object::DeadWumpus));
    w.move_right();
    assert_eq!(w.hero_pos(), (1, 0));
    assert_eq!(w.game_state(), GameState::Playing);
}

#[test]
fn set_direction_changes_only_the_facing() {
    let mut w = WumpusWorld::new(10, 10);
    w.set_direction(Direction::Down);
    assert_eq!(w.facing(), Direction::Down);
    assert_eq!(w.hero_pos(), (0, 0));
    assert_eq!(w.arrows_left(), 1);
    assert_eq!(w.game_state(), GameState::Playing);
    assert!(!tile(&w, 0, 0).visible);
}

fn observable_state(w: &WumpusWorld) -> (Vec<wumpus_world::tile::Tile>, (usize, usize), Direction, u8, GameState) {
    let mut tiles = Vec::new();
    for y in 0..10 {
        for x in 0..10 {
            tiles.push(tile(w, x, y));
        }
    }
    (tiles, w.hero_pos(), w.facing(), w.arrows_left(), w.game_state())
}

#[test]
fn reset_is_idempotent_in_effect() {
    let mut w = WumpusWorld::new(10, 10);
    // disturb everything first
    w.move_right();
    w.move_down();
    w.set_direction(Direction::Up);
    w.fire_arrow();
    let _ = w.add_thing(2, 2, Object::Gold);
    w.reset_board();
    let first = observable_state(&w);
    w.reset_board();
    let second = observable_state(&w);
    assert_eq!(first, second);
}

#[test]
fn reset_scenario_layout_and_walk_to_the_gold() {
    let mut w = WumpusWorld::new(10, 10);
    w.reset_board();
    // stench around the wumpus at (5, 5)
    assert!(tile(&w, 5, 4).contains(Object::Stench));
    assert!(tile(&w, 5, 6).contains(Object::Stench));
    assert!(tile(&w, 4, 5).contains(Object::Stench));
    assert!(tile(&w, 6, 5).contains(Object::Stench));
    // (4, 5) also catches the breeze of the pit at (3, 5)
    assert!(tile(&w, 4, 5).contains(Object::Breeze));
    // agent back at the origin, one charge, game on
    assert_eq!(w.hero_pos(), (0, 0));
    assert_eq!(w.arrows_left(), 1);
    assert_eq!(w.game_state(), GameState::Playing);
    assert!(tile(&w, 0, 0).visible);
    // walk the edge to the gold at (9, 9)
    for _ in 0..9 {
        w.move_right();
    }
    assert_eq!(w.hero_pos(), (9, 0));
    assert_eq!(w.game_state(), GameState::Playing);
    for _ in 0..9 {
        w.move_down();
    }
    assert_eq!(w.hero_pos(), (9, 9));
    assert_eq!(w.game_state(), GameState::Win);
}

#[test]
fn apply_dispatches_every_action() {
    let mut w = WumpusWorld::new(10, 10);
    w.apply(Action::MoveRight);
    assert_eq!(w.hero_pos(), (1, 0));
    w.apply(Action::MoveDown);
    assert_eq!(w.hero_pos(), (1, 1));
    w.apply(Action::MoveLeft);
    assert_eq!(w.hero_pos(), (0, 1));
    w.apply(Action::MoveUp);
    assert_eq!(w.hero_pos(), (0, 0));
    w.apply(Action::Turn(Direction::Down));
    assert_eq!(w.facing(), Direction::Down);
    w.apply(Action::Fire);
    assert_eq!(w.arrows_left(), 0);
    w.apply(Action::Reset);
    assert_eq!(w.arrows_left(), 1);
    assert_eq!(w.hero_pos(), (0, 0));
    assert!(tile(&w, 5, 5).contains(Object::Wumpus));
    assert_eq!(w.game_state(), GameState::Playing);
}
