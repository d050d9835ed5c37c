//! The engine's guarantees, stated once over the relations that the
//! mutators' contracts establish and proved for every board, agent pose and
//! tile contents.

use vstd::prelude::*;
use crate::object::{clue_spec, Object};
use crate::tile::Tile;
use crate::world::{
    blocked, fire_rel, move_rel, on_ray, orth_adjacent, place_rel, placed_tile, remove_rel,
    reset_rel, visit_rel, visit_state, Direction, GameState, WumpusWorld,
};

verus! {

/// Placing a marker with a clue inserts that clue into every orthogonal
/// neighbor that exists on the board, and leaves every tile that is neither
/// the target nor an orthogonal neighbor untouched — in particular every
/// diagonal neighbor.  Nothing is inserted past a board edge, because no
/// tile exists there for `place_rel` to speak about.
pub proof fn lemma_place_spreads_clue(
    w0: WumpusWorld,
    w1: WumpusWorld,
    x: int,
    y: int,
    m: Object,
    c: Object,
    i: int,
    j: int,
)
    requires
        place_rel(w0, w1, x, y, m),
        clue_spec(m) == Some(c),
        w0.in_bounds(i, j),
    ensures
        orth_adjacent(i, j, x, y) ==> w1.tile(i, j).has(c),
        !orth_adjacent(i, j, x, y) && !(i == x && j == y) ==> w1.tile(i, j) == w0.tile(i, j),
{
    assert(w1.tile(i, j) == placed_tile(w0.tile(i, j), x, y, m, i, j));
}

/// Non-retroactivity: removing any marker from `(x, y)` afterwards never
/// takes back a clue that placing `m` at `(x, y)` had spread to an
/// orthogonal neighbor.
pub proof fn lemma_remove_keeps_clues(
    w0: WumpusWorld,
    w1: WumpusWorld,
    w2: WumpusWorld,
    x: int,
    y: int,
    m: Object,
    c: Object,
    r: Object,
    i: int,
    j: int,
)
    requires
        place_rel(w0, w1, x, y, m),
        remove_rel(w1, w2, x, y, r),
        clue_spec(m) == Some(c),
        orth_adjacent(i, j, x, y),
        w0.in_bounds(i, j),
    ensures
        w2.tile(i, j).has(c),
{
    assert(w1.tile(i, j) == placed_tile(w0.tile(i, j), x, y, m, i, j));
    assert(w2.tile(i, j) == w1.tile(i, j));
}

/// Movement is bounds-safe: a directional move that would exit the board
/// changes nothing at all — not the position, not a discovery flag, not
/// the game state.
pub proof fn lemma_blocked_move_is_noop(w0: WumpusWorld, w1: WumpusWorld, d: Direction)
    requires
        move_rel(w0, w1, d),
        blocked(w0, d),
    ensures
        w1 == w0,
{
}

/// Firing with no charge left is a total no-op: no charge is spent and no
/// tile changes.
pub proof fn lemma_fire_without_charge_is_noop(w0: WumpusWorld, w1: WumpusWorld)
    requires
        fire_rel(w0, w1),
        w0.arrows == 0,
    ensures
        w1 == w0,
{
}

/// A single shot converts every live `Wumpus` on the traced line to a
/// `DeadWumpus`, leaves every tile off the line untouched, and changes no
/// object other than the `Wumpus`/`DeadWumpus` pair anywhere — nor any
/// discovery flag.
pub proof fn lemma_fire_clears_the_line(w0: WumpusWorld, w1: WumpusWorld, i: int, j: int)
    requires
        fire_rel(w0, w1),
        w0.arrows > 0,
        w0.in_bounds(i, j),
    ensures
        on_ray(w0, i, j) ==> !w1.tile(i, j).has(Object::Wumpus),
        on_ray(w0, i, j) && w0.tile(i, j).has(Object::Wumpus) ==> w1.tile(i, j).has(
            Object::DeadWumpus,
        ),
        !on_ray(w0, i, j) ==> w1.tile(i, j) == w0.tile(i, j),
        forall|o: Object|
            o != Object::Wumpus && o != Object::DeadWumpus ==> (w1.tile(i, j).has(o) <==> w0.tile(
                i,
                j,
            ).has(o)),
        w1.tile(i, j).visible == w0.tile(i, j).visible,
{
    assert forall|o: Object|
        o != Object::Wumpus && o != Object::DeadWumpus implies (w1.tile(i, j).has(o) <==> w0.tile(
        i,
        j,
    ).has(o)) by {
        assert(w1.tile(i, j) == (if on_ray(w0, i, j) {
            crate::tile::tile_zapped(w0.tile(i, j))
        } else {
            w0.tile(i, j)
        }));
    }
}

/// Discovering a tile that holds a live `Wumpus` or a `Pit` while playing
/// loses the game.
pub proof fn lemma_discover_hazard_loses(t: Tile)
    requires
        t.has(Object::Wumpus) || t.has(Object::Pit),
    ensures
        visit_state(t, GameState::Playing) == GameState::Lose,
{
}

/// Discovering a tile that holds `Gold` and no hazard while playing wins
/// the game.
pub proof fn lemma_discover_gold_wins(t: Tile)
    requires
        t.has(Object::Gold),
        !t.has(Object::Wumpus),
        !t.has(Object::Pit),
    ensures
        visit_state(t, GameState::Playing) == GameState::Win,
{
}

/// A terminal state is sticky: once the game is won or lost, a discovery
/// step never changes the state again, whatever the tile holds.
pub proof fn lemma_terminal_state_sticky(t: Tile, s: GameState)
    requires
        s != GameState::Playing,
    ensures
        visit_state(t, s) == s,
{
}

/// The world-level form of stickiness: any discovery step taken in a
/// terminal state leaves the game state as it was.
pub proof fn lemma_visit_keeps_terminal_state(w0: WumpusWorld, w1: WumpusWorld, nx: int, ny: int)
    requires
        visit_rel(w0, w1, nx, ny),
        w0.state != GameState::Playing,
    ensures
        w1.state == w0.state,
{
}

/// Reset is idempotent in effect: the states reached by one reset and by
/// two consecutive resets agree on everything observable — board size,
/// every tile, agent pose, charges and game state.
pub proof fn lemma_reset_idempotent(w0: WumpusWorld, w1: WumpusWorld, w2: WumpusWorld)
    requires
        reset_rel(w0, w1),
        reset_rel(w1, w2),
    ensures
        w2.width == w1.width,
        w2.height == w1.height,
        w2.hero_x == w1.hero_x,
        w2.hero_y == w1.hero_y,
        w2.hero_dir == w1.hero_dir,
        w2.arrows == w1.arrows,
        w2.state == w1.state,
        forall|i: int, j: int|
            w1.in_bounds(i, j) ==> #[trigger] w2.tile(i, j) == w1.tile(i, j),
{
    assert forall|i: int, j: int| w1.in_bounds(i, j) implies #[trigger] w2.tile(i, j) == w1.tile(
        i,
        j,
    ) by {
        assert(w1.tile(i, j) == crate::world::scenario_tile(i, j));
        assert(w2.tile(i, j) == crate::world::scenario_tile(i, j));
    }
}

} // verus!
