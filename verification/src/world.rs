//! The world engine: the board (a fixed `width x height` matrix of tiles),
//! the agent (position, facing, remaining attack charges) and the game-state
//! machine, together with every mutator the input collaborator may call.
//!
//! Every public operation is specified as a relation between the state
//! before and after the call, over the spec functions below; `apply` bundles
//! them into one `(state, action) -> state` transducer.

use vstd::prelude::*;
use crate::object::{clue_spec, Object};
use crate::tile::{empty_tile, tile_discovered, tile_with, tile_without, tile_zapped, Tile};

verus! {

/// The direction the agent is facing.
#[derive(Copy, Clone, PartialEq, Eq, Debug, Structural)]
pub enum Direction {
    Up,
    Down,
    Left,
    Right,
}

/// The phase of the game.  Once the state leaves `Playing` it is terminal:
/// only a full reset re-enters `Playing`.
#[derive(Copy, Clone, PartialEq, Eq, Debug, Structural)]
pub enum GameState {
    Playing,
    Win,
    Lose,
}

/// The error returned when a coordinate outside `[0, width) x [0, height)`
/// is passed to a board operation.  This is a programming error on the
/// caller's side, rejected explicitly rather than indexed blindly.
#[derive(Copy, Clone, PartialEq, Eq, Debug, Structural)]
pub struct OutOfBounds;

/// The whole engine: board, agent and state machine.  The three never vary
/// independently, so one owner holds them all.
pub struct WumpusWorld {
    pub width: usize,
    pub height: usize,
    /// Row-major tile storage: tile `(x, y)` lives at index `y * width + x`.
    pub grid: Vec<Tile>,
    pub hero_x: usize,
    pub hero_y: usize,
    pub hero_dir: Direction,
    pub arrows: u8,
    pub state: GameState,
}

impl WumpusWorld {
    /// Whether `(i, j)` is a coordinate of a tile that exists on the board.
    pub open spec fn in_bounds(self, i: int, j: int) -> bool {
        0 <= i < self.width && 0 <= j < self.height
    }

    /// The tile at in-bounds coordinate `(i, j)`.
    pub open spec fn tile(self, i: int, j: int) -> Tile {
        self.grid@[j * (self.width as int) + i]
    }

    /// Well-formedness: the board is non-degenerate, the tile storage covers
    /// it exactly, and the agent stands on it.
    pub open spec fn wf(self) -> bool {
        &&& 1 <= self.width
        &&& 1 <= self.height
        &&& (self.width as int) * (self.height as int) <= usize::MAX as int
        &&& self.grid@.len() == (self.width as int) * (self.height as int)
        &&& self.hero_x < self.width
        &&& self.hero_y < self.height
    }
}

/// Row-major flattening stays inside the tile storage.
proof fn lemma_flat_index_in_range(w: int, h: int, i: int, j: int)
    by (nonlinear_arith)
    requires
        1 <= w,
        0 <= i < w,
        0 <= j < h,
    ensures
        0 <= j * w + i < w * h,
{
}

/// Row-major flattening is injective on in-bounds coordinates.
proof fn lemma_flat_index_injective(w: int, i1: int, j1: int, i2: int, j2: int)
    by (nonlinear_arith)
    requires
        1 <= w,
        0 <= i1 < w,
        0 <= i2 < w,
        0 <= j1,
        0 <= j2,
        j1 * w + i1 == j2 * w + i2,
    ensures
        i1 == i2,
        j1 == j2,
{
}

/// Whether `(i, j)` is one of the (at most four) orthogonal neighbors of
/// `(x, y)`.  Diagonal tiles are never adjacent.
pub open spec fn orth_adjacent(i: int, j: int, x: int, y: int) -> bool {
    ||| i == x && (j == y - 1 || j == y + 1)
    ||| j == y && (i == x - 1 || i == x + 1)
}

/// What the tile at `(i, j)` becomes when `thing` is placed at `(x, y)`:
/// the target tile gains `thing`, each orthogonal neighbor gains `thing`'s
/// clue (if it has one), and every other tile is untouched.
pub open spec fn placed_tile(t: Tile, x: int, y: int, thing: Object, i: int, j: int) -> Tile {
    let base = if i == x && j == y {
        tile_with(t, thing)
    } else {
        t
    };
    match clue_spec(thing) {
        Some(c) => if orth_adjacent(i, j, x, y) {
            tile_with(base, c)
        } else {
            base
        },
        None => base,
    }
}

/// How placing `thing` at in-bounds `(x, y)` relates the state before to
/// the state after: the board changes tile-by-tile as `placed_tile` says
/// (clues never propagate past a board edge, because no tile exists there),
/// and the agent and game state are untouched.
pub open spec fn place_rel(w0: WumpusWorld, w1: WumpusWorld, x: int, y: int, thing: Object) -> bool {
    &&& w1.wf()
    &&& w1.width == w0.width
    &&& w1.height == w0.height
    &&& w1.hero_x == w0.hero_x
    &&& w1.hero_y == w0.hero_y
    &&& w1.hero_dir == w0.hero_dir
    &&& w1.arrows == w0.arrows
    &&& w1.state == w0.state
    &&& forall|i: int, j: int|
        w0.in_bounds(i, j) ==> #[trigger] w1.tile(i, j) == placed_tile(
            w0.tile(i, j),
            x,
            y,
            thing,
            i,
            j,
        )
}

/// How removing `thing` from in-bounds `(x, y)` relates the state before to
/// the state after: only the target tile changes, and only by losing
/// `thing`.  Clues that an earlier placement spread to the neighbors stay
/// where they are.
pub open spec fn remove_rel(w0: WumpusWorld, w1: WumpusWorld, x: int, y: int, thing: Object) -> bool {
    &&& w1.wf()
    &&& w1.width == w0.width
    &&& w1.height == w0.height
    &&& w1.hero_x == w0.hero_x
    &&& w1.hero_y == w0.hero_y
    &&& w1.hero_dir == w0.hero_dir
    &&& w1.arrows == w0.arrows
    &&& w1.state == w0.state
    &&& forall|i: int, j: int|
        w0.in_bounds(i, j) ==> #[trigger] w1.tile(i, j) == (if i == x && j == y {
            tile_without(w0.tile(i, j), thing)
        } else {
            w0.tile(i, j)
        })
}

/// The state-machine transition evaluated when the agent discovers tile
/// `t` while the game is in state `s`: while `Playing`, a tile holding a
/// live `Wumpus` or a `Pit` loses the game and a tile holding `Gold` wins
/// it; no other object causes a transition, and a terminal state is sticky.
pub open spec fn visit_state(t: Tile, s: GameState) -> GameState {
    if s == GameState::Playing {
        if t.has(Object::Wumpus) || t.has(Object::Pit) {
            GameState::Lose
        } else if t.has(Object::Gold) {
            GameState::Win
        } else {
            GameState::Playing
        }
    } else {
        s
    }
}

/// How a discovery step on tile `(nx, ny)` relates the state before to the
/// state after: the agent now stands there, that tile (and no other) is
/// marked discovered, the game state follows `visit_state`, and nothing
/// else changes.
pub open spec fn visit_rel(w0: WumpusWorld, w1: WumpusWorld, nx: int, ny: int) -> bool {
    &&& w1.wf()
    &&& w1.width == w0.width
    &&& w1.height == w0.height
    &&& w1.hero_x == nx
    &&& w1.hero_y == ny
    &&& w1.hero_dir == w0.hero_dir
    &&& w1.arrows == w0.arrows
    &&& forall|i: int, j: int|
        w0.in_bounds(i, j) ==> #[trigger] w1.tile(i, j) == (if i == nx && j == ny {
            tile_discovered(w0.tile(i, j))
        } else {
            w0.tile(i, j)
        })
    &&& w1.state == visit_state(w0.tile(nx, ny), w0.state)
}

/// Whether a step in direction `d` would leave the board, making the move a
/// no-op.
pub open spec fn blocked(w: WumpusWorld, d: Direction) -> bool {
    match d {
        Direction::Up => w.hero_y == 0,
        Direction::Down => w.hero_y + 1 == w.height,
        Direction::Left => w.hero_x == 0,
        Direction::Right => w.hero_x + 1 == w.width,
    }
}

/// The x coordinate one step from the agent in direction `d`.
pub open spec fn step_x(w: WumpusWorld, d: Direction) -> int {
    match d {
        Direction::Left => w.hero_x - 1,
        Direction::Right => w.hero_x + 1,
        _ => w.hero_x as int,
    }
}

/// The y coordinate one step from the agent in direction `d`.
pub open spec fn step_y(w: WumpusWorld, d: Direction) -> int {
    match d {
        Direction::Up => w.hero_y - 1,
        Direction::Down => w.hero_y + 1,
        _ => w.hero_y as int,
    }
}

/// How a directional move relates the state before to the state after: a
/// step that would leave the board changes nothing at all; otherwise the
/// agent moves one cell and a discovery step runs on the new tile before
/// the call returns.
pub open spec fn move_rel(w0: WumpusWorld, w1: WumpusWorld, d: Direction) -> bool {
    if blocked(w0, d) {
        w1 == w0
    } else {
        visit_rel(w0, w1, step_x(w0, d), step_y(w0, d))
    }
}

/// How `set_direction` relates the state before to the state after: only
/// the facing changes; no discovery step runs and no bounds are involved.
pub open spec fn turn_rel(w0: WumpusWorld, w1: WumpusWorld, d: Direction) -> bool {
    w1 == (WumpusWorld { hero_dir: d, ..w0 })
}

/// Whether `(i, j)` lies on the straight line traced by an arrow fired from
/// the agent's tile in the direction the agent faces.  The line starts at
/// the agent's own tile, inclusive, and runs to the board edge.
pub open spec fn on_ray(w: WumpusWorld, i: int, j: int) -> bool {
    match w.hero_dir {
        Direction::Up => i == w.hero_x && j <= w.hero_y,
        Direction::Down => i == w.hero_x && j >= w.hero_y,
        Direction::Left => j == w.hero_y && i <= w.hero_x,
        Direction::Right => j == w.hero_y && i >= w.hero_x,
    }
}

/// How `fire` relates the state before to the state after: with no charge
/// left it changes nothing at all; otherwise it spends one charge and every
/// in-bounds tile on the traced line is zapped (a live `Wumpus` there
/// becomes a `DeadWumpus`), while every tile off the line, and every other
/// object and flag, stays exactly as it was.
pub open spec fn fire_rel(w0: WumpusWorld, w1: WumpusWorld) -> bool {
    if w0.arrows == 0 {
        w1 == w0
    } else {
        &&& w1.wf()
        &&& w1.width == w0.width
        &&& w1.height == w0.height
        &&& w1.hero_x == w0.hero_x
        &&& w1.hero_y == w0.hero_y
        &&& w1.hero_dir == w0.hero_dir
        &&& w1.arrows == w0.arrows - 1
        &&& w1.state == w0.state
        &&& forall|i: int, j: int|
            w0.in_bounds(i, j) ==> #[trigger] w1.tile(i, j) == (if on_ray(w0, i, j) {
                tile_zapped(w0.tile(i, j))
            } else {
                w0.tile(i, j)
            })
    }
}

/// What every tile of the board holds right after a reset: the fixed
/// scenario — a `Wumpus` at `(5, 5)`, a `Pit` at `(3, 5)` and `Gold` at
/// `(9, 9)` — with each placement's clue on the orthogonal neighbors, and
/// only the origin tile discovered.
pub open spec fn scenario_tile(i: int, j: int) -> Tile {
    Tile {
        wumpus: i == 5 && j == 5,
        dead_wumpus: false,
        stench: orth_adjacent(i, j, 5, 5),
        pit: i == 3 && j == 5,
        breeze: orth_adjacent(i, j, 3, 5),
        gold: i == 9 && j == 9,
        glimmer: orth_adjacent(i, j, 9, 9),
        visible: i == 0 && j == 0,
    }
}

/// How a reset relates the state before to the state after: the board
/// holds exactly the fixed scenario with the origin discovered, the agent
/// stands at the origin with its facing kept and one fresh charge, and the
/// game is in play (the scenario leaves the origin tile empty, so the
/// discovery step the reset ends with cannot end the game).
pub open spec fn reset_rel(w0: WumpusWorld, w1: WumpusWorld) -> bool {
    &&& w1.wf()
    &&& w1.width == w0.width
    &&& w1.height == w0.height
    &&& w1.hero_x == 0
    &&& w1.hero_y == 0
    &&& w1.hero_dir == w0.hero_dir
    &&& w1.arrows == 1
    &&& w1.state == GameState::Playing
    &&& forall|i: int, j: int|
        w0.in_bounds(i, j) ==> #[trigger] w1.tile(i, j) == scenario_tile(i, j)
}

/// One semantic player action, free of any input-library vocabulary.  The
/// input collaborator maps raw key events to these.
#[derive(Copy, Clone, PartialEq, Eq, Debug, Structural)]
pub enum Action {
    MoveUp,
    MoveDown,
    MoveLeft,
    MoveRight,
    Turn(Direction),
    Fire,
    Reset,
}

/// The engine as one deterministic transducer: how performing `a` relates
/// the state before to the state after.
pub open spec fn step_rel(w0: WumpusWorld, w1: WumpusWorld, a: Action) -> bool {
    match a {
        Action::MoveUp => move_rel(w0, w1, Direction::Up),
        Action::MoveDown => move_rel(w0, w1, Direction::Down),
        Action::MoveLeft => move_rel(w0, w1, Direction::Left),
        Action::MoveRight => move_rel(w0, w1, Direction::Right),
        Action::Turn(d) => turn_rel(w0, w1, d),
        Action::Fire => fire_rel(w0, w1),
        Action::Reset => reset_rel(w0, w1),
    }
}

impl WumpusWorld {
    /// The storage index of in-bounds tile `(x, y)`.
    fn flat_index(&self, x: usize, y: usize) -> (k: usize)
        requires
            self.wf(),
            x < self.width,
            y < self.height,
        ensures
            k == (y as int) * (self.width as int) + (x as int),
            k < self.grid@.len(),
    {
        proof {
            lemma_flat_index_in_range(
                self.width as int,
                self.height as int,
                x as int,
                y as int,
            );
        }
        y * self.width + x
    }

    /// Read the tile at in-bounds coordinate `(x, y)`.
    fn get_tile(&self, x: usize, y: usize) -> (t: Tile)
        requires
            self.wf(),
            x < self.width,
            y < self.height,
        ensures
            t == self.tile(x as int, y as int),
    {
        let k = self.flat_index(x, y);
        self.grid[k]
    }

    /// Overwrite the tile at in-bounds coordinate `(x, y)`; no other tile
    /// and no other field changes.
    fn set_tile(&mut self, x: usize, y: usize, t: Tile)
        requires
            old(self).wf(),
            x < old(self).width,
            y < old(self).height,
        ensures
            final(self).wf(),
            final(self).width == old(self).width,
            final(self).height == old(self).height,
            final(self).hero_x == old(self).hero_x,
            final(self).hero_y == old(self).hero_y,
            final(self).hero_dir == old(self).hero_dir,
            final(self).arrows == old(self).arrows,
            final(self).state == old(self).state,
            forall|i: int, j: int|
                old(self).in_bounds(i, j) ==> #[trigger] final(self).tile(i, j) == (if i
                    == x as int && j == y as int {
                    t
                } else {
                    old(self).tile(i, j)
                }),
    {
        let k = self.flat_index(x, y);
        self.grid[k] = t;
        proof {
            assert forall|i: int, j: int| old(self).in_bounds(i, j) implies #[trigger] self.tile(
                i,
                j,
            ) == (if i == x as int && j == y as int {
                t
            } else {
                old(self).tile(i, j)
            }) by {
                lemma_flat_index_in_range(self.width as int, self.height as int, i, j);
                if !(i == x as int && j == y as int) && j * (self.width as int) + i == (
                y as int) * (self.width as int) + (x as int) {
                    lemma_flat_index_injective(self.width as int, i, j, x as int, y as int);
                }
            }
        }
    }

    /// Build an engine with an empty, undiscovered board of the given size,
    /// the agent at the origin facing right, one attack charge, and the game
    /// in play.
    pub fn new(width: usize, height: usize) -> (w: WumpusWorld)
        requires
            1 <= width,
            1 <= height,
            (width as int) * (height as int) <= usize::MAX as int,
        ensures
            w.wf(),
            w.width == width,
            w.height == height,
            w.hero_x == 0,
            w.hero_y == 0,
            w.hero_dir == Direction::Right,
            w.arrows == 1,
            w.state == GameState::Playing,
            forall|i: int, j: int|
                w.in_bounds(i, j) ==> #[trigger] w.tile(i, j) == empty_tile(),
    {
        let total: usize = width * height;
        let mut grid: Vec<Tile> = Vec::new();
        while grid.len() < total
            invariant
                grid@.len() <= total,
                forall|m: int| 0 <= m < grid@.len() ==> #[trigger] grid@[m] == empty_tile(),
            decreases total - grid@.len(),
        {
            grid.push(Tile::new());
        }
        let w = WumpusWorld {
            width,
            height,
            grid,
            hero_x: 0,
            hero_y: 0,
            hero_dir: Direction::Right,
            arrows: 1,
            state: GameState::Playing,
        };
        proof {
            assert forall|i: int, j: int| w.in_bounds(i, j) implies #[trigger] w.tile(i, j)
                == empty_tile() by {
                lemma_flat_index_in_range(w.width as int, w.height as int, i, j);
            }
        }
        w
    }

    /// Add `o` to the object set of in-bounds tile `(x, y)`; no other tile
    /// and no other field changes.
    fn insert_at(&mut self, x: usize, y: usize, o: Object)
        requires
            old(self).wf(),
            x < old(self).width,
            y < old(self).height,
        ensures
            final(self).wf(),
            final(self).width == old(self).width,
            final(self).height == old(self).height,
            final(self).hero_x == old(self).hero_x,
            final(self).hero_y == old(self).hero_y,
            final(self).hero_dir == old(self).hero_dir,
            final(self).arrows == old(self).arrows,
            final(self).state == old(self).state,
            forall|i: int, j: int|
                old(self).in_bounds(i, j) ==> #[trigger] final(self).tile(i, j) == (if i
                    == x as int && j == y as int {
                    tile_with(old(self).tile(i, j), o)
                } else {
                    old(self).tile(i, j)
                }),
    {
        let mut t = self.get_tile(x, y);
        t.insert(o);
        self.set_tile(x, y, t);
    }

    /// Place `thing` on tile `(x, y)` and spread its clue (if any) to the
    /// orthogonal neighbors that exist on the board; neighbors past an edge
    /// are skipped, diagonals are never touched.  An out-of-bounds target is
    /// rejected with no change at all.
    #[verifier::rlimit(60)]
    pub fn add_thing(&mut self, x: usize, y: usize, thing: Object) -> (r: Result<(), OutOfBounds>)
        requires
            old(self).wf(),
        ensures
            final(self).wf(),
            old(self).in_bounds(x as int, y as int) ==> r is Ok && place_rel(
                *old(self),
                *final(self),
                x as int,
                y as int,
                thing,
            ),
            !old(self).in_bounds(x as int, y as int) ==> r is Err && *final(self) == *old(self),
    {
        if !(x < self.width && y < self.height) {
            return Err(OutOfBounds);
        }
        self.insert_at(x, y, thing);
        match thing.clue() {
            None => {},
            Some(c) => {
                if x > 0 {
                    self.insert_at(x - 1, y, c);
                }
                if x + 1 < self.width {
                    self.insert_at(x + 1, y, c);
                }
                if y > 0 {
                    self.insert_at(x, y - 1, c);
                }
                if y + 1 < self.height {
                    self.insert_at(x, y + 1, c);
                }
            },
        }
        Ok(())
    }

    /// Take `thing` off tile `(x, y)`.  Clues that placing `thing` spread to
    /// the neighbors are independent entities once placed and stay where
    /// they are.  An out-of-bounds target is rejected with no change.
    pub fn remove_thing(&mut self, x: usize, y: usize, thing: Object) -> (r: Result<
        (),
        OutOfBounds,
    >)
        requires
            old(self).wf(),
        ensures
            final(self).wf(),
            old(self).in_bounds(x as int, y as int) ==> r is Ok && remove_rel(
                *old(self),
                *final(self),
                x as int,
                y as int,
                thing,
            ),
            !old(self).in_bounds(x as int, y as int) ==> r is Err && *final(self) == *old(self),
    {
        if !(x < self.width && y < self.height) {
            return Err(OutOfBounds);
        }
        let mut t = self.get_tile(x, y);
        t.remove(thing);
        self.set_tile(x, y, t);
        Ok(())
    }

    /// The discovery step: mark the agent's tile discovered, then evaluate
    /// the state-machine transition on its contents.
    fn hero_visit(&mut self)
        requires
            old(self).wf(),
        ensures
            final(self).wf(),
            visit_rel(*old(self), *final(self), old(self).hero_x as int, old(self).hero_y as int),
    {
        let x = self.hero_x;
        let y = self.hero_y;
        let mut t = self.get_tile(x, y);
        t.visible = true;
        self.set_tile(x, y, t);
        let ghost mid = *self;
        if self.state == GameState::Playing {
            if t.contains(Object::Wumpus) || t.contains(Object::Pit) {
                self.state = GameState::Lose;
            } else if t.contains(Object::Gold) {
                self.state = GameState::Win;
            }
        }
        proof {
            assert forall|i: int, j: int| old(self).in_bounds(i, j) implies #[trigger] self.tile(
                i,
                j,
            ) == (if i == x as int && j == y as int {
                tile_discovered(old(self).tile(i, j))
            } else {
                old(self).tile(i, j)
            }) by {
                assert(self.tile(i, j) == mid.tile(i, j));
            }
        }
    }

    /// Step one cell up (towards smaller `y`), or do nothing at the board
    /// edge; a successful step runs a discovery step on the new tile.
    pub fn move_up(&mut self)
        requires
            old(self).wf(),
        ensures
            final(self).wf(),
            move_rel(*old(self), *final(self), Direction::Up),
    {
        if self.hero_y == 0 {
            return ;
        }
        self.hero_y = self.hero_y - 1;
        self.hero_visit();
    }

    /// Step one cell down (towards larger `y`), or do nothing at the board
    /// edge; a successful step runs a discovery step on the new tile.
    pub fn move_down(&mut self)
        requires
            old(self).wf(),
        ensures
            final(self).wf(),
            move_rel(*old(self), *final(self), Direction::Down),
    {
        if self.hero_y == self.height - 1 {
            return ;
        }
        self.hero_y = self.hero_y + 1;
        self.hero_visit();
    }

    /// Step one cell left, or do nothing at the board edge; a successful
    /// step runs a discovery step on the new tile.
    pub fn move_left(&mut self)
        requires
            old(self).wf(),
        ensures
            final(self).wf(),
            move_rel(*old(self), *final(self), Direction::Left),
    {
        if self.hero_x == 0 {
            return ;
        }
        self.hero_x = self.hero_x - 1;
        self.hero_visit();
    }

    /// Step one cell right, or do nothing at the board edge; a successful
    /// step runs a discovery step on the new tile.
    pub fn move_right(&mut self)
        requires
            old(self).wf(),
        ensures
            final(self).wf(),
            move_rel(*old(self), *final(self), Direction::Right),
    {
        if self.hero_x == self.width - 1 {
            return ;
        }
        self.hero_x = self.hero_x + 1;
        self.hero_visit();
    }

    /// Replace a live `Wumpus` on in-bounds tile `(x, y)` by a
    /// `DeadWumpus`; a tile without one, every other tile, and every other
    /// field stay unchanged.
    fn zap_at(&mut self, x: usize, y: usize)
        requires
            old(self).wf(),
            x < old(self).width,
            y < old(self).height,
        ensures
            final(self).wf(),
            final(self).width == old(self).width,
            final(self).height == old(self).height,
            final(self).hero_x == old(self).hero_x,
            final(self).hero_y == old(self).hero_y,
            final(self).hero_dir == old(self).hero_dir,
            final(self).arrows == old(self).arrows,
            final(self).state == old(self).state,
            forall|i: int, j: int|
                old(self).in_bounds(i, j) ==> #[trigger] final(self).tile(i, j) == (if i
                    == x as int && j == y as int {
                    tile_zapped(old(self).tile(i, j))
                } else {
                    old(self).tile(i, j)
                }),
    {
        let mut t = self.get_tile(x, y);
        if t.contains(Object::Wumpus) {
            t.remove(Object::Wumpus);
            t.insert(Object::DeadWumpus);
            self.set_tile(x, y, t);
        }
    }

    /// Fire the ranged attack: a no-op without a charge; otherwise spend
    /// one charge and trace a straight line from the agent's tile to the
    /// board edge in the facing direction, replacing every live `Wumpus` on
    /// the line by a `DeadWumpus`.  The line does not stop at the first
    /// hit.
    pub fn fire_arrow(&mut self)
        requires
            old(self).wf(),
        ensures
            final(self).wf(),
            fire_rel(*old(self), *final(self)),
    {
        if self.arrows == 0 {
            return ;
        }
        self.arrows = self.arrows - 1;
        let hx = self.hero_x;
        let hy = self.hero_y;
        let ghost w0 = *old(self);
        match self.hero_dir {
            Direction::Up => {
                let mut steps: usize = 0;
                while steps <= hy
                    invariant
                        self.wf(),
                        self.width == w0.width,
                        self.height == w0.height,
                        self.hero_x == w0.hero_x,
                        self.hero_y == w0.hero_y,
                        self.hero_dir == w0.hero_dir,
                        self.arrows == w0.arrows - 1,
                        self.state == w0.state,
                        w0.arrows > 0,
                        w0.hero_dir == Direction::Up,
                        hx == w0.hero_x,
                        hy == w0.hero_y,
                        hy < w0.height,
                        steps <= hy + 1,
                        forall|i: int, j: int|
                            w0.in_bounds(i, j) ==> #[trigger] self.tile(i, j) == (if i
                                == hx as int && hy - steps < j <= hy {
                                tile_zapped(w0.tile(i, j))
                            } else {
                                w0.tile(i, j)
                            }),
                    decreases hy + 1 - steps,
                {
                    self.zap_at(hx, hy - steps);
                    steps = steps + 1;
                }
            },
            Direction::Down => {
                let mut y = hy;
                while y < self.height
                    invariant
                        self.wf(),
                        self.width == w0.width,
                        self.height == w0.height,
                        self.hero_x == w0.hero_x,
                        self.hero_y == w0.hero_y,
                        self.hero_dir == w0.hero_dir,
                        self.arrows == w0.arrows - 1,
                        self.state == w0.state,
                        w0.arrows > 0,
                        w0.hero_dir == Direction::Down,
                        hx == w0.hero_x,
                        hy == w0.hero_y,
                        hy <= y <= w0.height,
                        forall|i: int, j: int|
                            w0.in_bounds(i, j) ==> #[trigger] self.tile(i, j) == (if i
                                == hx as int && hy <= j < y {
                                tile_zapped(w0.tile(i, j))
                            } else {
                                w0.tile(i, j)
                            }),
                    decreases w0.height - y,
                {
                    self.zap_at(hx, y);
                    y = y + 1;
                }
            },
            Direction::Left => {
                let mut steps: usize = 0;
                while steps <= hx
                    invariant
                        self.wf(),
                        self.width == w0.width,
                        self.height == w0.height,
                        self.hero_x == w0.hero_x,
                        self.hero_y == w0.hero_y,
                        self.hero_dir == w0.hero_dir,
                        self.arrows == w0.arrows - 1,
                        self.state == w0.state,
                        w0.arrows > 0,
                        w0.hero_dir == Direction::Left,
                        hx == w0.hero_x,
                        hy == w0.hero_y,
                        hx < w0.width,
                        steps <= hx + 1,
                        forall|i: int, j: int|
                            w0.in_bounds(i, j) ==> #[trigger] self.tile(i, j) == (if j
                                == hy as int && hx - steps < i <= hx {
                                tile_zapped(w0.tile(i, j))
                            } else {
                                w0.tile(i, j)
                            }),
                    decreases hx + 1 - steps,
                {
                    self.zap_at(hx - steps, hy);
                    steps = steps + 1;
                }
            },
            Direction::Right => {
                let mut x = hx;
                while x < self.width
                    invariant
                        self.wf(),
                        self.width == w0.width,
                        self.height == w0.height,
                        self.hero_x == w0.hero_x,
                        self.hero_y == w0.hero_y,
                        self.hero_dir == w0.hero_dir,
                        self.arrows == w0.arrows - 1,
                        self.state == w0.state,
                        w0.arrows > 0,
                        w0.hero_dir == Direction::Right,
                        hx == w0.hero_x,
                        hy == w0.hero_y,
                        hx <= x <= w0.width,
                        forall|i: int, j: int|
                            w0.in_bounds(i, j) ==> #[trigger] self.tile(i, j) == (if j
                                == hy as int && hx <= i < x {
                                tile_zapped(w0.tile(i, j))
                            } else {
                                w0.tile(i, j)
                            }),
                    decreases w0.width - x,
                {
                    self.zap_at(x, hy);
                    x = x + 1;
                }
            },
        }
    }

    /// Clear every tile of the board: no objects, nothing discovered.  The
    /// agent and the game state are untouched.
    fn clear_board(&mut self)
        requires
            old(self).wf(),
        ensures
            final(self).wf(),
            final(self).width == old(self).width,
            final(self).height == old(self).height,
            final(self).hero_x == old(self).hero_x,
            final(self).hero_y == old(self).hero_y,
            final(self).hero_dir == old(self).hero_dir,
            final(self).arrows == old(self).arrows,
            final(self).state == old(self).state,
            forall|i: int, j: int|
                old(self).in_bounds(i, j) ==> #[trigger] final(self).tile(i, j) == empty_tile(),
    {
        let n = self.grid.len();
        let mut k: usize = 0;
        while k < n
            invariant
                old(self).wf(),
                self.width == old(self).width,
                self.height == old(self).height,
                self.hero_x == old(self).hero_x,
                self.hero_y == old(self).hero_y,
                self.hero_dir == old(self).hero_dir,
                self.arrows == old(self).arrows,
                self.state == old(self).state,
                self.grid@.len() == old(self).grid@.len(),
                n == self.grid@.len(),
                k <= n,
                forall|m: int| 0 <= m < k ==> #[trigger] self.grid@[m] == empty_tile(),
            decreases n - k,
        {
            self.grid[k] = Tile::new();
            k = k + 1;
        }
        proof {
            assert forall|i: int, j: int| old(self).in_bounds(i, j) implies #[trigger] self.tile(
                i,
                j,
            ) == empty_tile() by {
                lemma_flat_index_in_range(self.width as int, self.height as int, i, j);
            }
        }
    }

    /// Full reset: clear the board, put the agent back at the origin with
    /// its facing kept, restore the single attack charge, re-enter
    /// `Playing`, seed the fixed scenario (`Wumpus` at `(5, 5)`, `Pit` at
    /// `(3, 5)`, `Gold` at `(9, 9)`) through the ordinary placement
    /// operation, and finish with a discovery step on the origin tile.  The
    /// fixed scenario occupies coordinates up to `(9, 9)`, so the board
    /// must be at least `10 x 10`.
    pub fn reset_board(&mut self)
        requires
            old(self).wf(),
            old(self).width >= 10,
            old(self).height >= 10,
        ensures
            final(self).wf(),
            reset_rel(*old(self), *final(self)),
    {
        self.clear_board();
        let ghost wc = *self;
        self.hero_x = 0;
        self.hero_y = 0;
        self.arrows = 1;
        self.state = GameState::Playing;
        let ghost wb = *self;
        let _ = self.add_thing(5, 5, Object::Wumpus);
        let ghost ww = *self;
        let _ = self.add_thing(3, 5, Object::Pit);
        let ghost wp = *self;
        let _ = self.add_thing(9, 9, Object::Gold);
        let ghost wg = *self;
        self.hero_visit();
        proof {
            assert(wb.tile(0, 0) == wc.tile(0, 0) && wc.tile(0, 0) == empty_tile());
            assert forall|i: int, j: int| old(self).in_bounds(i, j) implies #[trigger] self.tile(
                i,
                j,
            ) == scenario_tile(i, j) by {
                assert(wc.tile(i, j) == empty_tile());
                assert(wb.tile(i, j) == wc.tile(i, j));
                assert(ww.tile(i, j) == placed_tile(wb.tile(i, j), 5, 5, Object::Wumpus, i, j));
                assert(wp.tile(i, j) == placed_tile(ww.tile(i, j), 3, 5, Object::Pit, i, j));
                assert(wg.tile(i, j) == placed_tile(wp.tile(i, j), 9, 9, Object::Gold, i, j));
            }
        }
    }

    /// Turn the agent to face `d`.  Facing is not a position: no bounds
    /// check applies and no discovery step runs.
    pub fn set_direction(&mut self, d: Direction)
        requires
            old(self).wf(),
        ensures
            final(self).wf(),
            turn_rel(*old(self), *final(self), d),
    {
        self.hero_dir = d;
    }

    /// Perform one player action.  A `Reset` needs a board large enough
    /// for the fixed scenario.
    pub fn apply(&mut self, a: Action)
        requires
            old(self).wf(),
            a == Action::Reset ==> old(self).width >= 10 && old(self).height >= 10,
        ensures
            final(self).wf(),
            step_rel(*old(self), *final(self), a),
    {
        match a {
            Action::MoveUp => self.move_up(),
            Action::MoveDown => self.move_down(),
            Action::MoveLeft => self.move_left(),
            Action::MoveRight => self.move_right(),
            Action::Turn(d) => self.set_direction(d),
            Action::Fire => self.fire_arrow(),
            Action::Reset => self.reset_board(),
        }
    }

    /// The board size as `(width, height)`.
    pub fn size(&self) -> (r: (usize, usize))
        ensures
            r.0 == self.width,
            r.1 == self.height,
    {
        (self.width, self.height)
    }

    /// A copy of the tile at `(x, y)`, or `None` for a coordinate off the
    /// board.
    pub fn tile_at(&self, x: usize, y: usize) -> (r: Option<Tile>)
        requires
            self.wf(),
        ensures
            self.in_bounds(x as int, y as int) ==> r == Some(self.tile(x as int, y as int)),
            !self.in_bounds(x as int, y as int) ==> r is None,
    {
        if x < self.width && y < self.height {
            Some(self.get_tile(x, y))
        } else {
            None
        }
    }

    /// The agent's position as `(x, y)`.
    pub fn hero_pos(&self) -> (r: (usize, usize))
        ensures
            r.0 == self.hero_x,
            r.1 == self.hero_y,
    {
        (self.hero_x, self.hero_y)
    }

    /// The direction the agent faces.
    pub fn facing(&self) -> (r: Direction)
        ensures
            r == self.hero_dir,
    {
        self.hero_dir
    }

    /// How many ranged-attack charges remain.
    pub fn arrows_left(&self) -> (r: u8)
        ensures
            r == self.arrows,
    {
        self.arrows
    }

    /// The current phase of the game.
    pub fn game_state(&self) -> (r: GameState)
        ensures
            r == self.state,
    {
        self.state
    }
}

} // verus!
