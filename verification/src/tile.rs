//! One cell of the board: the set of objects currently present (no
//! duplicates, insertion order never observed) and a discovery flag.

use vstd::prelude::*;
use crate::object::Object;

verus! {

/// A tile holds at most one of each kind of object, plus a flag saying
/// whether the agent has discovered (seen) it.  One boolean per object kind
/// gives the set semantics directly: inserting twice is the same as once.
#[derive(Copy, Clone, PartialEq, Eq, Debug, Structural)]
pub struct Tile {
    pub wumpus: bool,
    pub dead_wumpus: bool,
    pub stench: bool,
    pub pit: bool,
    pub breeze: bool,
    pub gold: bool,
    pub glimmer: bool,
    pub visible: bool,
}

/// The tile with nothing on it and not yet discovered.
pub open spec fn empty_tile() -> Tile {
    Tile {
        wumpus: false,
        dead_wumpus: false,
        stench: false,
        pit: false,
        breeze: false,
        gold: false,
        glimmer: false,
        visible: false,
    }
}

/// `t` with `o` added to its object set; everything else, including the
/// discovery flag, is unchanged.
pub open spec fn tile_with(t: Tile, o: Object) -> Tile {
    match o {
        Object::Wumpus => Tile { wumpus: true, ..t },
        Object::DeadWumpus => Tile { dead_wumpus: true, ..t },
        Object::Stench => Tile { stench: true, ..t },
        Object::Pit => Tile { pit: true, ..t },
        Object::Breeze => Tile { breeze: true, ..t },
        Object::Gold => Tile { gold: true, ..t },
        Object::Glimmer => Tile { glimmer: true, ..t },
    }
}

/// `t` with `o` taken out of its object set; everything else is unchanged.
pub open spec fn tile_without(t: Tile, o: Object) -> Tile {
    match o {
        Object::Wumpus => Tile { wumpus: false, ..t },
        Object::DeadWumpus => Tile { dead_wumpus: false, ..t },
        Object::Stench => Tile { stench: false, ..t },
        Object::Pit => Tile { pit: false, ..t },
        Object::Breeze => Tile { breeze: false, ..t },
        Object::Gold => Tile { gold: false, ..t },
        Object::Glimmer => Tile { glimmer: false, ..t },
    }
}

/// `t` marked as discovered; its object set is unchanged.
pub open spec fn tile_discovered(t: Tile) -> Tile {
    Tile { visible: true, ..t }
}

/// `t` after an arrow passes through: a live `Wumpus` is replaced by
/// `DeadWumpus`; every other object and the discovery flag are unchanged.
/// A tile without a live `Wumpus` is left exactly as it was.
pub open spec fn tile_zapped(t: Tile) -> Tile {
    Tile { wumpus: false, dead_wumpus: t.dead_wumpus || t.wumpus, ..t }
}

impl Tile {
    /// Whether `o` is present on this tile.
    pub open spec fn has(self, o: Object) -> bool {
        match o {
            Object::Wumpus => self.wumpus,
            Object::DeadWumpus => self.dead_wumpus,
            Object::Stench => self.stench,
            Object::Pit => self.pit,
            Object::Breeze => self.breeze,
            Object::Gold => self.gold,
            Object::Glimmer => self.glimmer,
        }
    }

    /// A fresh tile: empty and undiscovered.
    pub fn new() -> (t: Tile)
        ensures
            t == empty_tile(),
    {
        Tile {
            wumpus: false,
            dead_wumpus: false,
            stench: false,
            pit: false,
            breeze: false,
            gold: false,
            glimmer: false,
            visible: false,
        }
    }

    /// Whether `o` is present on this tile.
    pub fn contains(&self, o: Object) -> (r: bool)
        ensures
            r == self.has(o),
    {
        match o {
            Object::Wumpus => self.wumpus,
            Object::DeadWumpus => self.dead_wumpus,
            Object::Stench => self.stench,
            Object::Pit => self.pit,
            Object::Breeze => self.breeze,
            Object::Gold => self.gold,
            Object::Glimmer => self.glimmer,
        }
    }

    /// Add `o` to this tile's object set (a no-op if already present).
    pub fn insert(&mut self, o: Object)
        ensures
            *final(self) == tile_with(*old(self), o),
    {
        match o {
            Object::Wumpus => self.wumpus = true,
            Object::DeadWumpus => self.dead_wumpus = true,
            Object::Stench => self.stench = true,
            Object::Pit => self.pit = true,
            Object::Breeze => self.breeze = true,
            Object::Gold => self.gold = true,
            Object::Glimmer => self.glimmer = true,
        }
    }

    /// Take `o` out of this tile's object set (a no-op if absent).
    pub fn remove(&mut self, o: Object)
        ensures
            *final(self) == tile_without(*old(self), o),
    {
        match o {
            Object::Wumpus => self.wumpus = false,
            Object::DeadWumpus => self.dead_wumpus = false,
            Object::Stench => self.stench = false,
            Object::Pit => self.pit = false,
            Object::Breeze => self.breeze = false,
            Object::Gold => self.gold = false,
            Object::Glimmer => self.glimmer = false,
        }
    }
}

} // verus!
