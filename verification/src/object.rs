//! The closed set of things that can occupy a tile, and the clue relation
//! that hazards and treasure project onto their orthogonal neighbors.

use vstd::prelude::*;

verus! {

/// A kind of object that may be present on a tile: a hazard (`Wumpus`,
/// `Pit`), a neutralized hazard (`DeadWumpus`), treasure (`Gold`), or a
/// sensory clue (`Stench`, `Breeze`, `Glimmer`).
#[derive(Copy, Clone, PartialEq, Eq, Hash, Debug, Structural)]
pub enum Object {
    Wumpus,
    DeadWumpus,
    Stench,
    Pit,
    Breeze,
    Gold,
    Glimmer,
}

/// The clue relation: the marker (if any) that placing `o` spreads onto the
/// orthogonally adjacent tiles.  Clue derivation is one level deep: clues
/// themselves have no further clue.
pub open spec fn clue_spec(o: Object) -> Option<Object> {
    match o {
        Object::Wumpus => Some(Object::Stench),
        Object::DeadWumpus => Some(Object::Stench),
        Object::Stench => None,
        Object::Pit => Some(Object::Breeze),
        Object::Breeze => None,
        Object::Gold => Some(Object::Glimmer),
        Object::Glimmer => None,
    }
}

/// The index of the sprite that draws this object; the renderer keeps its
/// textures in a vector ordered this way.
pub open spec fn texture_index(o: Object) -> int {
    match o {
        Object::Wumpus => 0,
        Object::DeadWumpus => 1,
        Object::Stench => 2,
        Object::Pit => 3,
        Object::Breeze => 4,
        Object::Gold => 5,
        Object::Glimmer => 6,
    }
}

impl Object {
    /// The clue this object spreads to its orthogonal neighbors when placed,
    /// or `None` if it spreads nothing.
    pub fn clue(&self) -> (r: Option<Object>)
        ensures
            r == clue_spec(*self),
    {
        match *self {
            Object::Wumpus => Some(Object::Stench),
            Object::DeadWumpus => Some(Object::Stench),
            Object::Stench => None,
            Object::Pit => Some(Object::Breeze),
            Object::Breeze => None,
            Object::Gold => Some(Object::Glimmer),
            Object::Glimmer => None,
        }
    }

    /// The index of this object's sprite in the renderer's texture vector.
    pub fn texture_id(&self) -> (r: usize)
        ensures
            r == texture_index(*self),
            r < 7,
    {
        match *self {
            Object::Wumpus => 0,
            Object::DeadWumpus => 1,
            Object::Stench => 2,
            Object::Pit => 3,
            Object::Breeze => 4,
            Object::Gold => 5,
            Object::Glimmer => 6,
        }
    }
}

} // verus!
