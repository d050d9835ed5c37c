//! A hidden-information grid exploration puzzle: an agent explores a
//! rectangular board one tile at a time, hazards leave sensory clues on the
//! tiles around them, and a single ranged attack can clear every hazard in a
//! straight line.  The engine here is a deterministic, synchronous state
//! transducer; rendering and input handling live outside the library and only
//! call its mutators and read its accessors.

pub mod object;
pub mod tile;
pub mod world;
pub mod laws;
