//! The logic of the game world.

pub mod mobj;
