//! Definitions shared by the whole game.

pub mod def;
