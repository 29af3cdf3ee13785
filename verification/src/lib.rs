//! Startup logic of a Boom-derived Doom engine.
//!
//! The library identifies the main data archive of the game ([`iwad`],
//! on the format of [`wad`]), takes in the command line ([`startup`],
//! [`misc`], [`video`]) and begins a new game at the compatibility level
//! that was asked for ([`game`]), deriving the flags that make the engine
//! imitate the quirks of its forerunners. Around this stands the model of
//! the settings ([`configuration`]).
//!
//! Nothing here reads a file, the environment or the clock but
//! [`system::get_random_time_seed`]: the caller reads, and hands over
//! what it read.

pub mod configuration;
pub mod defs;
pub mod doom;
pub mod error;
pub mod game;
pub mod iwad;
pub mod logic;
pub mod misc;
pub mod runtime_config;
pub mod search;
pub mod startup;
pub mod system;
pub mod tables;
pub mod video;
pub mod wad;
