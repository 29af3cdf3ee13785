//! Which game is being played: the edition of the data archive, the mission
//! pack and the language of its texts.

use vstd::prelude::*;

verus! {

/// Edition of the main data archive. Animations, episode menus and the
/// like depend on it.
#[derive(Debug, Clone, Copy, PartialEq, Eq, Structural)]
pub enum GameMode {
    /// No known edition could be recognised.
    Undetermined,
    Shareware,
    Registered,
    Commercial,
    Retail,
}

/// Mission pack that the main data archive belongs to.
#[derive(Debug, Clone, Copy, PartialEq, Eq, Structural)]
pub enum GameMission {
    Doom,
    Doom2,
    TNT,
    Plutonia,
    Nerve,
    Hacx,
    Chex,
    /// No archive has been identified yet.
    NoMission,
}

/// Language of the texts in the main data archive.
#[derive(Debug, Clone, Copy, PartialEq, Eq, Structural)]
pub enum Language {
    English,
    French,
    German,
    Unknown,
}

} // verus!
