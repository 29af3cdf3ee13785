//! The switches of a running game.

use vstd::prelude::*;

verus! {

/// The switches of game play of a running game.
#[derive(Debug, Clone, Copy, PartialEq, Eq, Structural)]
pub struct RuntimeConfig {
    pub nomonsters: bool,
    pub respawnparm: bool,
    pub fastparm: bool,
    pub devparm: bool,
    /// 0 for none, 1 for the old rules, 2 for the new rules.
    pub deathmatch: usize,
}

impl Default for RuntimeConfig {
    /// All switches off.
    fn default() -> (r: RuntimeConfig)
        ensures
            r == (RuntimeConfig {
                nomonsters: false,
                respawnparm: false,
                fastparm: false,
                devparm: false,
                deathmatch: 0,
            }),
    {
        RuntimeConfig {
            nomonsters: false,
            respawnparm: false,
            fastparm: false,
            devparm: false,
            deathmatch: 0,
        }
    }
}

} // verus!
