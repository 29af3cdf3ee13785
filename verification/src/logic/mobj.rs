//! What a thing on the map is and does, as a set of flags.

use vstd::prelude::*;

verus! {

/// The flags of a thing on the map. Each flag is one bit, but for the
/// translation of colours, which takes two bits, and the shift that
/// leads to them.
#[derive(Debug, Clone, Copy, PartialEq, Eq, Structural)]
pub struct MobjFlag {
    pub bits: u64,
}

impl MobjFlag {
    /// No flag at all.
    pub const NONE: u64 = 0x0;

    /// Calls mobj::special_thing() when touched!.
    pub const SPECIAL: u64 = 0x1;

    /// Blocks other things.
    pub const SOLID: u64 = 0x2;

    /// Can be hit.
    pub const SHOOTABLE: u64 = 0x4;

    /// Don't use sector links, i.e. invisible but touchable.
    pub const NOSECTOR: u64 = 0x8;

    /// Don't use blocklinks, i.e. inert but displayable.
    pub const NOBLOCKMAP: u64 = 0x10;

    /// Not activated by sound.
    pub const AMBUSH: u64 = 0x20;

    /// Will try to attack soon.
    pub const JUSTHIT: u64 = 0x40;

    /// Will take at least one step before attacking again.
    pub const JUSTATTACKED: u64 = 0x80;

    /// Initial position hanging from ceiling.
    pub const SPAWNCEILING: u64 = 0x100;

    /// Gravity does not apply.
    pub const NOGRAVITY: u64 = 0x200;

    /// Allow to jump from high places.
    pub const DROPOFF: u64 = 0x400;

    /// Picks up items.
    pub const PICKUP: u64 = 0x800;

    /// Player cheat.
    pub const NOCLIP: u64 = 0x1000;

    /// Keep info about sliding along walls (player).
    pub const SLIDE: u64 = 0x2000;

    /// Allow moving to any height, no gravity e.g. cacodemon, pain elemental.
    pub const FLOAT: u64 = 0x4000;

    /// Don't cross lines or look at heights on teleport.
    pub const TELEPORT: u64 = 0x8000;

    /// Don't hit the same species, explode on block Player missiles/fireballs
    /// from enemies.
    pub const MISSILE: u64 = 0x10000;

    /// Dropped by a demon, i.e. not placed by the level.
    pub const DROPPED: u64 = 0x20000;

    /// Use fuzzy drawing for this.
    pub const SHADOW: u64 = 0x40000;

    /// Don't bleed when shot, use bullet puff instead e.g. barrels, shootable
    /// furniture.
    pub const NOBLOOD: u64 = 0x80000;

    /// Don't stop moving halfway off a step, i.e. slide down all the way.
    pub const CORPSE: u64 = 0x100000;

    /// Floating to a specific height, so don't float to the target right now.
    pub const INFLOAT: u64 = 0x200000;

    /// On kill, count this item towards the total.
    pub const COUNTKILL: u64 = 0x400000;

    /// On pickup, count towards item total.
    pub const COUNTITEM: u64 = 0x800000;

    /// Use special handling for a skull in flight.
    pub const SKULLFLY: u64 = 0x1000000;

    /// Don't spawn this in deathmatch mode.
    pub const NOTDMATCH: u64 = 0x2000000;

    /// Both bits of the translation of colours of player sprites in a game of
    /// several players.
    pub const TRANSLATION: u64 = 0xc000000;

    /// The lower bit of the translation of colours.
    pub const TRANSLATION1: u64 = 0x4000000;

    /// The higher bit of the translation of colours.
    pub const TRANSLATION2: u64 = 0x8000000;

    /// How far the translation of colours is shifted.
    pub const TRANSSHIFT: u64 = 0x1a;

    /// Not in use.
    pub const UNUSED2: u64 = 0x10000000;

    /// Not in use.
    pub const UNUSED3: u64 = 0x20000000;

    /// Translucent sprite, maybe.
    pub const TRANSLUCENT: u64 = 0x40000000;

    /// Dies when something touches it.
    pub const TOUCHY: u64 = 0x100000000;

    /// Bounces off walls and floors.
    pub const BOUNCES: u64 = 0x200000000;

    /// Fights on the side of the player.
    pub const FRIEND: u64 = 0x400000000;

    /// Was raised from the dead.
    pub const RESURRECTED: u64 = 0x1000000000;

    /// Is drawn without a depth test.
    pub const NO_DEPTH_TEST: u64 = 0x2000000000;

    /// Is drawn in front of everything.
    pub const FOREGROUND: u64 = 0x4000000000;

    /// Is the sprite of a player.
    pub const PLAYERSPRITE: u64 = 0x8000000000;

    /// Not targetted when it hurts something else.
    pub const NOTARGET: u64 = 0x10000000000;

    /// fly mode active.
    pub const FLY: u64 = 0x20000000000;

    /// The flags as a number.
    pub fn into_bits(self) -> (bits: u64)
        ensures
            bits == self.bits,
    {
        self.bits
    }

    /// Whether all flags of `other` are set.
    pub fn contains(self, other: MobjFlag) -> (r: bool)
        ensures
            r == (self.bits & other.bits == other.bits),
    {
        self.bits & other.bits == other.bits
    }
}

} // verus!
