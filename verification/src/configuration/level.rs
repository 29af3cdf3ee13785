//! The compatibility level: which historical engine the game imitates.

use std::cmp::Ordering;
use vstd::prelude::*;
use vstd::std_specs::cmp::PartialOrdSpecImpl;

use crate::misc::text::str_eq;

verus! {

/// One tier of engine behaviour, from the oldest to the newest. The order
/// of the variants is the order in time, and every threshold in the game
/// compares levels by it.
#[derive(Debug, Clone, Copy, PartialEq, Eq, Structural)]
pub enum CompatibilityLevel {
    DoomV12,
    DoomV1666,
    Doom2V19,
    UltimateDoom,
    FinalDoom,
    DosDoom,
    TasDoom,
    Boom,
    BoomV201,
    BoomV202,
    LxDoomV1,
    Mbf,
    PrBoomV203Beta,
    PrBoomV210211,
    PrBoomV22x,
    PrBoomV23x,
    PrBoomV240,
    PrBoomLatest,
}

impl CompatibilityLevel {
    /// Position of the level in the order of tiers, counted from 0.
    pub open spec fn ordinal(self) -> int {
        match self {
            CompatibilityLevel::DoomV12 => 0,
            CompatibilityLevel::DoomV1666 => 1,
            CompatibilityLevel::Doom2V19 => 2,
            CompatibilityLevel::UltimateDoom => 3,
            CompatibilityLevel::FinalDoom => 4,
            CompatibilityLevel::DosDoom => 5,
            CompatibilityLevel::TasDoom => 6,
            CompatibilityLevel::Boom => 7,
            CompatibilityLevel::BoomV201 => 8,
            CompatibilityLevel::BoomV202 => 9,
            CompatibilityLevel::LxDoomV1 => 10,
            CompatibilityLevel::Mbf => 11,
            CompatibilityLevel::PrBoomV203Beta => 12,
            CompatibilityLevel::PrBoomV210211 => 13,
            CompatibilityLevel::PrBoomV22x => 14,
            CompatibilityLevel::PrBoomV23x => 15,
            CompatibilityLevel::PrBoomV240 => 16,
            CompatibilityLevel::PrBoomLatest => 17,
        }
    }

    /// The level at position `n`, if there is one.
    pub open spec fn of_ordinal(n: int) -> Option<CompatibilityLevel> {
        if n == 0 {
            Some(CompatibilityLevel::DoomV12)
        } else if n == 1 {
            Some(CompatibilityLevel::DoomV1666)
        } else if n == 2 {
            Some(CompatibilityLevel::Doom2V19)
        } else if n == 3 {
            Some(CompatibilityLevel::UltimateDoom)
        } else if n == 4 {
            Some(CompatibilityLevel::FinalDoom)
        } else if n == 5 {
            Some(CompatibilityLevel::DosDoom)
        } else if n == 6 {
            Some(CompatibilityLevel::TasDoom)
        } else if n == 7 {
            Some(CompatibilityLevel::Boom)
        } else if n == 8 {
            Some(CompatibilityLevel::BoomV201)
        } else if n == 9 {
            Some(CompatibilityLevel::BoomV202)
        } else if n == 10 {
            Some(CompatibilityLevel::LxDoomV1)
        } else if n == 11 {
            Some(CompatibilityLevel::Mbf)
        } else if n == 12 {
            Some(CompatibilityLevel::PrBoomV203Beta)
        } else if n == 13 {
            Some(CompatibilityLevel::PrBoomV210211)
        } else if n == 14 {
            Some(CompatibilityLevel::PrBoomV22x)
        } else if n == 15 {
            Some(CompatibilityLevel::PrBoomV23x)
        } else if n == 16 {
            Some(CompatibilityLevel::PrBoomV240)
        } else if n == 17 {
            Some(CompatibilityLevel::PrBoomLatest)
        } else {
            None
        }
    }

    /// Whether `self` is an earlier tier than `other`.
    pub open spec fn precedes(self, other: CompatibilityLevel) -> bool {
        self.ordinal() < other.ordinal()
    }

    /// The name of the level, as it is written on the command line.
    pub open spec fn name(self) -> Seq<char> {
        match self {
            CompatibilityLevel::DoomV12 => "DoomV12"@,
            CompatibilityLevel::DoomV1666 => "DoomV1666"@,
            CompatibilityLevel::Doom2V19 => "Doom2V19"@,
            CompatibilityLevel::UltimateDoom => "UltimateDoom"@,
            CompatibilityLevel::FinalDoom => "FinalDoom"@,
            CompatibilityLevel::DosDoom => "DosDoom"@,
            CompatibilityLevel::TasDoom => "TasDoom"@,
            CompatibilityLevel::Boom => "Boom"@,
            CompatibilityLevel::BoomV201 => "BoomV201"@,
            CompatibilityLevel::BoomV202 => "BoomV202"@,
            CompatibilityLevel::LxDoomV1 => "LxDoomV1"@,
            CompatibilityLevel::Mbf => "Mbf"@,
            CompatibilityLevel::PrBoomV203Beta => "PrBoomV203Beta"@,
            CompatibilityLevel::PrBoomV210211 => "PrBoomV210211"@,
            CompatibilityLevel::PrBoomV22x => "PrBoomV22x"@,
            CompatibilityLevel::PrBoomV23x => "PrBoomV23x"@,
            CompatibilityLevel::PrBoomV240 => "PrBoomV240"@,
            CompatibilityLevel::PrBoomLatest => "PrBoomLatest"@,
        }
    }

    /// The level whose name is exactly `s`, if there is one. Upper and
    /// lower case count.
    pub open spec fn named(s: Seq<char>) -> Option<CompatibilityLevel> {
        if s == "DoomV12"@ {
            Some(CompatibilityLevel::DoomV12)
        } else if s == "DoomV1666"@ {
            Some(CompatibilityLevel::DoomV1666)
        } else if s == "Doom2V19"@ {
            Some(CompatibilityLevel::Doom2V19)
        } else if s == "UltimateDoom"@ {
            Some(CompatibilityLevel::UltimateDoom)
        } else if s == "FinalDoom"@ {
            Some(CompatibilityLevel::FinalDoom)
        } else if s == "DosDoom"@ {
            Some(CompatibilityLevel::DosDoom)
        } else if s == "TasDoom"@ {
            Some(CompatibilityLevel::TasDoom)
        } else if s == "Boom"@ {
            Some(CompatibilityLevel::Boom)
        } else if s == "BoomV201"@ {
            Some(CompatibilityLevel::BoomV201)
        } else if s == "BoomV202"@ {
            Some(CompatibilityLevel::BoomV202)
        } else if s == "LxDoomV1"@ {
            Some(CompatibilityLevel::LxDoomV1)
        } else if s == "Mbf"@ {
            Some(CompatibilityLevel::Mbf)
        } else if s == "PrBoomV203Beta"@ {
            Some(CompatibilityLevel::PrBoomV203Beta)
        } else if s == "PrBoomV210211"@ {
            Some(CompatibilityLevel::PrBoomV210211)
        } else if s == "PrBoomV22x"@ {
            Some(CompatibilityLevel::PrBoomV22x)
        } else if s == "PrBoomV23x"@ {
            Some(CompatibilityLevel::PrBoomV23x)
        } else if s == "PrBoomV240"@ {
            Some(CompatibilityLevel::PrBoomV240)
        } else if s == "PrBoomLatest"@ {
            Some(CompatibilityLevel::PrBoomLatest)
        } else {
            None
        }
    }

    /// The position of the level as a number.
    pub fn to_primitive(self) -> (n: i32)
        ensures
            n == self.ordinal(),
            0 <= n <= 17,
    {
        match self {
            CompatibilityLevel::DoomV12 => 0,
            CompatibilityLevel::DoomV1666 => 1,
            CompatibilityLevel::Doom2V19 => 2,
            CompatibilityLevel::UltimateDoom => 3,
            CompatibilityLevel::FinalDoom => 4,
            CompatibilityLevel::DosDoom => 5,
            CompatibilityLevel::TasDoom => 6,
            CompatibilityLevel::Boom => 7,
            CompatibilityLevel::BoomV201 => 8,
            CompatibilityLevel::BoomV202 => 9,
            CompatibilityLevel::LxDoomV1 => 10,
            CompatibilityLevel::Mbf => 11,
            CompatibilityLevel::PrBoomV203Beta => 12,
            CompatibilityLevel::PrBoomV210211 => 13,
            CompatibilityLevel::PrBoomV22x => 14,
            CompatibilityLevel::PrBoomV23x => 15,
            CompatibilityLevel::PrBoomV240 => 16,
            CompatibilityLevel::PrBoomLatest => 17,
        }
    }

    /// The level at position `n`. Numbers that are no position, negative
    /// ones among them, give `None`.
    pub fn try_from_primitive(n: i32) -> (r: Option<CompatibilityLevel>)
        ensures
            r == Self::of_ordinal(n as int),
            r is Some <==> 0 <= n <= 17,
            r matches Some(level) ==> level.ordinal() == n,
    {
        match n {
            0 => Some(CompatibilityLevel::DoomV12),
            1 => Some(CompatibilityLevel::DoomV1666),
            2 => Some(CompatibilityLevel::Doom2V19),
            3 => Some(CompatibilityLevel::UltimateDoom),
            4 => Some(CompatibilityLevel::FinalDoom),
            5 => Some(CompatibilityLevel::DosDoom),
            6 => Some(CompatibilityLevel::TasDoom),
            7 => Some(CompatibilityLevel::Boom),
            8 => Some(CompatibilityLevel::BoomV201),
            9 => Some(CompatibilityLevel::BoomV202),
            10 => Some(CompatibilityLevel::LxDoomV1),
            11 => Some(CompatibilityLevel::Mbf),
            12 => Some(CompatibilityLevel::PrBoomV203Beta),
            13 => Some(CompatibilityLevel::PrBoomV210211),
            14 => Some(CompatibilityLevel::PrBoomV22x),
            15 => Some(CompatibilityLevel::PrBoomV23x),
            16 => Some(CompatibilityLevel::PrBoomV240),
            17 => Some(CompatibilityLevel::PrBoomLatest),
            _ => None,
        }
    }

    /// Whether `self` is an earlier tier than `other`.
    pub fn is_before(self, other: CompatibilityLevel) -> (r: bool)
        ensures
            r == self.precedes(other),
    {
        self.to_primitive() < other.to_primitive()
    }

    /// The name of the level.
    pub fn as_str(self) -> (s: &'static str)
        ensures
            s@ == self.name(),
    {
        match self {
            CompatibilityLevel::DoomV12 => "DoomV12",
            CompatibilityLevel::DoomV1666 => "DoomV1666",
            CompatibilityLevel::Doom2V19 => "Doom2V19",
            CompatibilityLevel::UltimateDoom => "UltimateDoom",
            CompatibilityLevel::FinalDoom => "FinalDoom",
            CompatibilityLevel::DosDoom => "DosDoom",
            CompatibilityLevel::TasDoom => "TasDoom",
            CompatibilityLevel::Boom => "Boom",
            CompatibilityLevel::BoomV201 => "BoomV201",
            CompatibilityLevel::BoomV202 => "BoomV202",
            CompatibilityLevel::LxDoomV1 => "LxDoomV1",
            CompatibilityLevel::Mbf => "Mbf",
            CompatibilityLevel::PrBoomV203Beta => "PrBoomV203Beta",
            CompatibilityLevel::PrBoomV210211 => "PrBoomV210211",
            CompatibilityLevel::PrBoomV22x => "PrBoomV22x",
            CompatibilityLevel::PrBoomV23x => "PrBoomV23x",
            CompatibilityLevel::PrBoomV240 => "PrBoomV240",
            CompatibilityLevel::PrBoomLatest => "PrBoomLatest",
        }
    }

    /// The level whose name is exactly `s`.
    pub fn from_name(s: &str) -> (r: Option<CompatibilityLevel>)
        ensures
            r == Self::named(s@),
    {
        if str_eq(s, "DoomV12") {
            Some(CompatibilityLevel::DoomV12)
        } else if str_eq(s, "DoomV1666") {
            Some(CompatibilityLevel::DoomV1666)
        } else if str_eq(s, "Doom2V19") {
            Some(CompatibilityLevel::Doom2V19)
        } else if str_eq(s, "UltimateDoom") {
            Some(CompatibilityLevel::UltimateDoom)
        } else if str_eq(s, "FinalDoom") {
            Some(CompatibilityLevel::FinalDoom)
        } else if str_eq(s, "DosDoom") {
            Some(CompatibilityLevel::DosDoom)
        } else if str_eq(s, "TasDoom") {
            Some(CompatibilityLevel::TasDoom)
        } else if str_eq(s, "Boom") {
            Some(CompatibilityLevel::Boom)
        } else if str_eq(s, "BoomV201") {
            Some(CompatibilityLevel::BoomV201)
        } else if str_eq(s, "BoomV202") {
            Some(CompatibilityLevel::BoomV202)
        } else if str_eq(s, "LxDoomV1") {
            Some(CompatibilityLevel::LxDoomV1)
        } else if str_eq(s, "Mbf") {
            Some(CompatibilityLevel::Mbf)
        } else if str_eq(s, "PrBoomV203Beta") {
            Some(CompatibilityLevel::PrBoomV203Beta)
        } else if str_eq(s, "PrBoomV210211") {
            Some(CompatibilityLevel::PrBoomV210211)
        } else if str_eq(s, "PrBoomV22x") {
            Some(CompatibilityLevel::PrBoomV22x)
        } else if str_eq(s, "PrBoomV23x") {
            Some(CompatibilityLevel::PrBoomV23x)
        } else if str_eq(s, "PrBoomV240") {
            Some(CompatibilityLevel::PrBoomV240)
        } else if str_eq(s, "PrBoomLatest") {
            Some(CompatibilityLevel::PrBoomLatest)
        } else {
            None
        }
    }
}

impl PartialOrd for CompatibilityLevel {
    fn partial_cmp(&self, other: &CompatibilityLevel) -> (r: Option<Ordering>) {
        let a: i32 = self.to_primitive();
        let b: i32 = other.to_primitive();
        if a < b {
            Some(Ordering::Less)
        } else if a == b {
            Some(Ordering::Equal)
        } else {
            Some(Ordering::Greater)
        }
    }
}

impl PartialOrdSpecImpl for CompatibilityLevel {
    open spec fn obeys_partial_cmp_spec() -> bool {
        true
    }

    open spec fn partial_cmp_spec(&self, other: &CompatibilityLevel) -> Option<Ordering> {
        if self.ordinal() < other.ordinal() {
            Some(Ordering::Less)
        } else if self.ordinal() == other.ordinal() {
            Some(Ordering::Equal)
        } else {
            Some(Ordering::Greater)
        }
    }
}

impl Default for CompatibilityLevel {
    /// The newest tier.
    fn default() -> (r: CompatibilityLevel)
        ensures
            r == CompatibilityLevel::PrBoomLatest,
    {
        CompatibilityLevel::PrBoomLatest
    }
}

/// A level is found again both by its position and by its name, and the
/// two ways agree: no two levels share a position or a name.
pub proof fn lemma_level_ordinal_and_name_agree(level: CompatibilityLevel)
    ensures
        CompatibilityLevel::of_ordinal(level.ordinal()) == Some(level),
        CompatibilityLevel::named(level.name()) == Some(level),
        CompatibilityLevel::named(level.name()) == CompatibilityLevel::of_ordinal(level.ordinal()),
{
    reveal_strlit("DoomV12");
    reveal_strlit("DoomV1666");
    reveal_strlit("Doom2V19");
    reveal_strlit("UltimateDoom");
    reveal_strlit("FinalDoom");
    reveal_strlit("DosDoom");
    reveal_strlit("TasDoom");
    reveal_strlit("Boom");
    reveal_strlit("BoomV201");
    reveal_strlit("BoomV202");
    reveal_strlit("LxDoomV1");
    reveal_strlit("Mbf");
    reveal_strlit("PrBoomV203Beta");
    reveal_strlit("PrBoomV210211");
    reveal_strlit("PrBoomV22x");
    reveal_strlit("PrBoomV23x");
    reveal_strlit("PrBoomV240");
    reveal_strlit("PrBoomLatest");
    // Names of one length differ in one of these characters.
    assert("DoomV12"@.len() == 7 && "DoomV12"@[0] == 'D' && "DoomV12"@[2] == 'o');
    assert("DoomV1666"@.len() == 9 && "DoomV1666"@[0] == 'D' && "DoomV1666"@[2] == 'o'
        && "DoomV1666"@[7] == '6' && "DoomV1666"@[8] == '6');
    assert("Doom2V19"@.len() == 8 && "Doom2V19"@[0] == 'D' && "Doom2V19"@[2] == 'o'
        && "Doom2V19"@[7] == '9');
    assert("UltimateDoom"@.len() == 12 && "UltimateDoom"@[0] == 'U' && "UltimateDoom"@[2] == 't'
        && "UltimateDoom"@[7] == 'e' && "UltimateDoom"@[8] == 'D');
    assert("FinalDoom"@.len() == 9 && "FinalDoom"@[0] == 'F' && "FinalDoom"@[2] == 'n'
        && "FinalDoom"@[7] == 'o' && "FinalDoom"@[8] == 'm');
    assert("DosDoom"@.len() == 7 && "DosDoom"@[0] == 'D' && "DosDoom"@[2] == 's');
    assert("TasDoom"@.len() == 7 && "TasDoom"@[0] == 'T' && "TasDoom"@[2] == 's');
    assert("Boom"@.len() == 4);
    assert("BoomV201"@.len() == 8 && "BoomV201"@[0] == 'B' && "BoomV201"@[2] == 'o'
        && "BoomV201"@[7] == '1');
    assert("BoomV202"@.len() == 8 && "BoomV202"@[0] == 'B' && "BoomV202"@[2] == 'o'
        && "BoomV202"@[7] == '2');
    assert("LxDoomV1"@.len() == 8 && "LxDoomV1"@[0] == 'L' && "LxDoomV1"@[2] == 'D'
        && "LxDoomV1"@[7] == '1');
    assert("Mbf"@.len() == 3);
    assert("PrBoomV203Beta"@.len() == 14);
    assert("PrBoomV210211"@.len() == 13);
    assert("PrBoomV22x"@.len() == 10 && "PrBoomV22x"@[0] == 'P' && "PrBoomV22x"@[2] == 'B'
        && "PrBoomV22x"@[7] == '2' && "PrBoomV22x"@[8] == '2');
    assert("PrBoomV23x"@.len() == 10 && "PrBoomV23x"@[0] == 'P' && "PrBoomV23x"@[2] == 'B'
        && "PrBoomV23x"@[7] == '2' && "PrBoomV23x"@[8] == '3');
    assert("PrBoomV240"@.len() == 10 && "PrBoomV240"@[0] == 'P' && "PrBoomV240"@[2] == 'B'
        && "PrBoomV240"@[7] == '2' && "PrBoomV240"@[8] == '4');
    assert("PrBoomLatest"@.len() == 12 && "PrBoomLatest"@[0] == 'P' && "PrBoomLatest"@[2] == 'B'
        && "PrBoomLatest"@[7] == 'a' && "PrBoomLatest"@[8] == 't');
}

/// The order of levels is total and strict: of two different levels
/// exactly one precedes the other.
pub proof fn lemma_levels_totally_ordered(a: CompatibilityLevel, b: CompatibilityLevel)
    ensures
        a == b <==> a.ordinal() == b.ordinal(),
        a != b ==> (a.precedes(b) <==> !b.precedes(a)),
        0 <= a.ordinal() <= 17,
{
}

} // verus!
