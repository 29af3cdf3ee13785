//! What a new game takes over from the settings, and how the compatibility
//! level shapes the behaviour of the engine.

use vstd::prelude::*;
use vstd::string::*;
use vstd::utf8::encode_utf8;

use crate::configuration::bounded::PlayerHelpers;
use crate::configuration::defaults::Defaults;
use crate::configuration::level::CompatibilityLevel;
use crate::configuration::options::{DemoInsurance, MonsterInfightingLevel, SkillLevel};
use crate::configuration::Configuration;
use crate::error::StartupError;
use crate::misc::args::{position_of, position_of_any, ArgList};
use crate::misc::numbers::{all_digits, decimal_value, is_digit, parse_i32, parse_i32_spec};

verus! {

/// The quirks of the old engines, each of them imitated or not.
#[derive(Debug, Clone, Copy, PartialEq, Eq, Structural)]
pub struct CompatibilityFlags {
    /// Dead players can still set off linedefs.
    pub comp_zombie: bool,
    /// Monsters telefrag only on the last map.
    pub comp_telefrag: bool,
    /// Things are not moved off an overhang that they rest on.
    pub comp_dropoff: bool,
    /// Archviles can raise ghosts.
    pub comp_vile: bool,
    /// Pain elementals stop spawning lost souls at a limit.
    pub comp_pain: bool,
    /// Lost souls can be spat through walls.
    pub comp_skull: bool,
    /// Blazing doors make their sound twice.
    pub comp_blazing: bool,
    /// The light of a door changes at once.
    pub comp_doorlight: bool,
    /// The old model of the game physics.
    pub comp_model: bool,
    /// God mode is not absolute.
    pub comp_god: bool,
    /// Things stay put where they hang over a ledge.
    pub comp_falloff: bool,
    /// The bugs of moving floors.
    pub comp_floors: bool,
    /// Sky is unaffected by invulnerability.
    pub comp_skymap: bool,
    /// Monsters do not give up a pursuit.
    pub comp_pursuit: bool,
    /// Monsters get stuck on door tracks.
    pub comp_doorstuck: bool,
    /// Monsters walk off lifts at random.
    pub comp_staylift: bool,
    /// The old way of building stairs.
    pub comp_stairs: bool,
    /// Powerup cheats do not last for ever.
    pub comp_infcheat: bool,
    /// Linedefs with tag zero have no effect.
    pub comp_zerotags: bool,
    /// Keys can be grabbed through walls, and fireballs pass them.
    pub comp_moveblock: bool,
    /// Things that were not on the map at its start respawn at the origin.
    pub comp_respawn: bool,
    /// The quirks of the old sound code.
    pub comp_sound: bool,
    /// The death of a boss is handled as before the Ultimate edition.
    pub comp_666: bool,
    /// Lost souls bounce on floors.
    pub comp_soul: bool,
    /// Middle textures on two-sided lines do not animate.
    pub comp_maskedanim: bool,
    /// The buggy "ouch" face.
    pub comp_ouchface: bool,
    /// The greatest health of a patch file holds for potions only.
    pub comp_maxhealth: bool,
    /// No thing is translucent by itself.
    pub comp_translucency: bool,
}

/// What the engines before MBF force: nineteen quirks, each imitated
/// throughout or only below the tier that mended it.
pub open spec fn old_engine_flags(
    level: CompatibilityLevel,
    flags: CompatibilityFlags,
) -> CompatibilityFlags {
    let before_boom = level.precedes(CompatibilityLevel::Boom);
    let before_boom_201 = level.precedes(CompatibilityLevel::BoomV201);
    let before_boom_202 = level.precedes(CompatibilityLevel::BoomV202);
    CompatibilityFlags {
        comp_telefrag: true,
        comp_dropoff: true,
        comp_vile: before_boom_201,
        comp_pain: before_boom_201,
        comp_skull: before_boom_201,
        comp_blazing: before_boom_201,
        comp_doorlight: before_boom_201,
        comp_model: before_boom_201,
        comp_god: before_boom_201,
        comp_falloff: true,
        comp_floors: before_boom,
        comp_skymap: true,
        comp_pursuit: true,
        comp_doorstuck: before_boom_202,
        comp_staylift: true,
        comp_zombie: level.precedes(CompatibilityLevel::LxDoomV1),
        comp_stairs: before_boom_202,
        comp_infcheat: true,
        comp_zerotags: before_boom_201,
        ..flags
    }
}

/// Forces the quirks of the engines before MBF upon `flags`.
fn force_old_engine_flags(level: CompatibilityLevel, flags: CompatibilityFlags) -> (r:
    CompatibilityFlags)
    ensures
        r == old_engine_flags(level, flags),
{
    let before_boom = level < CompatibilityLevel::Boom;
    let before_boom_201 = level < CompatibilityLevel::BoomV201;
    let before_boom_202 = level < CompatibilityLevel::BoomV202;
    CompatibilityFlags {
        comp_telefrag: true,
        comp_dropoff: true,
        comp_vile: before_boom_201,
        comp_pain: before_boom_201,
        comp_skull: before_boom_201,
        comp_blazing: before_boom_201,
        comp_doorlight: before_boom_201,
        comp_model: before_boom_201,
        comp_god: before_boom_201,
        comp_falloff: true,
        comp_floors: before_boom,
        comp_skymap: true,
        comp_pursuit: true,
        comp_doorstuck: before_boom_202,
        comp_staylift: true,
        comp_zombie: level < CompatibilityLevel::LxDoomV1,
        comp_stairs: before_boom_202,
        comp_infcheat: true,
        comp_zerotags: before_boom_201,
        ..flags
    }
}

/// What the second rule overrides: two quirks that PrBoom 2.1.0 mended.
pub open spec fn flags_before_210(
    level: CompatibilityLevel,
    flags: CompatibilityFlags,
) -> CompatibilityFlags {
    CompatibilityFlags {
        comp_moveblock: level.precedes(CompatibilityLevel::LxDoomV1),
        comp_respawn: true,
        ..flags
    }
}

/// What the third rule overrides: the sound quirks, which PrBoom 2.2
/// made a choice.
pub open spec fn flags_before_22x(
    level: CompatibilityLevel,
    flags: CompatibilityFlags,
) -> CompatibilityFlags {
    CompatibilityFlags { comp_sound: level.precedes(CompatibilityLevel::Boom), ..flags }
}

/// What the fourth rule overrides: three quirks that PrBoom 2.3 made a
/// choice.
pub open spec fn flags_before_23x(
    level: CompatibilityLevel,
    flags: CompatibilityFlags,
) -> CompatibilityFlags {
    CompatibilityFlags {
        comp_666: level.precedes(CompatibilityLevel::UltimateDoom),
        comp_soul: true,
        comp_maskedanim: level.precedes(CompatibilityLevel::DoomV1666),
        ..flags
    }
}

/// What the fifth rule overrides: three quirks that only the latest tier
/// leaves to the player.
pub open spec fn flags_before_latest(
    level: CompatibilityLevel,
    flags: CompatibilityFlags,
) -> CompatibilityFlags {
    CompatibilityFlags {
        comp_ouchface: level.precedes(CompatibilityLevel::PrBoomV203Beta),
        comp_maxhealth: level.precedes(CompatibilityLevel::Boom),
        comp_translucency: level.precedes(CompatibilityLevel::Boom),
        ..flags
    }
}

/// The flags that follow from a compatibility level and from the flags
/// `configured` by the player.
///
/// Five rules are applied in this order, each where the level lies below
/// the tier of the rule, and each overrides what it speaks of. A flag
/// that no rule overrides stays as it is configured.
pub open spec fn derived_flags(
    level: CompatibilityLevel,
    configured: CompatibilityFlags,
) -> CompatibilityFlags {
    let first = if level.precedes(CompatibilityLevel::Mbf) {
        old_engine_flags(level, configured)
    } else {
        configured
    };
    let second = if level.precedes(CompatibilityLevel::PrBoomV210211) {
        flags_before_210(level, first)
    } else {
        first
    };
    let third = if level.precedes(CompatibilityLevel::PrBoomV22x) {
        flags_before_22x(level, second)
    } else {
        second
    };
    let fourth = if level.precedes(CompatibilityLevel::PrBoomV23x) {
        flags_before_23x(level, third)
    } else {
        third
    };
    if level.precedes(CompatibilityLevel::PrBoomLatest) {
        flags_before_latest(level, fourth)
    } else {
        fourth
    }
}

/// Applies the second rule.
fn override_before_210(level: CompatibilityLevel, flags: CompatibilityFlags) -> (r:
    CompatibilityFlags)
    ensures
        r == flags_before_210(level, flags),
{
    CompatibilityFlags {
        comp_moveblock: level < CompatibilityLevel::LxDoomV1,
        comp_respawn: true,
        ..flags
    }
}

/// Applies the third rule.
fn override_before_22x(level: CompatibilityLevel, flags: CompatibilityFlags) -> (r:
    CompatibilityFlags)
    ensures
        r == flags_before_22x(level, flags),
{
    CompatibilityFlags { comp_sound: level < CompatibilityLevel::Boom, ..flags }
}

/// Applies the fourth rule.
fn override_before_23x(level: CompatibilityLevel, flags: CompatibilityFlags) -> (r:
    CompatibilityFlags)
    ensures
        r == flags_before_23x(level, flags),
{
    CompatibilityFlags {
        comp_666: level < CompatibilityLevel::UltimateDoom,
        comp_soul: true,
        comp_maskedanim: level < CompatibilityLevel::DoomV1666,
        ..flags
    }
}

/// Applies the fifth rule.
fn override_before_latest(level: CompatibilityLevel, flags: CompatibilityFlags) -> (r:
    CompatibilityFlags)
    ensures
        r == flags_before_latest(level, flags),
{
    CompatibilityFlags {
        comp_ouchface: level < CompatibilityLevel::PrBoomV203Beta,
        comp_maxhealth: level < CompatibilityLevel::Boom,
        comp_translucency: level < CompatibilityLevel::Boom,
        ..flags
    }
}

/// Derives the flags of a compatibility level from the flags that the
/// player configured. The five rules are applied one after another, each
/// overriding what it speaks of where its tier lies above the level.
pub fn derive_legacy_flags(level: CompatibilityLevel, configured: CompatibilityFlags) -> (r:
    CompatibilityFlags)
    ensures
        r == derived_flags(level, configured),
{
    let mut flags = configured;
    if level < CompatibilityLevel::Mbf {
        flags = force_old_engine_flags(level, flags);
    }
    if level < CompatibilityLevel::PrBoomV210211 {
        flags = override_before_210(level, flags);
    }
    if level < CompatibilityLevel::PrBoomV22x {
        flags = override_before_22x(level, flags);
    }
    if level < CompatibilityLevel::PrBoomV23x {
        flags = override_before_23x(level, flags);
    }
    if level < CompatibilityLevel::PrBoomLatest {
        flags = override_before_latest(level, flags);
    }
    flags
}

/// The newest tier forces nothing: every flag stays as the player
/// configured it.
pub proof fn lemma_latest_level_keeps_configured_flags(configured: CompatibilityFlags)
    ensures
        derived_flags(CompatibilityLevel::PrBoomLatest, configured) == configured,
{
}

/// Below MBF the level alone decides every flag: what the player
/// configured has no say.
pub proof fn lemma_old_engine_flags_ignore_configuration(
    level: CompatibilityLevel,
    a: CompatibilityFlags,
    b: CompatibilityFlags,
)
    requires
        level.precedes(CompatibilityLevel::Mbf),
    ensures
        derived_flags(level, a) == derived_flags(level, b),
{
}

/// A flag whose rule does not reach the level stays as configured, and
/// one whose rule reaches it follows from the level: the derivation
/// given flag by flag.
#[verifier::spinoff_prover]
pub proof fn lemma_derived_flags_by_flag(level: CompatibilityLevel, configured: CompatibilityFlags)
    ensures
        ({
            let r = derived_flags(level, configured);
            let old_engine = level.precedes(CompatibilityLevel::Mbf);
            let before_210 = level.precedes(CompatibilityLevel::PrBoomV210211);
            let before_22x = level.precedes(CompatibilityLevel::PrBoomV22x);
            let before_23x = level.precedes(CompatibilityLevel::PrBoomV23x);
            let before_latest = level.precedes(CompatibilityLevel::PrBoomLatest);
            let before_boom = level.precedes(CompatibilityLevel::Boom);
            let before_boom_201 = level.precedes(CompatibilityLevel::BoomV201);
            let before_boom_202 = level.precedes(CompatibilityLevel::BoomV202);
            let before_lxdoom = level.precedes(CompatibilityLevel::LxDoomV1);
            &&& r.comp_telefrag == (if old_engine { true } else { configured.comp_telefrag })
            &&& r.comp_dropoff == (if old_engine { true } else { configured.comp_dropoff })
            &&& r.comp_vile == (if old_engine { before_boom_201 } else { configured.comp_vile })
            &&& r.comp_pain == (if old_engine { before_boom_201 } else { configured.comp_pain })
            &&& r.comp_skull == (if old_engine { before_boom_201 } else { configured.comp_skull })
            &&& r.comp_blazing == (if old_engine {
                before_boom_201
            } else {
                configured.comp_blazing
            })
            &&& r.comp_doorlight == (if old_engine {
                before_boom_201
            } else {
                configured.comp_doorlight
            })
            &&& r.comp_model == (if old_engine { before_boom_201 } else { configured.comp_model })
            &&& r.comp_god == (if old_engine { before_boom_201 } else { configured.comp_god })
            &&& r.comp_falloff == (if old_engine { true } else { configured.comp_falloff })
            &&& r.comp_floors == (if old_engine { before_boom } else { configured.comp_floors })
            &&& r.comp_skymap == (if old_engine { true } else { configured.comp_skymap })
            &&& r.comp_pursuit == (if old_engine { true } else { configured.comp_pursuit })
            &&& r.comp_doorstuck == (if old_engine {
                before_boom_202
            } else {
                configured.comp_doorstuck
            })
            &&& r.comp_staylift == (if old_engine { true } else { configured.comp_staylift })
            &&& r.comp_zombie == (if old_engine { before_lxdoom } else { configured.comp_zombie })
            &&& r.comp_stairs == (if old_engine { before_boom_202 } else { configured.comp_stairs })
            &&& r.comp_infcheat == (if old_engine { true } else { configured.comp_infcheat })
            &&& r.comp_zerotags == (if old_engine {
                before_boom_201
            } else {
                configured.comp_zerotags
            })
            &&& r.comp_moveblock == (if before_210 {
                before_lxdoom
            } else {
                configured.comp_moveblock
            })
            &&& r.comp_respawn == (if before_210 { true } else { configured.comp_respawn })
            &&& r.comp_sound == (if before_22x { before_boom } else { configured.comp_sound })
            &&& r.comp_666 == (if before_23x {
                level.precedes(CompatibilityLevel::UltimateDoom)
            } else {
                configured.comp_666
            })
            &&& r.comp_soul == (if before_23x { true } else { configured.comp_soul })
            &&& r.comp_maskedanim == (if before_23x {
                level.precedes(CompatibilityLevel::DoomV1666)
            } else {
                configured.comp_maskedanim
            })
            &&& r.comp_ouchface == (if before_latest {
                level.precedes(CompatibilityLevel::PrBoomV203Beta)
            } else {
                configured.comp_ouchface
            })
            &&& r.comp_maxhealth == (if before_latest {
                before_boom
            } else {
                configured.comp_maxhealth
            })
            &&& r.comp_translucency == (if before_latest {
                before_boom
            } else {
                configured.comp_translucency
            })
        }),
{
}

/// The flags that the player configured, as a new game takes them over.
pub fn apply_configured_flags(defaults: &Defaults) -> (r: CompatibilityFlags)
    ensures
        r == defaults.configured_flags(),
{
    defaults.comp_flags()
}

/// The flags of a game at the given compatibility level: below MBF what
/// the old engines force, from MBF on what the player configured, as far
/// as the later rules leave it.
pub fn derive_flags(level: CompatibilityLevel, defaults: &Defaults) -> (r: CompatibilityFlags)
    ensures
        r == derived_flags(level, defaults.configured_flags()),
{
    derive_legacy_flags(level, apply_configured_flags(defaults))
}

/// The level that the value of `-complevel` stands for. A number is the
/// position of a level, and -1 stands for the newest level. A text that
/// is no number is the name of a level.
pub open spec fn level_of_argument(value: Seq<char>) -> Option<CompatibilityLevel> {
    match parse_i32_spec(encode_utf8(value)) {
        Some(n) => if n == -1 {
            Some(CompatibilityLevel::PrBoomLatest)
        } else {
            CompatibilityLevel::of_ordinal(n as int)
        },
        None => CompatibilityLevel::named(value),
    }
}

/// Reads the value of `-complevel`: the number or the name of a level.
/// A number that is no position of a level is refused, but for -1, which
/// stands for the newest level; so is a name that no level has.
pub fn parse_compatibility_level(value: &str) -> (r: Result<CompatibilityLevel, StartupError>)
    ensures
        r == match level_of_argument(value@) {
            Some(level) => Ok::<CompatibilityLevel, StartupError>(level),
            None => Err(StartupError::UnknownCompatibilityLevel),
        },
{
    match parse_i32(value) {
        Some(n) => match CompatibilityLevel::try_from_primitive(n) {
            Some(level) => Ok(level),
            None => {
                if n == -1 {
                    Ok(CompatibilityLevel::PrBoomLatest)
                } else {
                    Err(StartupError::UnknownCompatibilityLevel)
                }
            },
        },
        None => match CompatibilityLevel::from_name(value) {
            Some(level) => Ok(level),
            None => Err(StartupError::UnknownCompatibilityLevel),
        },
    }
}

/// The compatibility level that the command line and the settings ask
/// for: the value behind `-complevel`, where the parameter has one, and
/// else the level of the settings.
pub open spec fn asked_level(configuration: &Configuration) -> Result<
    CompatibilityLevel,
    StartupError,
> {
    let args = configuration.args@;
    match position_of(args, "-complevel"@) {
        Some(i) => if i + 1 < args.len() {
            match level_of_argument(args[i + 1]@) {
                Some(level) => Ok(level),
                None => Err(StartupError::UnknownCompatibilityLevel),
            }
        } else {
            Ok(configuration.defaults.default_compatibility_level)
        },
        None => Ok(configuration.defaults.default_compatibility_level),
    }
}

/// The compatibility level that the command line and the settings ask
/// for.
pub fn get_compatibility_level(configuration: &Configuration) -> (r: Result<
    CompatibilityLevel,
    StartupError,
>)
    ensures
        r == asked_level(configuration),
{
    match configuration.args.check_parm("-complevel") {
        Some(i) => {
            if i < configuration.args.len() - 1 {
                parse_compatibility_level(configuration.args[i + 1].as_str())
            } else {
                Ok(configuration.defaults.default_compatibility_level)
            }
        },
        None => Ok(configuration.defaults.default_compatibility_level),
    }
}

/// The names of the parameter that sets the number of helper dogs.
pub open spec fn dog_parameters() -> Seq<&'static str> {
    seq!["-dog", "-dogs"]
}

/// The number of helper dogs that the command line and the settings ask
/// for: the value behind `-dog` or `-dogs`, one dog where the parameter
/// stands last and has no value, and else the number of the settings.
pub open spec fn asked_helpers(configuration: &Configuration) -> Result<int, StartupError> {
    let args = configuration.args@;
    match position_of_any(args, dog_parameters()) {
        Some(j) => if j + 1 < args.len() {
            match parse_i32_spec(encode_utf8(args[j + 1]@)) {
                Some(n) => if 0 <= n <= 3 {
                    Ok(n as int)
                } else {
                    Err(StartupError::InvalidDogCount)
                },
                None => Err(StartupError::InvalidDogCount),
            }
        } else {
            Ok(1)
        },
        None => Ok(configuration.defaults.player_helpers@),
    }
}

/// The number of helper dogs that the command line and the settings ask
/// for. A value that is no number from 0 to 3 is refused.
pub fn get_helpers(configuration: &Configuration) -> (r: Result<PlayerHelpers, StartupError>)
    ensures
        match asked_helpers(configuration) {
            Ok(n) => r matches Ok(dogs) && dogs@ == n,
            Err(e) => r == Err::<PlayerHelpers, StartupError>(e),
        },
{
    let names: [&str; 2] = ["-dog", "-dogs"];
    assert(names@ =~= dog_parameters());
    match configuration.args.check_parms(names.as_slice()) {
        Some(j) => {
            if j < configuration.args.len() - 1 {
                match parse_i32(configuration.args[j + 1].as_str()) {
                    Some(n) => match PlayerHelpers::new(n) {
                        Some(dogs) => Ok(dogs),
                        None => Err(StartupError::InvalidDogCount),
                    },
                    None => Err(StartupError::InvalidDogCount),
                }
            } else {
                Ok(PlayerHelpers::new(1).unwrap())
            }
        },
        None => Ok(configuration.defaults.player_helpers),
    }
}

/// The configuration shaped after its compatibility level. The flags
/// are derived from the level and from the flags that were there. Below
/// MBF monsters and helpers behave as in the old engines: monsters fight
/// other species only, nobody backs off, avoids hazards, feels friction
/// or helps friends, and there are no dogs and no monkeys.
pub open spec fn shaped_by_level(c: Configuration) -> Configuration {
    if c.compatibility_level.precedes(CompatibilityLevel::Mbf) {
        Configuration {
            comp: derived_flags(c.compatibility_level, c.comp),
            monster_infighting: MonsterInfightingLevel::OtherSpecies,
            monster_backing: false,
            monster_avoid_hazards: false,
            monster_friction: false,
            help_friends: false,
            dogs: PlayerHelpers::holding(0),
            dog_jumping: false,
            monkeys: false,
            ..c
        }
    } else {
        Configuration { comp: derived_flags(c.compatibility_level, c.comp), ..c }
    }
}

/// Shapes the running game after its compatibility level.
pub fn compatibility(configuration: Configuration) -> (r: Configuration)
    ensures
        r == shaped_by_level(configuration),
{
    let cl = configuration.compatibility_level;
    let comp = derive_legacy_flags(cl, configuration.comp);
    if cl < CompatibilityLevel::Mbf {
        Configuration {
            comp,
            monster_infighting: MonsterInfightingLevel::OtherSpecies,
            monster_backing: false,
            monster_avoid_hazards: false,
            monster_friction: false,
            help_friends: false,
            dogs: PlayerHelpers::new(0).unwrap(),
            dog_jumping: false,
            monkeys: false,
            ..configuration
        }
    } else {
        Configuration { comp, ..configuration }
    }
}

/// The seed of the random numbers of a new game: the old seed, the time
/// and the tic of the game added up, wrapping round at 32 bits.
pub open spec fn reseeded(seed: u32, time: u64, gametic: i32) -> u32 {
    ((seed + time % 0x1_0000_0000 + gametic) % 0x1_0000_0000) as u32
}

/// Computes the seed of the random numbers of a new game.
pub fn reseed(seed: u32, time: u64, gametic: i32) -> (r: u32)
    ensures
        r == reseeded(seed, time, gametic),
{
    let low: u32 = (time % 0x1_0000_0000) as u32;
    seed.wrapping_add(low.wrapping_add_signed(gametic))
}

/// The players of a new game: the first player stays as he is, and no
/// other player is in the game.
pub open spec fn only_first_player(players: Seq<bool>) -> Seq<bool> {
    Seq::new(players.len(), |i: int| i == 0 && players[i])
}

/// Takes all players but the first out of the game.
fn keep_first_player(players: &Vec<bool>) -> (r: Vec<bool>)
    ensures
        r@ == only_first_player(players@),
{
    let mut kept: Vec<bool> = Vec::new();
    let mut i: usize = 0;
    while i < players.len()
        invariant
            i <= players@.len(),
            kept@.len() == i,
            forall|k: int| 0 <= k < i ==> kept@[k] == (k == 0 && players@[k]),
        decreases players@.len() - i,
    {
        kept.push(i == 0 && players[i]);
        i = i + 1;
    }
    assert(kept@ =~= only_first_player(players@));
    kept
}

/// The number of helper dogs that a new game asks for: none in a net
/// game, and else what the command line and the settings say.
pub open spec fn helpers_of_new_game(c: &Configuration) -> Result<int, StartupError> {
    if c.netgame {
        Ok(0)
    } else {
        asked_helpers(c)
    }
}

/// The skill of a new game: the skill that was chosen, and the skill of
/// the settings where none was.
pub open spec fn skill_of_new_game(c: Configuration) -> SkillLevel {
    if c.start_skill == SkillLevel::Unset {
        c.defaults.default_skill
    } else {
        c.start_skill
    }
}

/// The demo insurance of a new game: on only where the settings say
/// "always".
pub open spec fn insurance_of_new_game(c: Configuration) -> DemoInsurance {
    if c.defaults.demo_insurance == DemoInsurance::Always {
        DemoInsurance::Always
    } else {
        DemoInsurance::Never
    }
}

/// The flags that a new game starts from, before its level shapes them:
/// from MBF on the flags of the settings, below MBF the flags that were
/// there.
pub open spec fn flags_taken_over(
    c: Configuration,
    level: CompatibilityLevel,
) -> CompatibilityFlags {
    if level.precedes(CompatibilityLevel::Mbf) {
        c.comp
    } else {
        c.defaults.configured_flags()
    }
}

/// The configuration `c` with what every new game takes over: the game
/// play from the settings and the switches from the command line; no
/// demo plays; the seed of the random numbers moves on with the time.
/// `dogs` and `players` are the helper dogs and the players of the game.
pub open spec fn taken_over(
    c: Configuration,
    level: CompatibilityLevel,
    dogs: PlayerHelpers,
    players: Vec<bool>,
    time: u64,
) -> Configuration {
    Configuration {
        weapon_recoil: c.defaults.weapon_recoil,
        player_bobbing: c.defaults.player_bobbing,
        variable_friction: c.defaults.variable_friction,
        allow_pushers: c.defaults.allow_pushers,
        monster_infighting: c.defaults.monster_infighting,
        dogs,
        friend_distance: c.defaults.friend_distance,
        monster_backing: c.defaults.monster_backing,
        monster_avoid_hazards: c.defaults.monster_avoid_hazards,
        monster_friction: c.defaults.monster_friction,
        help_friends: c.defaults.help_friends,
        monkeys: c.defaults.monkeys,
        respawnparm: c.arg_meta.respawnparm,
        fastparm: c.arg_meta.fastparm,
        nomonsters: c.arg_meta.nomonsters,
        start_skill: skill_of_new_game(c),
        demo_playback: false,
        single_demo: false,
        net_demo: false,
        player_in_game: players,
        console_player: 0,
        compatibility_level: level,
        comp: flags_taken_over(c, level),
        demo_insurance: insurance_of_new_game(c),
        rngseed: reseeded(c.rngseed, time, c.gametic),
        ..c
    }
}

/// The configuration `c` at the beginning of a new game at compatibility
/// level `level`, with `dogs` helper dogs asked for, with the players
/// `players` and at the time `time`: what every new game takes over,
/// shaped after the level.
pub open spec fn new_game(
    c: Configuration,
    level: CompatibilityLevel,
    dogs: int,
    players: Vec<bool>,
    time: u64,
) -> Configuration {
    shaped_by_level(taken_over(c, level, PlayerHelpers::holding(dogs), players, time))
}

/// Takes over what every new game takes over.
fn take_over(
    configuration: Configuration,
    level: CompatibilityLevel,
    dogs: PlayerHelpers,
    time_seed: u64,
) -> (r: Configuration)
    ensures
        r == taken_over(configuration, level, dogs, r.player_in_game, time_seed),
        r.player_in_game@ == only_first_player(configuration.player_in_game@),
{
    let comp = if level >= CompatibilityLevel::Mbf {
        apply_configured_flags(&configuration.defaults)
    } else {
        configuration.comp
    };
    let start_skill = match configuration.start_skill {
        SkillLevel::Unset => configuration.defaults.default_skill,
        _ => configuration.start_skill,
    };
    let demo_insurance = match configuration.defaults.demo_insurance {
        DemoInsurance::Always => DemoInsurance::Always,
        _ => DemoInsurance::Never,
    };
    let player_in_game = keep_first_player(&configuration.player_in_game);
    let rngseed = reseed(configuration.rngseed, time_seed, configuration.gametic);
    Configuration {
        weapon_recoil: configuration.defaults.weapon_recoil,
        player_bobbing: configuration.defaults.player_bobbing,
        variable_friction: configuration.defaults.variable_friction,
        allow_pushers: configuration.defaults.allow_pushers,
        monster_infighting: configuration.defaults.monster_infighting,
        dogs,
        friend_distance: configuration.defaults.friend_distance,
        monster_backing: configuration.defaults.monster_backing,
        monster_avoid_hazards: configuration.defaults.monster_avoid_hazards,
        monster_friction: configuration.defaults.monster_friction,
        help_friends: configuration.defaults.help_friends,
        monkeys: configuration.defaults.monkeys,
        respawnparm: configuration.arg_meta.respawnparm,
        fastparm: configuration.arg_meta.fastparm,
        nomonsters: configuration.arg_meta.nomonsters,
        start_skill,
        demo_playback: false,
        single_demo: false,
        net_demo: false,
        player_in_game,
        console_player: 0,
        compatibility_level: level,
        comp,
        demo_insurance,
        rngseed,
        ..configuration
    }
}

/// Begins a new game at the given level: takes over what every new game
/// takes over, and shapes the game after the level.
pub fn begin_new_game(
    configuration: Configuration,
    level: CompatibilityLevel,
    dogs: PlayerHelpers,
    time_seed: u64,
) -> (r: Configuration)
    ensures
        r == new_game(configuration, level, dogs@, r.player_in_game, time_seed),
        r.player_in_game@ == only_first_player(configuration.player_in_game@),
{
    proof {
        dogs.lemma_holding();
    }
    compatibility(take_over(configuration, level, dogs, time_seed))
}

/// Begins a new game: takes the game play over from the settings, reads
/// the compatibility level and the number of helper dogs from the command
/// line, and shapes the game after the level. `time_seed` is the time in
/// seconds, which goes into the seed of the random numbers.
///
/// A number of dogs that is none is refused, and so is a compatibility
/// level that is none; of both failures the first is reported.
pub fn reload_defaults(configuration: Configuration, time_seed: u64) -> (r: Result<
    Configuration,
    StartupError,
>)
    ensures
        match (helpers_of_new_game(&configuration), asked_level(&configuration)) {
            (Ok(dogs), Ok(level)) => {
                &&& r matches Ok(new)
                &&& new == new_game(configuration, level, dogs, new.player_in_game, time_seed)
                &&& new.player_in_game@ == only_first_player(configuration.player_in_game@)
            },
            (Ok(_), Err(e)) => r matches Err(f) && f == e,
            (Err(e), _) => r matches Err(f) && f == e,
        },
{
    let dogs = if configuration.netgame {
        PlayerHelpers::new(0).unwrap()
    } else {
        match get_helpers(&configuration) {
            Ok(dogs) => dogs,
            Err(e) => {
                return Err(e);
            },
        }
    };
    let level = match get_compatibility_level(&configuration) {
        Ok(level) => level,
        Err(e) => {
            return Err(e);
        },
    };
    Ok(begin_new_game(configuration, level, dogs, time_seed))
}

/// Whatever was there before, the flags of a new game follow from its
/// level and from the flags of the settings alone.
pub proof fn lemma_new_game_flags(
    c: Configuration,
    level: CompatibilityLevel,
    dogs: int,
    players: Vec<bool>,
    time: u64,
)
    ensures
        new_game(c, level, dogs, players, time).comp == derived_flags(
            level,
            c.defaults.configured_flags(),
        ),
        new_game(c, level, dogs, players, time).compatibility_level == level,
{
    if level.precedes(CompatibilityLevel::Mbf) {
        lemma_old_engine_flags_ignore_configuration(level, c.comp, c.defaults.configured_flags());
    }
}

/// The name of a level is no number, so that the value of `-complevel`
/// that is the name of a level stands for that level: the same level
/// that its position stands for.
pub proof fn lemma_level_name_is_argument(level: CompatibilityLevel)
    ensures
        parse_i32_spec(encode_utf8(level.name())) is None,
        level_of_argument(level.name()) == Some(level),
        level_of_argument(level.name()) == CompatibilityLevel::of_ordinal(level.ordinal()),
{
    crate::configuration::level::lemma_level_ordinal_and_name_agree(level);
    let name = level.name();
    let bytes = encode_utf8(name);
    // Each name begins with a letter.
    assert(name.len() > 0 && vstd::utf8::is_ascii_chars(name) && (name[0] == 'D' || name[0] == 'U'
        || name[0] == 'F' || name[0] == 'T' || name[0] == 'B' || name[0] == 'L' || name[0] == 'M'
        || name[0] == 'P')) by {
        reveal_strlit("DoomV12");
        reveal_strlit("DoomV1666");
        reveal_strlit("Doom2V19");
        reveal_strlit("UltimateDoom");
        reveal_strlit("FinalDoom");
        reveal_strlit("DosDoom");
        reveal_strlit("TasDoom");
        reveal_strlit("Boom");
        reveal_strlit("BoomV201");
        reveal_strlit("BoomV202");
        reveal_strlit("LxDoomV1");
        reveal_strlit("Mbf");
        reveal_strlit("PrBoomV203Beta");
        reveal_strlit("PrBoomV210211");
        reveal_strlit("PrBoomV22x");
        reveal_strlit("PrBoomV23x");
        reveal_strlit("PrBoomV240");
        reveal_strlit("PrBoomLatest");
    }
    vstd::utf8::is_ascii_chars_encode_utf8(name);
    assert(bytes.len() == name.len() && bytes[0] == name[0] as u8);
    assert(!is_digit(bytes[0]));
    assert(bytes[0] != 0x2b && bytes[0] != 0x2d);
    assert(!all_digits(bytes));
}

/// The value -1 of `-complevel` stands for the newest level, though it
/// is the position of none.
pub proof fn lemma_minus_one_is_latest()
    ensures
        level_of_argument("-1"@) == Some(CompatibilityLevel::PrBoomLatest),
        CompatibilityLevel::of_ordinal(-1) is None,
{
    reveal_strlit("-1");
    let text = "-1"@;
    assert(text.len() == 2 && text[0] == '-' && text[1] == '1');
    assert(vstd::utf8::is_ascii_chars(text));
    vstd::utf8::is_ascii_chars_encode_utf8(text);
    let bytes = encode_utf8(text);
    assert(bytes.len() == 2 && bytes[0] == 0x2d && bytes[1] == 0x31);
    let digits = bytes.subrange(1, 2);
    assert(digits.len() == 1 && digits[0] == 0x31);
    assert(all_digits(digits));
    assert(digits.drop_last().len() == 0);
    assert(decimal_value(digits) == 1) by {
        reveal_with_fuel(decimal_value, 2);
    }
    assert(parse_i32_spec(bytes) == Some(-1i32));
}

} // verus!
