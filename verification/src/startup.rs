//! What the command line asks of the game that is about to start, step by
//! step as the game takes it in.

use vstd::prelude::*;
use vstd::string::*;
use vstd::utf8::encode_utf8;

use crate::configuration::options::SkillLevel;
use crate::configuration::Configuration;
use crate::doom::def::{GameMission, GameMode};
use crate::error::StartupError;
use crate::game::{
    asked_level, helpers_of_new_game, new_game, only_first_player, reload_defaults,
};
use crate::misc::args::{
    position_of, position_of_any, sorted_command_line, texts, ArgList, ArgMeta,
};
use crate::misc::numbers::{parse_i32, parse_i32_spec, parse_usize, parse_usize_spec};
use crate::misc::pattern::{captures, groups_view, regex_captures};
use crate::wad::{WadFileInfo, WadSource};

verus! {

/// Whether the argument `name` is on the command line.
pub open spec fn is_given(c: Configuration, name: Seq<char>) -> bool {
    position_of(c.args@, name) is Some
}

/// The text behind the last occurrence of the parameter `name`, where
/// the parameter is given and does not stand last.
pub open spec fn value_of(c: Configuration, name: Seq<char>) -> Option<Seq<char>> {
    match position_of(c.args@, name) {
        Some(p) => if p + 1 < c.args@.len() {
            Some(c.args@[p + 1]@)
        } else {
            None
        },
        None => None,
    }
}

/// The kind of deathmatch that the command line asks for: 2 for
/// `-altdeath`, 1 for `-deathmatch`, 0 for none.
pub open spec fn deathmatch_asked(c: Configuration) -> usize {
    if is_given(c, "-altdeath"@) {
        2
    } else if is_given(c, "-deathmatch"@) {
        1
    } else {
        0
    }
}

/// The configuration with the switches of game play taken from the
/// command line.
pub open spec fn with_switches(c: Configuration) -> Configuration {
    Configuration {
        arg_meta: ArgMeta {
            nomonsters: is_given(c, "-nomonsters"@),
            respawnparm: is_given(c, "-respawn"@),
            fastparm: is_given(c, "-fast"@),
        },
        nomonsters: is_given(c, "-nomonsters"@),
        respawnparm: is_given(c, "-respawn"@),
        fastparm: is_given(c, "-fast"@),
        devparm: is_given(c, "-devparm"@),
        deathmatch: deathmatch_asked(c),
        ..c
    }
}

/// Takes the switches of game play from the command line.
pub fn read_switches(configuration: Configuration) -> (r: Configuration)
    ensures
        r == with_switches(configuration),
{
    let nomonsters = configuration.args.check_parm("-nomonsters").is_some();
    let respawnparm = configuration.args.check_parm("-respawn").is_some();
    let fastparm = configuration.args.check_parm("-fast").is_some();
    let devparm = configuration.args.check_parm("-devparm").is_some();
    let deathmatch: usize = if configuration.args.check_parm("-altdeath").is_some() {
        2
    } else if configuration.args.check_parm("-deathmatch").is_some() {
        1
    } else {
        0
    };
    Configuration {
        arg_meta: ArgMeta { nomonsters, respawnparm, fastparm },
        nomonsters,
        respawnparm,
        fastparm,
        devparm,
        deathmatch,
        ..configuration
    }
}

/// The title of the game of the given edition and mission.
pub open spec fn title_of(mode: GameMode, mission: GameMission, bfg_edition: bool) -> &'static str {
    match mode {
        GameMode::Retail => match mission {
            GameMission::Chex => if bfg_edition {
                "Chex(R) Quest (BFG Edition)"
            } else {
                "Chex(R) Quest"
            },
            _ => if bfg_edition {
                "The Ultimate DOOM (BFG Edition)"
            } else {
                "The Ultimate DOOM"
            },
        },
        GameMode::Shareware => if bfg_edition {
            "DOOM Shareware (BFG Edition)"
        } else {
            "DOOM Shareware"
        },
        GameMode::Registered => if bfg_edition {
            "DOOM Registered (BFG Edition)"
        } else {
            "DOOM Registered"
        },
        GameMode::Commercial => match mission {
            GameMission::Plutonia => if bfg_edition {
                "Final DOOM - The Plutonia Experiment (BFG Edition)"
            } else {
                "Final DOOM - The Plutonia Experiment"
            },
            GameMission::TNT => if bfg_edition {
                "Final DOOM - TNT: Evilution (BFG Edition)"
            } else {
                "Final DOOM - TNT: Evilution"
            },
            GameMission::Hacx => if bfg_edition {
                "HACX - Twitch 'n Kill (BFG Edition)"
            } else {
                "HACX - Twitch 'n Kill"
            },
            _ => if bfg_edition {
                "DOOM 2: Hell on Earth (BFG Edition)"
            } else {
                "DOOM 2: Hell on Earth"
            },
        },
        GameMode::Undetermined => if bfg_edition {
            "Public DOOM (BFG Edition)"
        } else {
            "Public DOOM"
        },
    }
}

/// The title of the game of the given edition and mission. The BFG
/// edition is named as such.
pub fn version_title(mode: GameMode, mission: GameMission, bfg_edition: bool) -> (r:
    &'static str)
    ensures
        r == title_of(mode, mission, bfg_edition),
{
    match mode {
        GameMode::Retail => match mission {
            GameMission::Chex => if bfg_edition {
                "Chex(R) Quest (BFG Edition)"
            } else {
                "Chex(R) Quest"
            },
            _ => if bfg_edition {
                "The Ultimate DOOM (BFG Edition)"
            } else {
                "The Ultimate DOOM"
            },
        },
        GameMode::Shareware => if bfg_edition {
            "DOOM Shareware (BFG Edition)"
        } else {
            "DOOM Shareware"
        },
        GameMode::Registered => if bfg_edition {
            "DOOM Registered (BFG Edition)"
        } else {
            "DOOM Registered"
        },
        GameMode::Commercial => match mission {
            GameMission::Plutonia => if bfg_edition {
                "Final DOOM - The Plutonia Experiment (BFG Edition)"
            } else {
                "Final DOOM - The Plutonia Experiment"
            },
            GameMission::TNT => if bfg_edition {
                "Final DOOM - TNT: Evilution (BFG Edition)"
            } else {
                "Final DOOM - TNT: Evilution"
            },
            GameMission::Hacx => if bfg_edition {
                "HACX - Twitch 'n Kill (BFG Edition)"
            } else {
                "HACX - Twitch 'n Kill"
            },
            _ => if bfg_edition {
                "DOOM 2: Hell on Earth (BFG Edition)"
            } else {
                "DOOM 2: Hell on Earth"
            },
        },
        GameMode::Undetermined => if bfg_edition {
            "Public DOOM (BFG Edition)"
        } else {
            "Public DOOM"
        },
    }
}

/// The value of `input` held within `min` and `max`.
pub open spec fn clamped(input: int, min: int, max: int) -> int {
    if input < min {
        min
    } else if input > max {
        max
    } else {
        input
    }
}

/// `num::clamp`: `min` where the input lies below it, `max` where the
/// input lies above it, and else the input. The function panics in debug
/// builds where `min` exceeds `max`, which `requires` rules out.
#[verifier::external_body]
fn clamp(input: i32, min: i32, max: i32) -> (r: i32)
    requires
        min <= max,
    ensures
        r == clamped(input as int, min as int, max as int),
{
    num::clamp(input, min, max)
}

/// The scale of the speed of the player in percent: the value of
/// `-turbo`, 0 where it is no number and 200 where there is none, held
/// within 10 and 400.
pub open spec fn turbo_scale(value: Option<Seq<char>>) -> int {
    match value {
        Some(text) => match parse_i32_spec(encode_utf8(text)) {
            Some(n) => clamped(n as int, 10, 400),
            None => 10,
        },
        None => 200,
    }
}

/// A speed scaled by a percentage. The result is rounded towards zero,
/// and a speed beyond the range of `i32` is the nearest speed within it.
pub open spec fn scaled_speed(speed: i32, scale: int) -> int {
    let scaled = if speed >= 0 {
        speed * scale / 100
    } else {
        -((-speed) * scale / 100)
    };
    clamped(scaled, i32::MIN as int, i32::MAX as int)
}

/// Scales a speed by a percentage from 10 to 400.
pub fn scale_speed(speed: i32, scale: i32) -> (r: i32)
    requires
        10 <= scale <= 400,
    ensures
        r == scaled_speed(speed, scale as int),
{
    let wide: i64 = speed as i64;
    let factor: i64 = scale as i64;
    let scaled: i64 = if wide >= 0 {
        assert(wide * factor <= 0x8000_0000 * 400) by (nonlinear_arith)
            requires
                0 <= wide <= 0x8000_0000,
                10 <= factor <= 400,
        ;
        assert(wide * factor >= 0) by (nonlinear_arith)
            requires
                0 <= wide,
                10 <= factor,
        ;
        wide * factor / 100
    } else {
        let positive: i64 = -wide;
        assert(positive * factor <= 0x8000_0000 * 400) by (nonlinear_arith)
            requires
                0 <= positive <= 0x8000_0000,
                10 <= factor <= 400,
        ;
        assert(positive * factor >= 0) by (nonlinear_arith)
            requires
                0 <= positive,
                10 <= factor,
        ;
        -(positive * factor / 100)
    };
    if scaled > 0x7fff_ffff {
        0x7fff_ffff
    } else if scaled < -0x8000_0000 {
        -0x8000_0000
    } else {
        scaled as i32
    }
}

/// The two speeds `speeds`, each scaled by `scale` percent.
pub open spec fn scaled_speeds(speeds: [i32; 2], scale: int) -> [i32; 2] {
    [scaled_speed(speeds[0], scale) as i32, scaled_speed(speeds[1], scale) as i32]
}

/// The configuration with the speeds of the player scaled as `-turbo`
/// asks.
pub open spec fn with_turbo(c: Configuration) -> Configuration {
    if is_given(c, "-turbo"@) {
        let scale = turbo_scale(value_of(c, "-turbo"@));
        Configuration {
            forward_move: scaled_speeds(c.forward_move, scale),
            side_move: scaled_speeds(c.side_move, scale),
            ..c
        }
    } else {
        c
    }
}

/// Scales two speeds by a percentage from 10 to 400.
fn scale_speeds(speeds: &[i32; 2], scale: i32) -> (r: [i32; 2])
    requires
        10 <= scale <= 400,
    ensures
        r == scaled_speeds(*speeds, scale as int),
{
    let r: [i32; 2] = [scale_speed(speeds[0], scale), scale_speed(speeds[1], scale)];
    assert(r@ =~= scaled_speeds(*speeds, scale as int)@);
    r
}

/// Scales the speeds of the player as `-turbo` asks. The result is the
/// configuration and the scale in percent, where the parameter is given.
pub fn apply_turbo(configuration: Configuration) -> (r: (Configuration, Option<i32>))
    ensures
        r.0 == with_turbo(configuration),
        r.1 is Some <==> is_given(configuration, "-turbo"@),
        r.1 matches Some(scale) ==> scale == turbo_scale(value_of(configuration, "-turbo"@)),
{
    match configuration.args.check_parm("-turbo") {
        Some(p) => {
            let scale: i32 = if p < configuration.args.len() - 1 {
                match parse_i32(configuration.args[p + 1].as_str()) {
                    Some(n) => n,
                    None => 0,
                }
            } else {
                200
            };
            let scale = clamp(scale, 10, 400);
            let forward_move = scale_speeds(&configuration.forward_move, scale);
            let side_move = scale_speeds(&configuration.side_move, scale);
            (Configuration { forward_move, side_move, ..configuration }, Some(scale))
        },
        None => (configuration, None),
    }
}

/// The skill that the value of `-skill` names: its first byte is a
/// digit from 1 to 5.
pub open spec fn skill_named(text: Seq<char>) -> Option<SkillLevel> {
    let bytes = encode_utf8(text);
    if bytes.len() > 0 && bytes[0] >= 0x31 {
        SkillLevel::of_number((bytes[0] - 0x31) as u8)
    } else {
        None
    }
}

/// The configuration with the skill that `-skill` asks for.
pub open spec fn with_skill(c: Configuration) -> Result<Configuration, StartupError> {
    match value_of(c, "-skill"@) {
        Some(text) => match skill_named(text) {
            Some(skill) => Ok(Configuration { start_skill: skill, ..c }),
            None => Err(StartupError::InvalidSkillLevel),
        },
        None => Ok(c),
    }
}

/// Takes the skill from the command line. A value of `-skill` that
/// names no skill is refused.
pub fn read_skill(configuration: Configuration) -> (r: Result<Configuration, StartupError>)
    ensures
        r == with_skill(configuration),
{
    match configuration.args.check_parm("-skill") {
        Some(p) => {
            if p < configuration.args.len() - 1 {
                let bytes = configuration.args[p + 1].as_str().as_bytes();
                if bytes.len() == 0 || bytes[0] < 0x31 {
                    return Err(StartupError::InvalidSkillLevel);
                }
                match SkillLevel::try_from(bytes[0] - 0x31) {
                    Ok(start_skill) => Ok(Configuration { start_skill, ..configuration }),
                    Err(e) => Err(e),
                }
            } else {
                Ok(configuration)
            }
        },
        None => Ok(configuration),
    }
}

/// The episode that the value of `-episode` names: its first byte, as
/// far as it lies above the digit 0.
pub open spec fn episode_named(text: Seq<char>) -> Option<usize> {
    let bytes = encode_utf8(text);
    if bytes.len() == 0 {
        None
    } else if bytes[0] >= 0x30 {
        Some((bytes[0] - 0x30) as usize)
    } else {
        Some(0)
    }
}

/// The configuration with the episode that `-episode` asks for.
pub open spec fn with_episode(c: Configuration) -> Result<Configuration, StartupError> {
    match value_of(c, "-episode"@) {
        Some(text) => match episode_named(text) {
            Some(episode) => Ok(Configuration { start_episode: episode, ..c }),
            None => Err(StartupError::InvalidNumber),
        },
        None => Ok(c),
    }
}

/// Takes the episode from the command line. An empty value of
/// `-episode` is refused.
pub fn read_episode(configuration: Configuration) -> (r: Result<Configuration, StartupError>)
    ensures
        r == with_episode(configuration),
{
    match configuration.args.check_parm("-episode") {
        Some(p) => {
            if p < configuration.args.len() - 1 {
                let bytes = configuration.args[p + 1].as_str().as_bytes();
                if bytes.len() == 0 {
                    return Err(StartupError::InvalidNumber);
                }
                let start_episode: usize = if bytes[0] >= 0x30 {
                    (bytes[0] - 0x30) as usize
                } else {
                    0
                };
                Ok(Configuration { start_episode, ..configuration })
            } else {
                Ok(configuration)
            }
        },
        None => Ok(configuration),
    }
}

/// The configuration with sound and drawing switched off as the command
/// line asks.
pub open spec fn with_output_switches(c: Configuration) -> Configuration {
    Configuration {
        no_music: is_given(c, "-nosound"@) || is_given(c, "-nomusic"@),
        no_sfx: is_given(c, "-nosound"@) || is_given(c, "-nosfx"@),
        no_draw: is_given(c, "-nodraw"@),
        no_blit: is_given(c, "-noblit"@),
        ..c
    }
}

/// Takes from the command line what output is switched off.
pub fn read_output_switches(configuration: Configuration) -> (r: Configuration)
    ensures
        r == with_output_switches(configuration),
{
    let no_sound = configuration.args.check_parm("-nosound").is_some();
    let no_music = no_sound || configuration.args.check_parm("-nomusic").is_some();
    let no_sfx = no_sound || configuration.args.check_parm("-nosfx").is_some();
    let no_draw = configuration.args.check_parm("-nodraw").is_some();
    let no_blit = configuration.args.check_parm("-noblit").is_some();
    Configuration { no_music, no_sfx, no_draw, no_blit, ..configuration }
}

/// The offset of the view that the value of `-viewangle` asks for. The
/// value, 0 where it is no number, is held within 0 and 7 and counts
/// eighths of a turn to the right; the offset is the angle to the left
/// that comes to the same, wrapping round at 32 bits.
pub open spec fn view_angle_of(text: Seq<char>) -> i32 {
    let asked = match parse_i32_spec(encode_utf8(text)) {
        Some(n) => clamped(n as int, 0, 7),
        None => 0,
    };
    wrapped_angle((8 - asked) * 0x2000_0000)
}

/// An angle as the 32 bits that hold it, read with a sign.
pub open spec fn wrapped_angle(angle: int) -> i32
    recommends
        0 <= angle <= 0x1_0000_0000,
{
    if angle >= 0x1_0000_0000 {
        0
    } else if angle >= 0x8000_0000 {
        (angle - 0x1_0000_0000) as i32
    } else {
        angle as i32
    }
}

/// The configuration with the offset of the view that `-viewangle` asks
/// for.
pub open spec fn with_view_angle(c: Configuration) -> Configuration {
    match value_of(c, "-viewangle"@) {
        Some(text) => Configuration { view_angle_offset: view_angle_of(text), ..c },
        None => c,
    }
}

/// Takes the offset of the view from the command line.
pub fn read_view_angle(configuration: Configuration) -> (r: Configuration)
    ensures
        r == with_view_angle(configuration),
{
    match configuration.args.check_parm("-viewangle") {
        Some(p) => {
            if p < configuration.args.len() - 1 {
                let asked: i32 = match parse_i32(configuration.args[p + 1].as_str()) {
                    Some(n) => n,
                    None => 0,
                };
                let asked = clamp(asked, 0, 7);
                let angle: i64 = (8 - asked as i64) * 0x2000_0000;
                let view_angle_offset: i32 = if angle >= 0x1_0000_0000 {
                    0
                } else if angle >= 0x8000_0000 {
                    (angle - 0x1_0000_0000) as i32
                } else {
                    angle as i32
                };
                Configuration { view_angle_offset, ..configuration }
            } else {
                configuration
            }
        },
        None => configuration,
    }
}

/// The regular expression for a number at the beginning of a text.
pub const LEADING_NUMBER: &'static str = r"^(\d+)";

/// The names of the parameter that names the map to start on.
pub open spec fn warp_parameters() -> Seq<&'static str> {
    seq!["-warp", "-wart"]
}

/// The number that a match of `LEADING_NUMBER` captured: nothing where
/// there is no match, and else what its first group reads as. A match
/// whose first group is missing, or holds what is no number that fits a
/// `usize`, is refused.
pub open spec fn leading_number_of(groups: Option<Seq<Option<Seq<char>>>>) -> Result<
    Option<usize>,
    StartupError,
> {
    match groups {
        None => Ok(None),
        Some(g) => if g.len() >= 2 && g[1] is Some {
            match parse_usize_spec(encode_utf8(g[1].unwrap())) {
                Some(n) => Ok(Some(n)),
                None => Err(StartupError::InvalidNumber),
            }
        } else {
            Err(StartupError::InvalidNumber)
        },
    }
}

/// Reads the number that a match of `LEADING_NUMBER` captured.
pub fn leading_number(groups: &Option<Vec<Option<String>>>) -> (r: Result<
    Option<usize>,
    StartupError,
>)
    ensures
        r == leading_number_of(
            match groups {
                Some(g) => Some(groups_view(g@)),
                None => None,
            },
        ),
{
    match groups {
        None => Ok(None),
        Some(g) => {
            if g.len() < 2 {
                return Err(StartupError::InvalidNumber);
            }
            match &g[1] {
                Some(text) => match parse_usize(text.as_str()) {
                    Some(n) => Ok(Some(n)),
                    None => Err(StartupError::InvalidNumber),
                },
                None => Err(StartupError::InvalidNumber),
            }
        },
    }
}

/// The number at the beginning of a text, as `LEADING_NUMBER` finds it.
pub open spec fn number_at_start(text: Seq<char>) -> Result<Option<usize>, StartupError> {
    leading_number_of(regex_captures(LEADING_NUMBER@, text))
}

/// Reads the number at the beginning of a text.
fn read_number_at_start(text: &str) -> (r: Result<Option<usize>, StartupError>)
    ensures
        r == number_at_start(text@),
{
    let groups = captures(LEADING_NUMBER, text);
    leading_number(&groups)
}

/// The configuration with the map to start on that `-warp` asks for.
///
/// The parameter alone starts the game on the first map. In the second
/// game its value is the number of the map. In the first game its value
/// is the number of the episode, and a second value, where there is one,
/// the number of the map; a value that begins with no number leaves all
/// as it is.
pub open spec fn with_warp(c: Configuration) -> Result<Configuration, StartupError> {
    let args = c.args@;
    match position_of_any(args, warp_parameters()) {
        None => Ok(c),
        Some(p) => if p + 1 < args.len() {
            match number_at_start(args[p + 1]@) {
                Err(e) => Err(e),
                Ok(None) => Ok(Configuration { start_map: 1, autostart: true, ..c }),
                Ok(Some(first)) => if c.game_mode == GameMode::Commercial {
                    Ok(Configuration { start_map: first, autostart: true, ..c })
                } else {
                    match map_behind_episode(c) {
                        Err(e) => Err(e),
                        Ok(map) => Ok(
                            Configuration {
                                start_episode: first,
                                start_map: map,
                                autostart: true,
                                ..c
                            },
                        ),
                    }
                },
            }
        } else {
            Ok(Configuration { start_map: 1, autostart: true, ..c })
        },
    }
}

/// The map that the second value of `-warp` names in the first game:
/// the first map where there is no second value, or where it begins with
/// no number.
pub open spec fn map_behind_episode(c: Configuration) -> Result<usize, StartupError> {
    let args = c.args@;
    match position_of_any(args, warp_parameters()) {
        None => Ok(1),
        Some(p) => if p + 2 < args.len() {
            match number_at_start(args[p + 2]@) {
                Err(e) => Err(e),
                Ok(None) => Ok(1),
                Ok(Some(map)) => Ok(map),
            }
        } else {
            Ok(1)
        },
    }
}

/// Takes the map to start on from the command line.
pub fn read_warp(configuration: Configuration) -> (r: Result<Configuration, StartupError>)
    ensures
        r == with_warp(configuration),
{
    let names: [&str; 2] = ["-warp", "-wart"];
    assert(names@ =~= warp_parameters());
    let p = match configuration.args.check_parms(names.as_slice()) {
        Some(p) => p,
        None => {
            return Ok(configuration);
        },
    };
    let n = configuration.args.len();
    if p >= n - 1 {
        return Ok(Configuration { start_map: 1, autostart: true, ..configuration });
    }
    let first = match read_number_at_start(configuration.args[p + 1].as_str()) {
        Ok(first) => first,
        Err(e) => {
            return Err(e);
        },
    };
    let first = match first {
        Some(first) => first,
        None => {
            return Ok(Configuration { start_map: 1, autostart: true, ..configuration });
        },
    };
    match configuration.game_mode {
        GameMode::Commercial => Ok(
            Configuration { start_map: first, autostart: true, ..configuration },
        ),
        _ => {
            let start_map: usize = if p < n - 2 {
                match read_number_at_start(configuration.args[p + 2].as_str()) {
                    Ok(Some(map)) => map,
                    Ok(None) => 1,
                    Err(e) => {
                        return Err(e);
                    },
                }
            } else {
                1
            };
            Ok(
                Configuration {
                    start_episode: first,
                    start_map,
                    autostart: true,
                    ..configuration
                },
            )
        },
    }
}

/// The configuration with the title of the game that is played.
pub open spec fn with_title(c: Configuration) -> Configuration {
    Configuration { doom_ver_str: title_of(c.game_mode, c.game_mission, c.bfg_edition), ..c }
}

/// The configuration after every step of the setup that can go wrong
/// before a new game begins: the switches, the title, the speeds, the
/// skill, the episode, the map, the output and the view.
pub open spec fn with_command_line(c: Configuration) -> Result<Configuration, StartupError> {
    match with_skill(with_turbo(with_title(with_switches(c)))) {
        Err(e) => Err(e),
        Ok(skilled) => match with_episode(skilled) {
            Err(e) => Err(e),
            Ok(placed) => match with_warp(placed) {
                Err(e) => Err(e),
                Ok(warped) => Ok(with_view_angle(with_output_switches(warped))),
            },
        },
    }
}

/// Takes in the command line, step by step: the switches, the title,
/// the speeds, the skill, the episode, the map, the output and the view.
/// The first step that fails decides the failure.
pub fn read_command_line(configuration: Configuration) -> (r: Result<Configuration, StartupError>)
    ensures
        r == with_command_line(configuration),
{
    let c = read_switches(configuration);
    let doom_ver_str = version_title(c.game_mode, c.game_mission, c.bfg_edition);
    let c = Configuration { doom_ver_str, ..c };
    let (c, _) = apply_turbo(c);
    let c = match read_skill(c) {
        Ok(c) => c,
        Err(e) => {
            return Err(e);
        },
    };
    let c = match read_episode(c) {
        Ok(c) => c,
        Err(e) => {
            return Err(e);
        },
    };
    let c = match read_warp(c) {
        Ok(c) => c,
        Err(e) => {
            return Err(e);
        },
    };
    Ok(read_view_angle(read_output_switches(c)))
}

/// Sets the game up from the command line and begins a new game.
/// `time_seed` is the time in seconds, which goes into the seed of the
/// random numbers. The first step that fails decides the failure.
pub fn doom_main_setup(configuration: Configuration, time_seed: u64) -> (r: Result<
    Configuration,
    StartupError,
>)
    ensures
        match with_command_line(configuration) {
            Err(e) => r matches Err(f) && f == e,
            Ok(c) => match (helpers_of_new_game(&c), asked_level(&c)) {
                (Ok(dogs), Ok(level)) => {
                    &&& r matches Ok(new)
                    &&& new == new_game(c, level, dogs, new.player_in_game, time_seed)
                    &&& new.player_in_game@ == only_first_player(c.player_in_game@)
                },
                (Ok(_), Err(e)) => r matches Err(f) && f == e,
                (Err(e), _) => r matches Err(f) && f == e,
            },
        },
{
    match read_command_line(configuration) {
        Ok(c) => reload_defaults(c, time_seed),
        Err(e) => Err(e),
    }
}

/// Takes the switch `-forceoldbsp` from the command line, and sorts the
/// loose file names of the command line under their parameters.
pub fn prepare_arguments(configuration: Configuration) -> (r: Configuration)
    ensures
        r == (Configuration {
            args: r.args,
            force_old_bsp: configuration.force_old_bsp || is_given(configuration, "-forceoldbsp"@),
            ..configuration
        }),
        texts(r.args@) == sorted_command_line(texts(configuration.args@)),
{
    let force_old_bsp = configuration.force_old_bsp || configuration.args.check_parm(
        "-forceoldbsp",
    ).is_some();
    let mut args = copy_of(&configuration.args);
    args.handle_loose_files();
    Configuration { args, force_old_bsp, ..configuration }
}

/// A copy of a command line.
fn copy_of(args: &Vec<String>) -> (r: Vec<String>)
    ensures
        r@ == args@,
{
    let mut copy: Vec<String> = Vec::new();
    let mut i: usize = 0;
    while i < args.len()
        invariant
            i <= args@.len(),
            copy@ == args@.subrange(0, i as int),
        decreases args@.len() - i,
    {
        copy.push(args[i].clone());
        assert(copy@ =~= args@.subrange(0, i + 1));
        i = i + 1;
    }
    assert(args@.subrange(0, i as int) == args@);
    copy
}

/// The names under which a main archive is looked for where the command
/// line names none, in the order in which they are tried.
pub open spec fn standard_iwad_names() -> Seq<&'static str> {
    seq![
        "doom2f.wad",
        "doom2.wad",
        "plutonia.wad",
        "tnt.wad",
        "doom.wad",
        "doom1.wad",
        "doomu.wad",
        "freedoom2.wad",
        "freedoom1.wad",
        "freedm.wad",
        "hacx.wad",
        "chex.wad",
        "bfgdoom2.wad",
        "bfgdoom.wad",
    ]
}

/// The names under which a main archive is looked for where the command
/// line names none.
pub fn standard_iwads() -> (names: [&'static str; 14])
    ensures
        names@ == standard_iwad_names(),
{
    let names: [&'static str; 14] = [
        "doom2f.wad",
        "doom2.wad",
        "plutonia.wad",
        "tnt.wad",
        "doom.wad",
        "doom1.wad",
        "doomu.wad",
        "freedoom2.wad",
        "freedoom1.wad",
        "freedm.wad",
        "hacx.wad",
        "chex.wad",
        "bfgdoom2.wad",
        "bfgdoom.wad",
    ];
    assert(names@ =~= standard_iwad_names());
    names
}

/// The names under which the main archive is looked for, as texts: the
/// value of `-iwad` alone where the parameter has one, and else the
/// standard names.
pub open spec fn iwad_names_asked(c: Configuration) -> Seq<Seq<char>> {
    match value_of(c, "-iwad"@) {
        Some(name) => seq![name],
        None => Seq::new(standard_iwad_names().len(), |i: int| standard_iwad_names()[i]@),
    }
}

/// The names under which the main archive is looked for, in the order
/// in which they are to be tried. The first that is found is the main
/// archive; where none is found there is none.
pub fn iwad_candidates(configuration: &Configuration) -> (names: Vec<String>)
    ensures
        texts(names@) == iwad_names_asked(*configuration),
{
    let mut names: Vec<String> = Vec::new();
    match configuration.args.check_parm("-iwad") {
        Some(i) => {
            if i < configuration.args.len() - 1 {
                names.push(configuration.args[i + 1].clone());
                assert(texts(names@) =~= iwad_names_asked(*configuration));
                return names;
            }
        },
        None => {},
    }
    let standard = standard_iwads();
    let mut k: usize = 0;
    while k < 14
        invariant
            k <= 14,
            standard@ == standard_iwad_names(),
            names@.len() == k,
            forall|j: int| 0 <= j < k ==> (#[trigger] names@[j])@ == standard_iwad_names()[j]@,
        decreases 14 - k,
    {
        names.push(standard[k].to_owned());
        k = k + 1;
    }
    assert(texts(names@) =~= iwad_names_asked(*configuration));
    names
}

/// The name of the settings file: the value of `-config`, where the
/// parameter has one, and else the name that is set already.
pub open spec fn config_file_asked(c: Configuration) -> Seq<char> {
    match value_of(c, "-config"@) {
        Some(name) => name,
        None => c.default_file@,
    }
}

/// Takes the name of the settings file from the command line.
pub fn read_config_file(configuration: Configuration) -> (r: Configuration)
    ensures
        r == (Configuration { default_file: r.default_file, ..configuration }),
        r.default_file@ == config_file_asked(configuration),
{
    let default_file = match configuration.args.check_parm("-config") {
        Some(i) => {
            if i < configuration.args.len() - 1 {
                configuration.args[i + 1].clone()
            } else {
                configuration.default_file.clone()
            }
        },
        None => configuration.default_file.clone(),
    };
    Configuration { default_file, ..configuration }
}

/// Adds the program's own data archive, found at `path`, to the list of
/// archives. It is loaded before all others.
pub fn add_resource_wad(configuration: Configuration, path: String) -> (r: Configuration)
    ensures
        r == (Configuration { wad_files: r.wad_files, ..configuration }),
        r.wad_files@.len() == configuration.wad_files@.len() + 1,
        r.wad_files@.subrange(0, configuration.wad_files@.len() as int)
            == configuration.wad_files@,
        r.wad_files@.last().name == path,
        r.wad_files@.last().src == WadSource::Pre,
        r.wad_files@.last().handle == 0,
{
    let mut wad_files: Vec<WadFileInfo> = Vec::new();
    let mut i: usize = 0;
    while i < configuration.wad_files.len()
        invariant
            i <= configuration.wad_files@.len(),
            wad_files@ == configuration.wad_files@.subrange(0, i as int),
        decreases configuration.wad_files@.len() - i,
    {
        let info = &configuration.wad_files[i];
        wad_files.push(WadFileInfo { name: info.name.clone(), src: info.src, handle: info.handle });
        assert(wad_files@ =~= configuration.wad_files@.subrange(0, i + 1));
        i = i + 1;
    }
    assert(configuration.wad_files@.subrange(0, i as int) =~= configuration.wad_files@);
    wad_files.push(WadFileInfo { name: path, src: WadSource::Pre, handle: 0 });
    assert(wad_files@.subrange(0, configuration.wad_files@.len() as int)
        =~= configuration.wad_files@);
    Configuration { wad_files, ..configuration }
}

/// The game itself. It does nothing yet.
pub fn doom_loop() {
}

} // verus!
