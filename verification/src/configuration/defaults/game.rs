//! Defaults of the settings of the game itself: the process, demos, game
//! play, monsters, weapons and the launcher.

use vstd::prelude::*;

use crate::configuration::bounded::FriendDistance;
use crate::configuration::bounded::PlayerHelpers;
use crate::configuration::bounded::PositiveInt;
use crate::configuration::bounded::ProcessPriority;
use crate::configuration::bounded::SmoothTurnsFactor;
use crate::configuration::bounded::Weapon;
use crate::configuration::bounded::WeaponAttackAlignment;
use crate::configuration::level::CompatibilityLevel;
use crate::configuration::options::DemoInsurance;
use crate::configuration::options::DemoSmoothTurns;
use crate::configuration::options::EndoomMode;
use crate::configuration::options::LauncherEnable;
use crate::configuration::options::MonsterInfightingLevel;
use crate::configuration::options::OptionalLimit;
use crate::configuration::options::SkillLevel;

verus! {

/// Default of `process_priority`.
pub fn default_process_priority() -> (r: ProcessPriority)
    ensures
        r@ == 0,
{
    ProcessPriority::new(0).unwrap()
}

/// Default of `default_compatibility_level`.
pub fn default_default_compatibility_level() -> (r: CompatibilityLevel)
    ensures
        r == CompatibilityLevel::PrBoomLatest,
{
    CompatibilityLevel::PrBoomLatest
}

/// Default of `realtic_clock_rate`.
pub fn default_realtic_clock_rate() -> (r: PositiveInt)
    ensures
        r@ == 100,
{
    PositiveInt::new(100).unwrap()
}

/// Default of `menu_background`.
pub fn default_menu_background() -> (r: bool)
    ensures
        r,
{
    true
}

/// Default of `body_queue_size`.
pub fn default_body_queue_size() -> (r: OptionalLimit)
    ensures
        (r matches OptionalLimit::Limit(limit) && limit@ == 32),
{
    OptionalLimit::Limit(PositiveInt::new(32).unwrap())
}

/// Default of `flashing_hom`.
pub fn default_flashing_hom() -> (r: bool)
    ensures
        !r,
{
    false
}

/// Default of `demo_insurance`.
pub fn default_demo_insurance() -> (r: DemoInsurance)
    ensures
        r == DemoInsurance::DuringDemoRecording,
{
    DemoInsurance::DuringDemoRecording
}

/// Default of `endoom_mode`.
pub fn default_endoom_mode() -> (r: EndoomMode)
    ensures
        r == (EndoomMode { colors: true, non_ascii_chars: false, skip_last_line: true }),
{
    EndoomMode { colors: true, non_ascii_chars: false, skip_last_line: true }
}

/// Default of `level_precache`.
pub fn default_level_precache() -> (r: bool)
    ensures
        r,
{
    true
}

/// Default of `demo_smoothturns`.
pub fn default_demo_smoothturns() -> (r: DemoSmoothTurns)
    ensures
        r.enabled,
        r.factor@ == 6,
{
    DemoSmoothTurns { enabled: true, factor: SmoothTurnsFactor::new(6).unwrap() }
}

/// Default of `boom_autoswitch`.
pub fn default_boom_autoswitch() -> (r: bool)
    ensures
        r,
{
    true
}

/// Default of `wad_files`.
pub fn default_wad_files() -> (r: Vec<String>)
    ensures
        r@.len() == 0,
{
    Vec::new()
}

/// Default of `deh_files`.
pub fn default_deh_files() -> (r: Vec<String>)
    ensures
        r@.len() == 0,
{
    Vec::new()
}

/// Default of `default_skill`.
pub fn default_default_skill() -> (r: SkillLevel)
    ensures
        r == SkillLevel::Hmp,
{
    SkillLevel::Hmp
}

/// Default of `weapon_recoil`.
pub fn default_weapon_recoil() -> (r: bool)
    ensures
        !r,
{
    false
}

/// Default of `doom_weapon_toggles`.
pub fn default_doom_weapon_toggles() -> (r: bool)
    ensures
        r,
{
    true
}

/// Default of `player_bobbing`.
pub fn default_player_bobbing() -> (r: bool)
    ensures
        r,
{
    true
}

/// Default of `weapon_attack_alignment`.
pub fn default_weapon_attack_alignment() -> (r: WeaponAttackAlignment)
    ensures
        r@ == 0,
{
    WeaponAttackAlignment::new(0).unwrap()
}

/// Default of `monsters_remember`.
pub fn default_monsters_remember() -> (r: bool)
    ensures
        r,
{
    true
}

/// Default of `monster_infighting`.
pub fn default_monster_infighting() -> (r: MonsterInfightingLevel)
    ensures
        r == MonsterInfightingLevel::OtherSpecies,
{
    MonsterInfightingLevel::OtherSpecies
}

/// Default of `monster_backing`.
pub fn default_monster_backing() -> (r: bool)
    ensures
        !r,
{
    false
}

/// Default of `monster_avoid_hazards`.
pub fn default_monster_avoid_hazards() -> (r: bool)
    ensures
        r,
{
    true
}

/// Default of `monkeys`.
pub fn default_monkeys() -> (r: bool)
    ensures
        !r,
{
    false
}

/// Default of `monster_friction`.
pub fn default_monster_friction() -> (r: bool)
    ensures
        r,
{
    true
}

/// Default of `help_friends`.
pub fn default_help_friends() -> (r: bool)
    ensures
        !r,
{
    false
}

/// Default of `allow_pushers`.
pub fn default_allow_pushers() -> (r: bool)
    ensures
        r,
{
    true
}

/// Default of `variable_friction`.
pub fn default_variable_friction() -> (r: bool)
    ensures
        r,
{
    true
}

/// Default of `player_helpers`.
pub fn default_player_helpers() -> (r: PlayerHelpers)
    ensures
        r@ == 0,
{
    PlayerHelpers::new(0).unwrap()
}

/// Default of `friend_distance`.
pub fn default_friend_distance() -> (r: FriendDistance)
    ensures
        r@ == 128,
{
    FriendDistance::new(128).unwrap()
}

/// Default of `dog_jumping`.
pub fn default_dog_jumping() -> (r: bool)
    ensures
        r,
{
    true
}

/// Default of `sts_always_red`.
pub fn default_sts_always_red() -> (r: bool)
    ensures
        r,
{
    true
}

/// Default of `sts_pct_always_gray`.
pub fn default_sts_pct_always_gray() -> (r: bool)
    ensures
        !r,
{
    false
}

/// Default of `sts_traditional_keys`.
pub fn default_sts_traditional_keys() -> (r: bool)
    ensures
        !r,
{
    false
}

/// Default of `sts_armorcolor_type`.
pub fn default_sts_armorcolor_type() -> (r: bool)
    ensures
        r,
{
    true
}

/// Default of `show_messages`.
pub fn default_show_messages() -> (r: bool)
    ensures
        r,
{
    true
}

/// Default of `autorun`.
pub fn default_autorun() -> (r: bool)
    ensures
        r,
{
    true
}

/// Default of `deh_apply_cheats`.
pub fn default_deh_apply_cheats() -> (r: bool)
    ensures
        r,
{
    true
}

/// Default of `launcher_enable`.
pub fn default_launcher_enable() -> (r: LauncherEnable)
    ensures
        r == LauncherEnable::Never,
{
    LauncherEnable::Never
}

/// Default of `launcher_history`.
pub fn default_launcher_history() -> (r: Vec<String>)
    ensures
        r@.len() == 0,
{
    Vec::new()
}

/// Default of `demo_patterns_mask`: for each known set of demos, its title,
/// the pattern of its file names and the archives it needs.
pub fn default_demo_patterns_mask() -> (r: Vec<String>)
    ensures
        r@.len() == 9,
        r@[0]@ == "DOOM 2: Hell on Earth/((lv)|(nm)|(pa)|(ty))\\d\\d.\\d\\d\\d\\.lmp/doom2.wad"@,
        r@[1]@ == "DOOM 2: Plutonia Experiment/p(c|f|l|n|p|r|s|t)\\d\\d.\\d\\d\\d\\.lmp/doom2.wad|plutonia.wad"@,
        r@[2]@ == "DOOM 2: TNT - Evilution/((e(c|f|v|p|r|s|t))|(tn))\\d\\d.\\d\\d\\d\\.lmp/doom2.wad|tnt.wad"@,
        r@[3]@ == "The Ultimate DOOM/(((e|f|n|p|r|t|u)\\dm\\d)|(n\\ds\\d)).\\d\\d\\d\\.lmp/doom.wad"@,
        r@[4]@ == "Alien Vendetta/a(c|f|n|p|r|s|t|v)\\d\\d.\\d\\d\\d\\.lmp/doom2.wad|av.wad|av.deh"@,
        r@[5]@ == "Requiem/r(c|f|n|p|q|r|s|t)\\d\\d.\\d\\d\\d\\.lmp/doom2.wad|requiem.wad|req21fix.wad|reqmus.wad"@,
        r@[6]@ == "Hell Revealed/h(c|e|f|n|p|r|s|t)\\d\\d.\\d\\d\\d\\.lmp/doom2.wad|hr.wad|hrmus.wad"@,
        r@[7]@ == "Memento Mori/mm\\d\\d.\\d\\d\\d\\.lmp/doom2.wad|mm.wad|mmmus.wad"@,
        r@[8]@ == "Memento Mori 2/m2\\d\\d.\\d\\d\\d\\.lmp/doom2.wad|mm2.wad|mm2mus.wad"@,
{
    let mut patterns: Vec<String> = Vec::new();
    patterns.push("DOOM 2: Hell on Earth/((lv)|(nm)|(pa)|(ty))\\d\\d.\\d\\d\\d\\.lmp/doom2.wad".to_owned());
    patterns.push("DOOM 2: Plutonia Experiment/p(c|f|l|n|p|r|s|t)\\d\\d.\\d\\d\\d\\.lmp/doom2.wad|plutonia.wad".to_owned());
    patterns.push("DOOM 2: TNT - Evilution/((e(c|f|v|p|r|s|t))|(tn))\\d\\d.\\d\\d\\d\\.lmp/doom2.wad|tnt.wad".to_owned());
    patterns.push("The Ultimate DOOM/(((e|f|n|p|r|t|u)\\dm\\d)|(n\\ds\\d)).\\d\\d\\d\\.lmp/doom.wad".to_owned());
    patterns.push("Alien Vendetta/a(c|f|n|p|r|s|t|v)\\d\\d.\\d\\d\\d\\.lmp/doom2.wad|av.wad|av.deh".to_owned());
    patterns.push("Requiem/r(c|f|n|p|q|r|s|t)\\d\\d.\\d\\d\\d\\.lmp/doom2.wad|requiem.wad|req21fix.wad|reqmus.wad".to_owned());
    patterns.push("Hell Revealed/h(c|e|f|n|p|r|s|t)\\d\\d.\\d\\d\\d\\.lmp/doom2.wad|hr.wad|hrmus.wad".to_owned());
    patterns.push("Memento Mori/mm\\d\\d.\\d\\d\\d\\.lmp/doom2.wad|mm.wad|mmmus.wad".to_owned());
    patterns.push("Memento Mori 2/m2\\d\\d.\\d\\d\\d\\.lmp/doom2.wad|mm2.wad|mm2mus.wad".to_owned());
    patterns
}

/// Default of `weapon_choice_1`.
pub fn default_weapon_choice_1() -> (r: Weapon)
    ensures
        r@ == 6,
{
    Weapon::new(6).unwrap()
}

/// Default of `weapon_choice_2`.
pub fn default_weapon_choice_2() -> (r: Weapon)
    ensures
        r@ == 9,
{
    Weapon::new(9).unwrap()
}

/// Default of `weapon_choice_3`.
pub fn default_weapon_choice_3() -> (r: Weapon)
    ensures
        r@ == 4,
{
    Weapon::new(4).unwrap()
}

/// Default of `weapon_choice_4`.
pub fn default_weapon_choice_4() -> (r: Weapon)
    ensures
        r@ == 3,
{
    Weapon::new(3).unwrap()
}

/// Default of `weapon_choice_5`.
pub fn default_weapon_choice_5() -> (r: Weapon)
    ensures
        r@ == 2,
{
    Weapon::new(2).unwrap()
}

/// Default of `weapon_choice_6`.
pub fn default_weapon_choice_6() -> (r: Weapon)
    ensures
        r@ == 8,
{
    Weapon::new(8).unwrap()
}

/// Default of `weapon_choice_7`.
pub fn default_weapon_choice_7() -> (r: Weapon)
    ensures
        r@ == 5,
{
    Weapon::new(5).unwrap()
}

/// Default of `weapon_choice_8`.
pub fn default_weapon_choice_8() -> (r: Weapon)
    ensures
        r@ == 7,
{
    Weapon::new(7).unwrap()
}

/// Default of `weapon_choice_9`.
pub fn default_weapon_choice_9() -> (r: Weapon)
    ensures
        r@ == 1,
{
    Weapon::new(1).unwrap()
}

} // verus!
