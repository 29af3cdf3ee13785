use ezboom::configuration::level::CompatibilityLevel;
use ezboom::configuration::options::{DemoInsurance, MonsterInfightingLevel, SkillLevel};
use ezboom::configuration::Configuration;
use ezboom::doom::def::{GameMission, GameMode};
use ezboom::error::StartupError;
use ezboom::game::{
    apply_configured_flags, begin_new_game, compatibility, derive_flags, get_compatibility_level,
    get_helpers, reload_defaults, reseed,
};
use ezboom::configuration::bounded::PlayerHelpers;
use ezboom::misc::args::ArgMeta;
use ezboom::startup::{
    add_resource_wad, apply_turbo, doom_main_setup, iwad_candidates, leading_number,
    prepare_arguments, read_command_line, read_config_file, read_episode, read_output_switches,
    read_skill, read_switches, read_view_angle, read_warp, scale_speed, standard_iwads,
    version_title,
};
use ezboom::wad::WadSource;

fn with_args(list: &[&str]) -> Configuration {
    Configuration::new(list.iter().map(|s| s.to_string()).collect(), String::from("ezboom.cfg"))
}

#[test]
fn game_play_switches_are_read() {
    let c = read_switches(with_args(&["game", "-nomonsters", "-fast", "-altdeath", "-deathmatch"]));
    assert!(c.nomonsters);
    assert!(!c.respawnparm);
    assert!(c.fastparm);
    assert!(!c.devparm);
    assert_eq!(c.deathmatch, 2);
    assert_eq!(c.arg_meta, ArgMeta { nomonsters: true, respawnparm: false, fastparm: true });
    let c = read_switches(with_args(&["game", "-respawn", "-devparm", "-deathmatch"]));
    assert!(c.respawnparm);
    assert!(c.devparm);
    assert_eq!(c.deathmatch, 1);
    assert_eq!(read_switches(with_args(&["game"])).deathmatch, 0);
}

#[test]
fn titles_name_edition_and_mission() {
    assert_eq!(version_title(GameMode::Retail, GameMission::Chex, false), "Chex(R) Quest");
    assert_eq!(version_title(GameMode::Retail, GameMission::Doom, false), "The Ultimate DOOM");
    assert_eq!(version_title(GameMode::Shareware, GameMission::Doom, false), "DOOM Shareware");
    assert_eq!(version_title(GameMode::Registered, GameMission::Doom, false), "DOOM Registered");
    assert_eq!(
        version_title(GameMode::Commercial, GameMission::Plutonia, false),
        "Final DOOM - The Plutonia Experiment"
    );
    assert_eq!(
        version_title(GameMode::Commercial, GameMission::TNT, false),
        "Final DOOM - TNT: Evilution"
    );
    assert_eq!(version_title(GameMode::Commercial, GameMission::Hacx, false), "HACX - Twitch 'n Kill");
    assert_eq!(
        version_title(GameMode::Commercial, GameMission::Doom2, true),
        "DOOM 2: Hell on Earth (BFG Edition)"
    );
    assert_eq!(version_title(GameMode::Undetermined, GameMission::NoMission, false), "Public DOOM");
}

#[test]
fn turbo_scales_the_speeds() {
    let (c, scale) = apply_turbo(with_args(&["game", "-turbo", "300"]));
    assert_eq!(scale, Some(300));
    assert_eq!(c.forward_move, [75, 150]);
    assert_eq!(c.side_move, [72, 120]);
    let (c, scale) = apply_turbo(with_args(&["game"]));
    assert_eq!(scale, None);
    assert_eq!(c.forward_move, [0x19, 0x32]);
    assert_eq!(c.side_move, [0x18, 0x28]);
}

#[test]
fn turbo_scale_is_held_within_bounds() {
    assert_eq!(apply_turbo(with_args(&["game", "-turbo", "500"])).1, Some(400));
    assert_eq!(apply_turbo(with_args(&["game", "-turbo", "5"])).1, Some(10));
    assert_eq!(apply_turbo(with_args(&["game", "-turbo", "-7"])).1, Some(10));
    assert_eq!(apply_turbo(with_args(&["game", "-turbo", "fast"])).1, Some(10));
    assert_eq!(apply_turbo(with_args(&["game", "-turbo"])).1, Some(200));
    let (c, _) = apply_turbo(with_args(&["game", "-turbo"]));
    assert_eq!(c.forward_move, [50, 100]);
    let (c, _) = apply_turbo(with_args(&["game", "-turbo", "10"]));
    assert_eq!(c.forward_move, [2, 5]);
    assert_eq!(c.side_move, [2, 4]);
}

#[test]
fn speeds_are_scaled_towards_zero() {
    assert_eq!(scale_speed(25, 150), 37);
    assert_eq!(scale_speed(-25, 150), -37);
    assert_eq!(scale_speed(0, 400), 0);
    assert_eq!(scale_speed(i32::MAX, 400), i32::MAX);
    assert_eq!(scale_speed(i32::MIN, 400), i32::MIN);
    assert_eq!(scale_speed(i32::MAX, 100), i32::MAX);
    assert_eq!(scale_speed(i32::MIN, 10), -214748364);
}

#[test]
fn skill_is_read_from_its_digit() {
    assert_eq!(read_skill(with_args(&["game", "-skill", "1"])).unwrap().start_skill, SkillLevel::Itytd);
    assert_eq!(read_skill(with_args(&["game", "-skill", "3"])).unwrap().start_skill, SkillLevel::Hmp);
    assert_eq!(read_skill(with_args(&["game", "-skill", "5"])).unwrap().start_skill, SkillLevel::Nm);
    assert_eq!(read_skill(with_args(&["game", "-skill", "42"])).unwrap().start_skill, SkillLevel::Uv);
    assert_eq!(read_skill(with_args(&["game", "-skill"])).unwrap().start_skill, SkillLevel::Unset);
    assert_eq!(read_skill(with_args(&["game"])).unwrap().start_skill, SkillLevel::Unset);
}

#[test]
fn skill_that_does_not_exist_is_refused() {
    for value in ["0", "6", "9", "", "x", "/"] {
        assert_eq!(
            read_skill(with_args(&["game", "-skill", value])).err(),
            Some(StartupError::InvalidSkillLevel)
        );
    }
    assert_eq!(SkillLevel::try_from(5), Err(StartupError::InvalidSkillLevel));
    assert_eq!(SkillLevel::try_from(0), Ok(SkillLevel::Itytd));
    assert_eq!(SkillLevel::try_from(4), Ok(SkillLevel::Nm));
    assert_eq!(SkillLevel::Uv.name(), "Ultra-Violence");
    assert_eq!(SkillLevel::Itytd.name(), "I'm Too Young To Die");
}

#[test]
fn episode_is_read_from_its_first_byte() {
    assert_eq!(read_episode(with_args(&["game", "-episode", "3"])).unwrap().start_episode, 3);
    assert_eq!(read_episode(with_args(&["game", "-episode", "0"])).unwrap().start_episode, 0);
    assert_eq!(read_episode(with_args(&["game", "-episode", "21"])).unwrap().start_episode, 2);
    assert_eq!(read_episode(with_args(&["game", "-episode", "A"])).unwrap().start_episode, 17);
    assert_eq!(read_episode(with_args(&["game", "-episode", "!"])).unwrap().start_episode, 0);
    assert_eq!(read_episode(with_args(&["game", "-episode"])).unwrap().start_episode, 1);
    assert_eq!(
        read_episode(with_args(&["game", "-episode", ""])).err(),
        Some(StartupError::InvalidNumber)
    );
}

#[test]
fn warp_names_the_map_of_the_second_game() {
    let mut c = with_args(&["game", "-warp", "15"]);
    c.game_mode = GameMode::Commercial;
    let c = read_warp(c).unwrap();
    assert_eq!(c.start_map, 15);
    assert_eq!(c.start_episode, 1);
    assert!(c.autostart);
    let mut c = with_args(&["game", "-wart", "7th"]);
    c.game_mode = GameMode::Commercial;
    assert_eq!(read_warp(c).unwrap().start_map, 7);
    let mut c = with_args(&["game", "-warp", "x7"]);
    c.game_mode = GameMode::Commercial;
    let c = read_warp(c).unwrap();
    assert_eq!(c.start_map, 1);
    assert!(c.autostart);
}

#[test]
fn warp_names_episode_and_map_of_the_first_game() {
    let c = read_warp(with_args(&["game", "-warp", "2", "5"])).unwrap();
    assert_eq!((c.start_episode, c.start_map, c.autostart), (2, 5, true));
    let c = read_warp(with_args(&["game", "-warp", "3"])).unwrap();
    assert_eq!((c.start_episode, c.start_map, c.autostart), (3, 1, true));
    let c = read_warp(with_args(&["game", "-warp", "3", "-fast"])).unwrap();
    assert_eq!((c.start_episode, c.start_map), (3, 1));
    let c = read_warp(with_args(&["game", "-warp", "x", "5"])).unwrap();
    assert_eq!((c.start_episode, c.start_map, c.autostart), (1, 1, true));
    let c = read_warp(with_args(&["game", "-warp"])).unwrap();
    assert_eq!((c.start_episode, c.start_map, c.autostart), (1, 1, true));
    let c = read_warp(with_args(&["game"])).unwrap();
    assert_eq!((c.start_episode, c.start_map, c.autostart), (1, 1, false));
}

#[test]
fn warp_to_a_number_that_does_not_fit_is_refused() {
    let r = read_warp(with_args(&["game", "-warp", "99999999999999999999999999"]));
    assert_eq!(r.err(), Some(StartupError::InvalidNumber));
    let r = read_warp(with_args(&["game", "-warp", "1", "99999999999999999999999999"]));
    assert_eq!(r.err(), Some(StartupError::InvalidNumber));
}

#[test]
fn leading_number_is_read_from_the_first_group() {
    assert_eq!(leading_number(&None), Ok(None));
    let groups = Some(vec![Some(String::from("12")), Some(String::from("12"))]);
    assert_eq!(leading_number(&groups), Ok(Some(12)));
    let groups = Some(vec![Some(String::from("12"))]);
    assert_eq!(leading_number(&groups), Err(StartupError::InvalidNumber));
    let groups = Some(vec![Some(String::from("12")), None]);
    assert_eq!(leading_number(&groups), Err(StartupError::InvalidNumber));
    let groups = Some(vec![Some(String::from("x")), Some(String::from("x"))]);
    assert_eq!(leading_number(&groups), Err(StartupError::InvalidNumber));
}

#[test]
fn output_switches_are_read() {
    let c = read_output_switches(with_args(&["game", "-nosound", "-noblit"]));
    assert!(c.no_music && c.no_sfx && c.no_blit && !c.no_draw);
    let c = read_output_switches(with_args(&["game", "-nomusic", "-nodraw"]));
    assert!(c.no_music && !c.no_sfx && !c.no_blit && c.no_draw);
    let c = read_output_switches(with_args(&["game", "-nosfx"]));
    assert!(!c.no_music && c.no_sfx);
}

#[test]
fn view_angle_wraps_round() {
    assert_eq!(read_view_angle(with_args(&["game", "-viewangle", "0"])).view_angle_offset, 0);
    assert_eq!(
        read_view_angle(with_args(&["game", "-viewangle", "7"])).view_angle_offset,
        0x2000_0000
    );
    assert_eq!(
        read_view_angle(with_args(&["game", "-viewangle", "5"])).view_angle_offset,
        0x6000_0000
    );
    assert_eq!(
        read_view_angle(with_args(&["game", "-viewangle", "4"])).view_angle_offset,
        i32::MIN
    );
    assert_eq!(
        read_view_angle(with_args(&["game", "-viewangle", "1"])).view_angle_offset,
        -0x2000_0000
    );
    assert_eq!(
        read_view_angle(with_args(&["game", "-viewangle", "12"])).view_angle_offset,
        0x2000_0000
    );
    assert_eq!(read_view_angle(with_args(&["game", "-viewangle", "-3"])).view_angle_offset, 0);
    assert_eq!(read_view_angle(with_args(&["game", "-viewangle", "up"])).view_angle_offset, 0);
    assert_eq!(read_view_angle(with_args(&["game", "-viewangle"])).view_angle_offset, 0);
}

#[test]
fn command_line_is_taken_in_step_by_step() {
    let mut c = with_args(&[
        "game", "-fast", "-turbo", "200", "-skill", "4", "-episode", "2", "-warp", "3", "4",
        "-nomusic", "-viewangle", "6",
    ]);
    c.game_mode = GameMode::Registered;
    c.game_mission = GameMission::Doom;
    let c = read_command_line(c).unwrap();
    assert!(c.fastparm);
    assert_eq!(c.doom_ver_str, "DOOM Registered");
    assert_eq!(c.forward_move, [50, 100]);
    assert_eq!(c.start_skill, SkillLevel::Uv);
    assert_eq!((c.start_episode, c.start_map), (3, 4));
    assert!(c.autostart);
    assert!(c.no_music);
    assert_eq!(c.view_angle_offset, 0x4000_0000);
}

#[test]
fn first_failure_of_the_command_line_decides() {
    let r = read_command_line(with_args(&["game", "-skill", "9", "-episode", ""]));
    assert_eq!(r.err(), Some(StartupError::InvalidSkillLevel));
    let r = read_command_line(with_args(&["game", "-episode", "", "-warp", "99999999999999999999"]));
    assert_eq!(r.err(), Some(StartupError::InvalidNumber));
    let r = doom_main_setup(with_args(&["game", "-skill", "9", "-complevel", "99"]), 0);
    assert_eq!(r.err(), Some(StartupError::InvalidSkillLevel));
    let r = doom_main_setup(with_args(&["game", "-complevel", "99"]), 0);
    assert_eq!(r.err(), Some(StartupError::UnknownCompatibilityLevel));
}

#[test]
fn setup_begins_a_new_game() {
    let c = doom_main_setup(with_args(&["game", "-complevel", "2", "-skill", "2", "-respawn"]), 5).unwrap();
    assert_eq!(c.compatibility_level, CompatibilityLevel::Doom2V19);
    assert_eq!(c.start_skill, SkillLevel::Hntr);
    assert!(c.respawnparm);
    assert!(c.comp.comp_telefrag);
    assert!(c.comp.comp_vile);
    assert!(!c.comp.comp_maskedanim);
    assert_eq!(c.rngseed, 1998);
}

#[test]
fn compatibility_level_is_asked_on_the_command_line() {
    assert_eq!(
        get_compatibility_level(&with_args(&["game", "-complevel", "Boom"])),
        Ok(CompatibilityLevel::Boom)
    );
    assert_eq!(
        get_compatibility_level(&with_args(&["game", "-complevel", "0"])),
        Ok(CompatibilityLevel::DoomV12)
    );
    assert_eq!(
        get_compatibility_level(&with_args(&["game", "-complevel", "-1"])),
        Ok(CompatibilityLevel::PrBoomLatest)
    );
    assert_eq!(
        get_compatibility_level(&with_args(&["game", "-complevel"])),
        Ok(CompatibilityLevel::PrBoomLatest)
    );
    assert_eq!(get_compatibility_level(&with_args(&["game"])), Ok(CompatibilityLevel::PrBoomLatest));
    assert_eq!(
        get_compatibility_level(&with_args(&["game", "-complevel", "vanilla"])),
        Err(StartupError::UnknownCompatibilityLevel)
    );
    assert_eq!(
        get_compatibility_level(&with_args(&["game", "-complevel", "17", "-complevel", "18"])),
        Err(StartupError::UnknownCompatibilityLevel)
    );
}

#[test]
fn helper_dogs_are_asked_on_the_command_line() {
    assert_eq!(get_helpers(&with_args(&["game", "-dogs", "3"])).unwrap().get(), 3);
    assert_eq!(get_helpers(&with_args(&["game", "-dog", "0"])).unwrap().get(), 0);
    assert_eq!(get_helpers(&with_args(&["game", "-dogs"])).unwrap().get(), 1);
    assert_eq!(get_helpers(&with_args(&["game"])).unwrap().get(), 0);
    assert_eq!(
        get_helpers(&with_args(&["game", "-dogs", "4"])).err(),
        Some(StartupError::InvalidDogCount)
    );
    assert_eq!(
        get_helpers(&with_args(&["game", "-dogs", "-1"])).err(),
        Some(StartupError::InvalidDogCount)
    );
    assert_eq!(
        get_helpers(&with_args(&["game", "-dogs", "many"])).err(),
        Some(StartupError::InvalidDogCount)
    );
    assert_eq!(get_helpers(&with_args(&["game", "-dogs", "2", "-dog", "1"])).unwrap().get(), 1);
}

#[test]
fn new_game_takes_over_the_settings() {
    let mut c = with_args(&["game", "-dogs", "2", "-complevel", "Mbf"]);
    c.defaults.weapon_recoil = true;
    c.defaults.monster_backing = true;
    c.defaults.monkeys = true;
    c.defaults.comp_vile = true;
    c.defaults.comp_moveblock = true;
    c.defaults.monster_infighting = MonsterInfightingLevel::All;
    c.defaults.default_skill = SkillLevel::Nm;
    c.defaults.demo_insurance = DemoInsurance::Always;
    c.arg_meta = ArgMeta { nomonsters: true, respawnparm: false, fastparm: true };
    c.demo_playback = true;
    c.player_in_game = vec![true, true, true];
    c.console_player = 2;
    c.dog_jumping = true;
    c.gametic = -3;
    let c = reload_defaults(c, (1u64 << 32) + 10).unwrap();
    assert!(c.weapon_recoil);
    assert!(c.monster_backing);
    assert!(c.monkeys);
    assert!(c.dog_jumping);
    assert_eq!(c.monster_infighting, MonsterInfightingLevel::All);
    assert_eq!(c.dogs.get(), 2);
    assert!(c.nomonsters && c.fastparm && !c.respawnparm);
    assert_eq!(c.start_skill, SkillLevel::Nm);
    assert!(!c.demo_playback && !c.single_demo && !c.net_demo);
    assert_eq!(c.player_in_game, vec![true, false, false]);
    assert_eq!(c.console_player, 0);
    assert_eq!(c.compatibility_level, CompatibilityLevel::Mbf);
    assert!(c.comp.comp_vile);
    assert!(!c.comp.comp_moveblock);
    assert!(c.comp.comp_respawn);
    assert!(c.comp.comp_soul);
    assert_eq!(c.demo_insurance, DemoInsurance::Always);
    assert_eq!(c.rngseed, 2000);
}

#[test]
fn old_levels_force_the_old_behaviour() {
    let mut c = with_args(&["game", "-dogs", "2", "-complevel", "Boom"]);
    c.defaults.monster_backing = true;
    c.defaults.help_friends = true;
    c.defaults.monkeys = true;
    c.defaults.monster_infighting = MonsterInfightingLevel::All;
    c.defaults.comp_telefrag = false;
    c.dog_jumping = true;
    c.start_skill = SkillLevel::Hntr;
    let c = reload_defaults(c, 0).unwrap();
    assert_eq!(c.compatibility_level, CompatibilityLevel::Boom);
    assert_eq!(c.monster_infighting, MonsterInfightingLevel::OtherSpecies);
    assert!(!c.monster_backing && !c.help_friends && !c.monkeys && !c.dog_jumping);
    assert_eq!(c.dogs.get(), 0);
    assert!(c.comp.comp_telefrag);
    assert!(!c.comp.comp_floors);
    assert!(c.comp.comp_vile);
    assert_eq!(c.start_skill, SkillLevel::Hntr);
    assert_eq!(c.demo_insurance, DemoInsurance::Never);
    assert_eq!(c.rngseed, 1993);
}

#[test]
fn new_game_failures_are_reported_in_order() {
    let r = reload_defaults(with_args(&["game", "-dogs", "9", "-complevel", "99"]), 0);
    assert_eq!(r.err(), Some(StartupError::InvalidDogCount));
    let r = reload_defaults(with_args(&["game", "-dogs", "1", "-complevel", "99"]), 0);
    assert_eq!(r.err(), Some(StartupError::UnknownCompatibilityLevel));
    let mut c = with_args(&["game", "-dogs", "9"]);
    c.netgame = true;
    assert_eq!(reload_defaults(c, 0).unwrap().dogs.get(), 0);
}

#[test]
fn seed_moves_on_with_time_and_tic() {
    assert_eq!(reseed(1993, 0, 0), 1993);
    assert_eq!(reseed(1993, 7, 0), 2000);
    assert_eq!(reseed(u32::MAX, 1, 0), 0);
    assert_eq!(reseed(0, 0, -1), u32::MAX);
    assert_eq!(reseed(5, u64::MAX, 0), 4);
    assert_eq!(reseed(10, 0x1_0000_0005, -20), u32::MAX - 4);
}

#[test]
fn compatibility_shapes_flags_and_behaviour() {
    let mut c = with_args(&["game"]);
    c.compatibility_level = CompatibilityLevel::PrBoomV210211;
    c.monkeys = true;
    c.comp.comp_sound = true;
    let c = compatibility(c);
    assert!(c.monkeys);
    assert!(!c.comp.comp_sound);
    assert!(!c.comp.comp_respawn);
    assert!(c.comp.comp_soul);
    assert!(!c.comp.comp_666);
    let mut c = with_args(&["game"]);
    c.compatibility_level = CompatibilityLevel::TasDoom;
    c.monkeys = true;
    let c = compatibility(c);
    assert!(!c.monkeys);
    assert!(c.comp.comp_sound);
    assert!(c.comp.comp_floors);
}

#[test]
fn flags_below_mbf_ignore_the_settings() {
    let mut c = with_args(&["game"]);
    let plain = derive_flags(CompatibilityLevel::FinalDoom, &c.defaults);
    c.defaults.comp_vile = true;
    c.defaults.comp_telefrag = true;
    c.defaults.comp_ouchface = true;
    assert_eq!(derive_flags(CompatibilityLevel::FinalDoom, &c.defaults), plain);
    let configured = apply_configured_flags(&c.defaults);
    assert!(configured.comp_vile && configured.comp_telefrag && configured.comp_ouchface);
    assert!(!configured.comp_respawn);
    assert_eq!(derive_flags(CompatibilityLevel::PrBoomLatest, &c.defaults), configured);
}

#[test]
fn new_game_at_a_given_level() {
    let c = begin_new_game(with_args(&["game"]), CompatibilityLevel::Mbf, PlayerHelpers::new(3).unwrap(), 1);
    assert_eq!(c.dogs.get(), 3);
    assert_eq!(c.rngseed, 1994);
    assert_eq!(c.compatibility_level, CompatibilityLevel::Mbf);
}

#[test]
fn arguments_are_prepared() {
    let c = prepare_arguments(with_args(&["game", "a.wad", "-forceoldbsp"]));
    assert!(c.force_old_bsp);
    assert_eq!(c.args, vec!["game", "-file", "a.wad", "-forceoldbsp"]);
    assert!(!prepare_arguments(with_args(&["game"])).force_old_bsp);
}

#[test]
fn main_archive_is_looked_for_under_known_names() {
    let names = iwad_candidates(&with_args(&["game", "-iwad", "my.wad"]));
    assert_eq!(names, vec!["my.wad"]);
    let names = iwad_candidates(&with_args(&["game", "-iwad"]));
    assert_eq!(names.len(), 14);
    assert_eq!(names[0], "doom2f.wad");
    assert_eq!(names[13], "bfgdoom.wad");
    assert_eq!(standard_iwads()[2], "plutonia.wad");
    assert_eq!(iwad_candidates(&with_args(&["game"])), standard_iwads().to_vec());
}

#[test]
fn settings_file_is_named_on_the_command_line() {
    assert_eq!(read_config_file(with_args(&["game", "-config", "my.cfg"])).default_file, "my.cfg");
    assert_eq!(read_config_file(with_args(&["game", "-config"])).default_file, "ezboom.cfg");
    assert_eq!(read_config_file(with_args(&["game"])).default_file, "ezboom.cfg");
}

#[test]
fn resource_archive_is_listed() {
    let c = add_resource_wad(with_args(&["game"]), String::from("/data/ezboom.wad"));
    assert_eq!(c.wad_files.len(), 1);
    assert_eq!(c.wad_files[0].name, "/data/ezboom.wad");
    assert_eq!(c.wad_files[0].src, WadSource::Pre);
    assert_eq!(c.wad_files[0].handle, 0);
}
