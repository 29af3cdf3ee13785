use ezboom::configuration::bounded::{
    FriendDistance, Percentage, PlayerHelpers, PositiveInt, SampleRate, SmoothTurnsFactor, Volume,
};
use ezboom::configuration::defaults::automap::{default_automapmode, default_mapcolor_back};
use ezboom::configuration::defaults::compat::{default_comp_zombie, default_comp_translucency};
use ezboom::configuration::defaults::game::{
    default_body_queue_size, default_default_compatibility_level, default_default_skill,
    default_demo_patterns_mask, default_demo_smoothturns, default_endoom_mode,
    default_player_helpers, default_wad_files, default_weapon_choice_1,
};
use ezboom::configuration::defaults::input::{default_key_right, default_key_use, default_mouseb_fire};
use ezboom::configuration::defaults::music::default_mus_e1m1;
use ezboom::configuration::defaults::sound::{default_samplerate, default_snd_soundfont, default_sound_card};
use ezboom::configuration::defaults::video::{default_screen_resolution, default_videomode};
use ezboom::configuration::defaults::Defaults;
use ezboom::configuration::keys::Key;
use ezboom::configuration::level::CompatibilityLevel;
use ezboom::configuration::options::{
    AutomapMode, DemoInsurance, EndoomMode, MonsterInfightingLevel, MouseButton, OptionalLimit,
    ScreenResolution, SkillLevel, SoundCard, VideoMode,
};
use ezboom::configuration::Configuration;
use ezboom::doom::def::{GameMission, GameMode, Language};
use ezboom::error::StartupError;
use ezboom::logic::mobj::MobjFlag;
use ezboom::runtime_config::RuntimeConfig;
use ezboom::tables::{ANG1, ANG180, ANG270, ANG45, ANG90, ANGLE_MAX};

#[test]
fn bounded_numbers_hold_what_lies_within() {
    assert_eq!(PlayerHelpers::new(0).map(|v| v.get()), Some(0));
    assert_eq!(PlayerHelpers::new(3).map(|v| v.get()), Some(3));
    assert!(PlayerHelpers::new(4).is_none());
    assert!(PlayerHelpers::new(-1).is_none());
    assert_eq!(FriendDistance::new(999).map(|v| v.get()), Some(999));
    assert!(FriendDistance::new(1000).is_none());
    assert_eq!(PositiveInt::new(i32::MAX - 1).map(|v| v.get()), Some(i32::MAX - 1));
    assert!(PositiveInt::new(i32::MAX).is_none());
    assert!(SampleRate::new(11024).is_none());
    assert_eq!(SampleRate::new(11025).map(|v| v.get()), Some(11025));
    assert_eq!(SampleRate::new(48000).map(|v| v.get()), Some(48000));
    assert!(SampleRate::new(48001).is_none());
    assert_eq!(Volume::new(15).map(|v| v.get()), Some(15));
    assert!(Volume::new(16).is_none());
    assert_eq!(PlayerHelpers::MIN_VALUE, 0);
    assert_eq!(PlayerHelpers::MAX_VALUE, 3);
    assert_eq!(Percentage::MAX_VALUE, 100);
    assert_eq!(PlayerHelpers::new(2), PlayerHelpers::new(2));
}

#[test]
fn bounded_numbers_start_nearest_to_zero() {
    assert_eq!(PlayerHelpers::default().get(), 0);
    assert_eq!(SmoothTurnsFactor::default().get(), 1);
    assert_eq!(SampleRate::default().get(), 11025);
    assert_eq!(Percentage::default().get(), 0);
}

#[test]
fn settings_have_their_defaults() {
    assert_eq!(default_default_compatibility_level(), CompatibilityLevel::PrBoomLatest);
    assert_eq!(default_default_skill(), SkillLevel::Hmp);
    assert_eq!(default_player_helpers().get(), 0);
    assert!(default_comp_zombie());
    assert!(!default_comp_translucency());
    assert_eq!(default_samplerate().get(), 44100);
    assert_eq!(default_snd_soundfont(), "TimGM6mb.sf2");
    assert_eq!(default_sound_card(), SoundCard::AutoDetect);
    assert_eq!(default_videomode(), VideoMode::ModeGL);
    assert_eq!(default_screen_resolution(), ScreenResolution { width: 640, height: 480 });
    assert_eq!(default_key_right().bits, Key::RIGHTARROW);
    assert_eq!(default_key_use().bits, Key::SPACEBAR);
    assert_eq!(default_mouseb_fire(), MouseButton::Button0);
    assert_eq!(default_mapcolor_back(), 247);
    assert_eq!(default_mus_e1m1(), "e1m1.mp3");
    assert_eq!(default_weapon_choice_1().get(), 6);
    assert!(default_wad_files().is_empty());
    assert_eq!(
        default_endoom_mode(),
        EndoomMode { colors: true, non_ascii_chars: false, skip_last_line: true }
    );
    assert_eq!(
        default_automapmode(),
        AutomapMode { active: false, overlay: false, rotate: false, follow: true, grid: false }
    );
    let turns = default_demo_smoothturns();
    assert!(turns.enabled);
    assert_eq!(turns.factor.get(), 6);
    match default_body_queue_size() {
        OptionalLimit::Limit(limit) => assert_eq!(limit.get(), 32),
        OptionalLimit::NoLimit => panic!("a limit is set"),
    }
}

#[test]
fn demo_patterns_name_nine_sets() {
    let patterns = default_demo_patterns_mask();
    assert_eq!(patterns.len(), 9);
    assert_eq!(
        patterns[0],
        "DOOM 2: Hell on Earth/((lv)|(nm)|(pa)|(ty))\\d\\d.\\d\\d\\d\\.lmp/doom2.wad"
    );
    assert_eq!(patterns[8], "Memento Mori 2/m2\\d\\d.\\d\\d\\d\\.lmp/doom2.wad|mm2.wad|mm2mus.wad");
}

#[test]
fn settings_start_empty() {
    let defaults = Defaults::default();
    assert!(!defaults.menu_background);
    assert!(!defaults.comp_zombie);
    assert_eq!(defaults.default_compatibility_level, CompatibilityLevel::PrBoomLatest);
    assert_eq!(defaults.default_skill, SkillLevel::Hmp);
    assert_eq!(defaults.demo_insurance, DemoInsurance::DuringDemoRecording);
    assert_eq!(defaults.monster_infighting, MonsterInfightingLevel::OtherSpecies);
    assert_eq!(defaults.player_helpers.get(), 0);
    assert_eq!(defaults.samplerate.get(), 11025);
    assert_eq!(defaults.snd_soundfont, "");
    assert_eq!(defaults.key_right.bits, Key::NONE);
    assert_eq!(defaults.videomode, VideoMode::ModeGL);
    assert_eq!(defaults.screen_resolution, ScreenResolution { width: 0, height: 0 });
    assert!(defaults.demo_patterns_mask.is_empty());
    let flags = defaults.comp_flags();
    assert!(!flags.comp_vile && !flags.comp_respawn);
}

#[test]
fn fresh_configuration_knows_nothing_yet() {
    let c = Configuration::new(vec![String::from("game")], String::from("my.cfg"));
    assert_eq!(c.args, vec!["game"]);
    assert_eq!(c.default_file, "my.cfg");
    assert_eq!(c.game_mode, GameMode::Undetermined);
    assert_eq!(c.game_mission, GameMission::NoMission);
    assert_eq!(c.language, Language::English);
    assert_eq!(c.doom_ver_str, "");
    assert_eq!(c.start_skill, SkillLevel::Unset);
    assert_eq!((c.start_episode, c.start_map), (1, 1));
    assert_eq!(c.forward_move, [0x19, 0x32]);
    assert_eq!(c.side_move, [0x18, 0x28]);
    assert_eq!(c.player_in_game, vec![true]);
    assert_eq!(c.compatibility_level, CompatibilityLevel::PrBoomLatest);
    assert_eq!(c.rngseed, 1993);
    assert_eq!(c.gametic, 0);
    assert!(c.wad_files.is_empty());
    assert!(!c.has_window);
    assert!(!c.bfg_edition && !c.has_wolf_levels && !c.netgame);
}

#[test]
fn levels_have_names_and_positions() {
    let names = [
        "DoomV12", "DoomV1666", "Doom2V19", "UltimateDoom", "FinalDoom", "DosDoom", "TasDoom",
        "Boom", "BoomV201", "BoomV202", "LxDoomV1", "Mbf", "PrBoomV203Beta", "PrBoomV210211",
        "PrBoomV22x", "PrBoomV23x", "PrBoomV240", "PrBoomLatest",
    ];
    for (n, name) in names.iter().enumerate() {
        let level = CompatibilityLevel::try_from_primitive(n as i32).unwrap();
        assert_eq!(level.as_str(), *name);
        assert_eq!(level.to_primitive(), n as i32);
        assert_eq!(CompatibilityLevel::from_name(name), Some(level));
        assert_eq!(level.is_before(CompatibilityLevel::Mbf), n < 11);
    }
    assert_eq!(CompatibilityLevel::try_from_primitive(18), None);
    assert_eq!(CompatibilityLevel::from_name("Doom"), None);
    assert_eq!(CompatibilityLevel::default(), CompatibilityLevel::PrBoomLatest);
}

#[test]
fn failures_describe_themselves() {
    assert_eq!(StartupError::IwadTagMissing.message(), "the data archive carries no IWAD tag");
    assert_eq!(StartupError::UnknownCompatibilityLevel.message(), "unknown compatibility level");
    for e in [
        StartupError::FileUnreadable,
        StartupError::DirectoryReadFailure,
        StartupError::InvalidSkillLevel,
        StartupError::InvalidDogCount,
        StartupError::InvalidNumber,
        StartupError::ParameterConflict,
        StartupError::RunawayQuote,
        StartupError::InvalidResponseText,
    ] {
        assert!(!e.message().is_empty());
    }
}

#[test]
fn keys_and_flags_have_their_codes() {
    assert_eq!(Key::RIGHTARROW, 0xae);
    assert_eq!(Key::F1, 0xbb);
    assert_eq!(Key::LALT, Key::RALT);
    assert_eq!(Key::KEYPAD0, 0x130);
    assert_eq!(Key::KEYPADENTER, 0x10d);
    assert_eq!(Key::of(Key::ESCAPE).bits(), 27);
    assert_eq!(Key::default().bits, 0);
    assert_eq!(MobjFlag::SOLID, 0x2);
    assert_eq!(MobjFlag::TRANSLATION, 0xc000000);
    assert_eq!(MobjFlag::FLY, 0x20000000000);
    let flags = MobjFlag { bits: MobjFlag::SOLID | MobjFlag::SHOOTABLE };
    assert_eq!(flags.into_bits(), 6);
    assert!(flags.contains(MobjFlag { bits: MobjFlag::SOLID }));
    assert!(!flags.contains(MobjFlag { bits: MobjFlag::SPECIAL }));
    assert_eq!(ANG45 * 2, ANG90);
    assert_eq!(ANG90 * 2, ANG180);
    assert_eq!(ANG180 + ANG90, ANG270);
    assert_eq!(ANG1, 0x20000000 / 45);
    assert_eq!(ANGLE_MAX, 0xffffffff);
}

#[test]
fn running_game_starts_with_all_switches_off() {
    let r = RuntimeConfig::default();
    assert!(!r.nomonsters && !r.respawnparm && !r.fastparm && !r.devparm);
    assert_eq!(r.deathmatch, 0);
}
