use ezboom::configuration::Configuration;
use ezboom::doom::def::{GameMission, GameMode, Language};
use ezboom::error::StartupError;
use ezboom::iwad::{
    add_file, add_iwad, check_iwad, classify, file_is_named, identify_language, identify_mission,
    load_iwad, lump_fits, lump_names, tally_lumps, LumpPattern,
};
use ezboom::wad::{FileLump, WadInfo, WadSource};

fn name(text: &str) -> [u8; 8] {
    let mut bytes = [0u8; 8];
    for (i, b) in text.bytes().enumerate() {
        bytes[i] = b;
    }
    bytes
}

fn numbered_maps(count: usize) -> Vec<[u8; 8]> {
    (1..=count).map(|n| name(&format!("MAP{:02}", n))).collect()
}

fn episode_maps(episode: u8, count: usize) -> Vec<[u8; 8]> {
    (1..=count).map(|n| name(&format!("E{}M{}", episode, n))).collect()
}

fn directory(names: &[[u8; 8]]) -> Vec<FileLump> {
    names.iter().map(|n| FileLump { filepos: 0, size: 0, name: *n }).collect()
}

fn header(tag: &[u8; 4]) -> WadInfo {
    WadInfo { identification: *tag, numlumps: 0, infotableofs: 12 }
}

fn fresh() -> Configuration {
    Configuration::new(vec![String::from("ezboom")], String::from("ezboom.cfg"))
}

#[test]
fn thirty_numbered_maps_are_commercial() {
    let mut names = numbered_maps(30);
    names.extend(episode_maps(1, 9));
    names.push(name("PLAYPAL"));
    let c = classify(&names, true, "doom2.wad").unwrap();
    assert_eq!(c.game_mode, GameMode::Commercial);
    assert_eq!(c.game_mission, GameMission::Doom2);
    assert!(!c.has_wolf_levels);
    assert!(!c.bfg_edition);
}

#[test]
fn thirty_two_numbered_maps_have_the_wolf_levels() {
    let names = numbered_maps(32);
    let c = classify(&names, true, "doom2.wad").unwrap();
    assert_eq!(c.game_mode, GameMode::Commercial);
    assert!(c.has_wolf_levels);
    let tally = tally_lumps(&names);
    assert_eq!(tally.commercial_levels, 32);
    assert_eq!(tally.secret_levels, 2);
}

#[test]
fn nine_maps_of_the_first_episode_are_shareware() {
    let names = episode_maps(1, 9);
    let c = classify(&names, true, "doom1.wad").unwrap();
    assert_eq!(c.game_mode, GameMode::Shareware);
    assert_eq!(c.game_mission, GameMission::Doom);
    assert!(!c.has_wolf_levels);
}

#[test]
fn eight_maps_of_the_first_episode_are_undetermined() {
    let names = episode_maps(1, 8);
    let c = classify(&names, true, "doom1.wad").unwrap();
    assert_eq!(c.game_mode, GameMode::Undetermined);
    assert_eq!(c.game_mission, GameMission::NoMission);
}

#[test]
fn eighteen_maps_of_the_later_episodes_are_registered() {
    let mut names = episode_maps(1, 9);
    names.extend(episode_maps(2, 9));
    names.extend(episode_maps(3, 9));
    let c = classify(&names, true, "doom.wad").unwrap();
    assert_eq!(c.game_mode, GameMode::Registered);
    let tally = tally_lumps(&names);
    assert_eq!(tally.shareware_levels, 9);
    assert_eq!(tally.registered_levels, 18);
    assert_eq!(tally.ultdoom_levels, 0);
}

#[test]
fn nine_maps_of_the_fourth_episode_are_retail() {
    let mut names = episode_maps(1, 9);
    names.extend(episode_maps(2, 9));
    names.extend(episode_maps(3, 9));
    names.extend(episode_maps(4, 9));
    let c = classify(&names, true, "doomu.wad").unwrap();
    assert_eq!(c.game_mode, GameMode::Retail);
    assert_eq!(c.game_mission, GameMission::Doom);
}

#[test]
fn twenty_maps_beside_hacx_are_commercial() {
    let mut names = numbered_maps(20);
    assert_eq!(classify(&names, true, "hacx.wad").unwrap().game_mode, GameMode::Undetermined);
    names.push(name("HACX-R"));
    let c = classify(&names, true, "hacx.wad").unwrap();
    assert_eq!(c.game_mode, GameMode::Commercial);
    assert_eq!(c.game_mission, GameMission::Hacx);
}

#[test]
fn commercial_decides_before_retail() {
    let mut names = numbered_maps(30);
    names.extend(episode_maps(4, 9));
    assert_eq!(classify(&names, true, "x.wad").unwrap().game_mode, GameMode::Commercial);
}

#[test]
fn archive_without_tag_is_refused() {
    let names = numbered_maps(30);
    assert_eq!(classify(&names, false, "doom2.wad"), Err(StartupError::IwadTagMissing));
}

#[test]
fn bfg_edition_needs_no_tag() {
    let mut names = numbered_maps(30);
    names.push(name("DMENUPIC"));
    let c = classify(&names, false, "doom2.wad").unwrap();
    assert!(c.bfg_edition);
    assert_eq!(c.game_mode, GameMode::Commercial);
}

#[test]
fn two_markers_stand_in_for_the_tag() {
    let mut names = episode_maps(1, 9);
    names.push(name("W94_1"));
    assert_eq!(classify(&names, false, "chex.wad"), Err(StartupError::IwadTagMissing));
    names.push(name("POSSHOM0"));
    let c = classify(&names, false, "chex.wad").unwrap();
    assert_eq!(c.game_mode, GameMode::Shareware);
    assert_eq!(c.game_mission, GameMission::Chex);
}

#[test]
fn lump_names_must_fit_the_whole_pattern() {
    assert!(lump_fits(&name("E1M1"), LumpPattern::SharewareMap));
    assert!(!lump_fits(&name("E1M10"), LumpPattern::SharewareMap));
    assert!(!lump_fits(&name("E1MA"), LumpPattern::SharewareMap));
    assert!(!lump_fits(&name("E5M1"), LumpPattern::UltimateMap));
    assert!(lump_fits(&name("E2M9"), LumpPattern::RegisteredMap));
    assert!(lump_fits(&name("E3M1"), LumpPattern::RegisteredMap));
    assert!(lump_fits(&name("E4M2"), LumpPattern::UltimateMap));
    assert!(lump_fits(&name("MAP07"), LumpPattern::CommercialMap));
    assert!(!lump_fits(&name("MAP7"), LumpPattern::CommercialMap));
    assert!(!lump_fits(&name("MAP007"), LumpPattern::CommercialMap));
    assert!(!lump_fits(&name("MAPXX"), LumpPattern::CommercialMap));
    assert!(lump_fits(&name("MAP31"), LumpPattern::SecretMap));
    assert!(lump_fits(&name("MAP32"), LumpPattern::SecretMap));
    assert!(!lump_fits(&name("MAP33"), LumpPattern::SecretMap));
    assert!(lump_fits(&name("DMENUPIC"), LumpPattern::BfgMarker));
    assert!(!lump_fits(&name("DMENUPI"), LumpPattern::BfgMarker));
    assert!(lump_fits(&name("HACX"), LumpPattern::HacxLump));
    assert!(lump_fits(&name("HACXABCD"), LumpPattern::HacxLump));
    assert!(lump_fits(&name("W94_1"), LumpPattern::TagMarker));
    assert!(lump_fits(&name("W94_1XY"), LumpPattern::TagMarker));
    assert!(lump_fits(&name("POSSHOM0"), LumpPattern::TagMarker));
    assert!(!lump_fits(&name("POSSHOM"), LumpPattern::TagMarker));
}

#[test]
fn plutonia_is_told_by_the_file_name() {
    assert_eq!(
        identify_mission(GameMode::Commercial, "/games/plutonia.wad", GameMission::NoMission),
        GameMission::Plutonia
    );
    assert_eq!(
        identify_mission(GameMode::Commercial, "plutonia.wad", GameMission::Doom),
        GameMission::Plutonia
    );
}

#[test]
fn missions_follow_edition_and_file_name() {
    let none = GameMission::NoMission;
    assert_eq!(identify_mission(GameMode::Commercial, "tnt.wad", none), GameMission::TNT);
    assert_eq!(identify_mission(GameMode::Commercial, "hacx.wad", none), GameMission::Hacx);
    assert_eq!(identify_mission(GameMode::Commercial, "doom2.wad", none), GameMission::Doom2);
    assert_eq!(identify_mission(GameMode::Retail, "chex.wad", none), GameMission::Chex);
    assert_eq!(identify_mission(GameMode::Registered, "doom.wad", none), GameMission::Doom);
    assert_eq!(identify_mission(GameMode::Shareware, "plutonia.wad", none), GameMission::Doom);
    assert_eq!(identify_mission(GameMode::Commercial, "chex.wad", none), GameMission::Doom2);
    assert_eq!(identify_mission(GameMode::Undetermined, "tnt.wad", GameMission::Nerve), GameMission::Nerve);
    assert_eq!(identify_mission(GameMode::Commercial, "Plutonia.wad", none), GameMission::Doom2);
}

#[test]
fn french_edition_is_told_by_the_file_name() {
    assert_eq!(
        identify_language(GameMode::Commercial, "doom2f.wad", Language::English),
        Language::French
    );
    assert_eq!(
        identify_language(GameMode::Commercial, "doom2.wad", Language::English),
        Language::English
    );
    assert_eq!(
        identify_language(GameMode::Retail, "doom2f.wad", Language::English),
        Language::English
    );
}

#[test]
fn check_iwad_sets_edition_of_configuration() {
    let names = numbered_maps(32);
    let c = check_iwad(fresh(), &header(b"IWAD"), &directory(&names)).unwrap();
    assert_eq!(c.game_mode, GameMode::Commercial);
    assert!(c.has_wolf_levels);
    assert!(!c.bfg_edition);
    assert_eq!(c.game_mission, GameMission::NoMission);
}

#[test]
fn check_iwad_refuses_patch_archive() {
    let names = numbered_maps(32);
    let r = check_iwad(fresh(), &header(b"PWAD"), &directory(&names));
    assert_eq!(r.err(), Some(StartupError::IwadTagMissing));
}

#[test]
fn check_iwad_accepts_patch_archive_of_bfg_edition() {
    let mut names = episode_maps(1, 9);
    names.push(name("DMENUPIC"));
    let c = check_iwad(fresh(), &header(b"PWAD"), &directory(&names)).unwrap();
    assert!(c.bfg_edition);
    assert_eq!(c.game_mode, GameMode::Shareware);
    assert!(!c.has_wolf_levels);
}

#[test]
fn lump_names_are_taken_in_order() {
    let names = vec![name("E1M1"), name("MAP01")];
    assert_eq!(lump_names(&directory(&names)), names);
}

#[test]
fn add_iwad_names_mission_and_lists_the_archive() {
    let names = numbered_maps(30);
    let c = add_iwad(fresh(), "/games/tnt", &header(b"IWAD"), &directory(&names)).unwrap();
    assert_eq!(c.game_mode, GameMode::Commercial);
    assert_eq!(c.game_mission, GameMission::Doom2);
    assert_eq!(c.wad_files.len(), 1);
    assert_eq!(c.wad_files[0].name, "/games/tnt.wad");
    assert_eq!(c.wad_files[0].src, WadSource::Iwad);
    assert_eq!(c.wad_files[0].handle, 0);
    let c = add_iwad(fresh(), "/games/tnt.wad", &header(b"IWAD"), &directory(&names)).unwrap();
    assert_eq!(c.game_mission, GameMission::TNT);
    let c = add_iwad(fresh(), "doom2f.wad", &header(b"IWAD"), &directory(&names)).unwrap();
    assert_eq!(c.language, Language::French);
    assert_eq!(c.game_mission, GameMission::Doom2);
}

#[test]
fn add_iwad_refuses_what_is_no_main_archive() {
    let names = numbered_maps(30);
    let r = add_iwad(fresh(), "doom2.wad", &header(b"PWAD"), &directory(&names));
    assert_eq!(r.err(), Some(StartupError::IwadTagMissing));
}

#[test]
fn nerve_archive_overrides_the_mission() {
    let names = numbered_maps(30);
    let c = add_iwad(fresh(), "doom2.wad", &header(b"IWAD"), &directory(&names)).unwrap();
    assert_eq!(c.game_mission, GameMission::Doom2);
    let c = add_file(c, "/addons/nerve.wad", WadSource::Pwad);
    assert_eq!(c.game_mission, GameMission::Nerve);
    assert_eq!(c.wad_files.len(), 2);
    assert_eq!(c.wad_files[1].name, "/addons/nerve.wad");
    assert_eq!(c.wad_files[1].src, WadSource::Pwad);
    let c = add_file(fresh(), "nerve", WadSource::Pwad);
    assert_eq!(c.game_mission, GameMission::Nerve);
    let c = add_file(fresh(), "mynerve.wad", WadSource::Pwad);
    assert_eq!(c.game_mission, GameMission::NoMission);
}

#[test]
fn archive_named_by_extension_alone_gets_a_node_file() {
    let c = add_file(fresh(), "maps/.wad", WadSource::Pwad);
    assert_eq!(c.wad_files.len(), 2);
    assert_eq!(c.wad_files[0].name, "maps/.wad");
    assert_eq!(c.wad_files[1].name, "maps/.gwa");
    assert_eq!(c.wad_files[1].src, WadSource::Pwad);
    let c = add_file(fresh(), "maps/a.wad", WadSource::Pwad);
    assert_eq!(c.wad_files.len(), 1);
}

#[test]
fn file_names_are_whole_components() {
    assert!(file_is_named("nerve.wad", "nerve.wad"));
    assert!(file_is_named("a/nerve.wad", "nerve.wad"));
    assert!(file_is_named("a\\nerve.wad", "nerve.wad"));
    assert!(!file_is_named("anerve.wad", "nerve.wad"));
    assert!(!file_is_named("nerve.wad/x", "nerve.wad"));
    assert!(!file_is_named("", "nerve.wad"));
}

fn archive_bytes(tag: &[u8; 4], names: &[[u8; 8]]) -> Vec<u8> {
    let mut bytes = Vec::new();
    bytes.extend_from_slice(tag);
    bytes.extend_from_slice(&(names.len() as i32).to_le_bytes());
    bytes.extend_from_slice(&12i32.to_le_bytes());
    for n in names {
        bytes.extend_from_slice(&0i32.to_le_bytes());
        bytes.extend_from_slice(&0i32.to_le_bytes());
        bytes.extend_from_slice(n);
    }
    bytes
}

#[test]
fn main_archive_is_identified_from_its_bytes() {
    let bytes = archive_bytes(b"IWAD", &numbered_maps(32));
    let c = load_iwad(fresh(), "games/plutonia.wad", Some(&bytes)).unwrap();
    assert_eq!(c.game_mode, GameMode::Commercial);
    assert_eq!(c.game_mission, GameMission::Plutonia);
    assert!(c.has_wolf_levels);
    assert_eq!(c.wad_files.len(), 1);
    assert_eq!(c.wad_files[0].name, "games/plutonia.wad");
    let bytes = archive_bytes(b"IWAD", &episode_maps(1, 9));
    let c = load_iwad(fresh(), "doom1.wad", Some(&bytes)).unwrap();
    assert_eq!(c.game_mode, GameMode::Shareware);
    assert_eq!(c.game_mission, GameMission::Doom);
}

#[test]
fn archive_that_cannot_be_loaded_is_refused() {
    assert_eq!(load_iwad(fresh(), "doom2.wad", None).err(), Some(StartupError::FileUnreadable));
    assert_eq!(
        load_iwad(fresh(), "doom2.wad", Some(&[])).err(),
        Some(StartupError::DirectoryReadFailure)
    );
    let mut bytes = archive_bytes(b"IWAD", &numbered_maps(30));
    bytes.truncate(bytes.len() - 1);
    assert_eq!(
        load_iwad(fresh(), "doom2.wad", Some(&bytes)).err(),
        Some(StartupError::DirectoryReadFailure)
    );
    let bytes = archive_bytes(b"PWAD", &numbered_maps(30));
    assert_eq!(
        load_iwad(fresh(), "doom2.wad", Some(&bytes)).err(),
        Some(StartupError::IwadTagMissing)
    );
}

#[test]
fn lumps_of_one_name_are_counted_each() {
    let names = vec![name("MAP01"); 30];
    let tally = tally_lumps(&names);
    assert_eq!(tally.commercial_levels, 30);
    assert_eq!(tally.secret_levels, 0);
    assert_eq!(classify(&names, true, "doom2.wad").unwrap().game_mode, GameMode::Commercial);
    let names = vec![name("MAP31"), name("MAP31")];
    assert_eq!(tally_lumps(&names).secret_levels, 2);
}

#[test]
fn order_of_the_directory_does_not_matter() {
    let mut names = numbered_maps(32);
    names.extend(episode_maps(2, 5));
    names.push(name("HACX"));
    names.push(name("W94_1"));
    names.push(name("DMENUPIC"));
    let forward = tally_lumps(&names);
    names.reverse();
    assert_eq!(tally_lumps(&names), forward);
    assert_eq!(forward.registered_levels, 5);
    assert_eq!(forward.hacx_levels, 1);
    assert_eq!(forward.tag_markers, 1);
    assert!(forward.bfg_edition);
}
