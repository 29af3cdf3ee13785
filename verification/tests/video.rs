use ezboom::configuration::options::{ScreenResolution, VideoMode};
use ezboom::configuration::Configuration;
use ezboom::error::StartupError;
use ezboom::search::{has_trailing_slash, search_path, standard_search_paths, SearchRoot};
use ezboom::defs::{BOOM_CFG, PACKAGE_NAME, PACKAGE_TARNAME, PACKAGE_VERSION};
use ezboom::system::{get_random_time_seed, version_string};
use ezboom::video::{
    fill_screen_resolutions_list, geometry_from, get_mode_from_string, init, init_mode,
    init_screen_resolution, mode_from_lowercase, name_of_mode, name_of_resolution,
    read_video_mode, DisplayMode,
};

fn with_args(list: &[&str]) -> Configuration {
    Configuration::new(list.iter().map(|s| s.to_string()).collect(), String::from("ezboom.cfg"))
}

fn modes(list: &[(i32, i32)]) -> Vec<DisplayMode> {
    list.iter().map(|(w, h)| DisplayMode { w: *w, h: *h }).collect()
}

#[test]
fn video_modes_are_named_in_any_case() {
    assert_eq!(get_mode_from_string("15"), VideoMode::Mode15);
    assert_eq!(get_mode_from_string("15BIT"), VideoMode::Mode15);
    assert_eq!(get_mode_from_string("16bit"), VideoMode::Mode16);
    assert_eq!(get_mode_from_string("32"), VideoMode::Mode32);
    assert_eq!(get_mode_from_string("32Bit"), VideoMode::Mode32);
    assert_eq!(get_mode_from_string("GL"), VideoMode::ModeGL);
    assert_eq!(get_mode_from_string("OpenGL"), VideoMode::ModeGL);
    assert_eq!(get_mode_from_string("8"), VideoMode::Mode8);
    assert_eq!(get_mode_from_string(""), VideoMode::Mode8);
    assert_eq!(get_mode_from_string("vulkan"), VideoMode::Mode8);
    assert_eq!(mode_from_lowercase("GL"), VideoMode::Mode8);
    assert_eq!(mode_from_lowercase("gl"), VideoMode::ModeGL);
}

#[test]
fn only_the_mode_with_eight_bits_is_noted() {
    init();
    assert_eq!(init_mode(VideoMode::Mode8), Some("video::init_mode: using 8 bit video mode\n"));
    assert_eq!(init_mode(VideoMode::Mode15), None);
    assert_eq!(init_mode(VideoMode::Mode16), None);
    assert_eq!(init_mode(VideoMode::Mode32), None);
    assert_eq!(init_mode(VideoMode::ModeGL), None);
}

#[test]
fn modes_and_resolutions_are_named() {
    assert_eq!(name_of_mode(&DisplayMode { w: 640, h: 480 }), "640x480");
    assert_eq!(name_of_mode(&DisplayMode { w: -1, h: 0 }), "-1x0");
    assert_eq!(name_of_resolution(&ScreenResolution { width: 1920, height: 1080 }), "1920x1080");
}

#[test]
fn resolutions_are_listed_from_the_last_mode_on() {
    let desired = ScreenResolution { width: 800, height: 600 };
    let offered = modes(&[(1024, 768), (800, 600), (640, 480)]);
    let c = fill_screen_resolutions_list(with_args(&["game"]), &offered, &desired);
    assert_eq!(c.screen_resolutions_list, vec!["640x480", "800x600", "1024x768"]);
    assert_eq!(c.screen_resolution, 1);
    assert_eq!(c.screen_resolution_lowest, "640x480");
}

#[test]
fn resolution_that_is_not_offered_comes_first() {
    let desired = ScreenResolution { width: 320, height: 200 };
    let offered = modes(&[(1024, 768), (640, 480)]);
    let c = fill_screen_resolutions_list(with_args(&["game"]), &offered, &desired);
    assert_eq!(c.screen_resolutions_list, vec!["320x200", "640x480", "1024x768"]);
    assert_eq!(c.screen_resolution, 0);
    assert_eq!(c.screen_resolution_lowest, "640x480");
}

#[test]
fn listing_ends_at_a_mode_that_is_listed_already() {
    let desired = ScreenResolution { width: 1024, height: 768 };
    let offered = modes(&[(1024, 768), (640, 480), (800, 600), (640, 480)]);
    let c = fill_screen_resolutions_list(with_args(&["game"]), &offered, &desired);
    assert_eq!(c.screen_resolutions_list, vec!["1024x768", "640x480", "800x600"]);
    assert_eq!(c.screen_resolution, 0);
}

#[test]
fn list_without_modes_holds_the_wish_alone() {
    let desired = ScreenResolution { width: 640, height: 480 };
    let c = fill_screen_resolutions_list(with_args(&["game"]), &[], &desired);
    assert_eq!(c.screen_resolutions_list, vec!["640x480"]);
    assert_eq!(c.screen_resolution, 0);
    assert_eq!(c.screen_resolution_lowest, "");
    let mut blind = with_args(&["game"]);
    blind.no_draw = true;
    let c = fill_screen_resolutions_list(blind, &modes(&[(800, 600)]), &desired);
    assert_eq!(c.screen_resolutions_list, vec!["640x480"]);
    assert_eq!(c.screen_resolution_lowest, "");
}

#[test]
fn list_that_is_filled_stays() {
    let desired = ScreenResolution { width: 640, height: 480 };
    let mut c = with_args(&["game"]);
    c.screen_resolutions_list = vec![String::from("1x1")];
    c.screen_resolution = 0;
    let c = fill_screen_resolutions_list(c, &modes(&[(800, 600)]), &desired);
    assert_eq!(c.screen_resolutions_list, vec!["1x1"]);
    assert_eq!(c.screen_resolution_lowest, "");
}

#[test]
fn geometry_decides_on_the_full_screen() {
    let (c, mode) = init_screen_resolution(with_args(&["game", "-geom", "800x600f"]), &[]).unwrap();
    assert!(c.desired_fullscreen);
    assert!(!c.use_fullscreen);
    assert_eq!(mode, VideoMode::ModeGL);
    let (c, _) =
        init_screen_resolution(with_args(&["game", "-fullscreen", "-geometry", "800X600w"]), &[])
            .unwrap();
    assert!(!c.desired_fullscreen);
    assert!(c.use_fullscreen);
    let (c, _) =
        init_screen_resolution(with_args(&["game", "-fullscreen", "-geom", "800x600"]), &[]).unwrap();
    assert!(c.desired_fullscreen);
    let (c, _) =
        init_screen_resolution(with_args(&["game", "-fullscreen", "-geom", "wide"]), &[]).unwrap();
    assert!(c.desired_fullscreen);
}

#[test]
fn full_screen_follows_the_switches() {
    let (c, _) = init_screen_resolution(with_args(&["game", "-fullscreen"]), &[]).unwrap();
    assert!(c.use_fullscreen && c.desired_fullscreen);
    let (c, _) =
        init_screen_resolution(with_args(&["game", "-fullscreen", "-nofullscreen"]), &[]).unwrap();
    assert!(!c.use_fullscreen && !c.desired_fullscreen);
    let (c, _) = init_screen_resolution(with_args(&["game", "-window"]), &[]).unwrap();
    assert!(!c.use_fullscreen && c.desired_fullscreen);
    let (c, _) =
        init_screen_resolution(with_args(&["game", "-fullscreen", "-nowindow"]), &[]).unwrap();
    assert!(c.use_fullscreen && !c.desired_fullscreen);
}

#[test]
fn screen_setup_fills_the_list() {
    let mut c = with_args(&["game", "-vidmode", "32"]);
    c.defaults.screen_resolution = ScreenResolution { width: 640, height: 480 };
    let (c, mode) = init_screen_resolution(c, &modes(&[(800, 600), (640, 480)])).unwrap();
    assert_eq!(mode, VideoMode::Mode32);
    assert_eq!(c.screen_resolutions_list, vec!["640x480", "800x600"]);
    assert_eq!(c.screen_resolution, 0);
}

#[test]
fn open_window_leaves_the_screen_as_it_is() {
    let mut c = with_args(&["game", "-fullscreen", "-width", "x", "-vidmode", "16bit"]);
    c.has_window = true;
    let (c, mode) = init_screen_resolution(c, &modes(&[(800, 600)])).unwrap();
    assert_eq!(mode, VideoMode::Mode16);
    assert!(!c.use_fullscreen);
    assert!(c.screen_resolutions_list.is_empty());
}

#[test]
fn sizes_that_are_no_numbers_are_refused() {
    let r = init_screen_resolution(with_args(&["game", "-width", "wide"]), &[]);
    assert_eq!(r.err(), Some(StartupError::InvalidNumber));
    let r = init_screen_resolution(with_args(&["game", "-height", "-5"]), &[]);
    assert_eq!(r.err(), Some(StartupError::InvalidNumber));
    let r = init_screen_resolution(with_args(&["game", "-width", "800", "-height", "600"]), &[]);
    assert!(r.is_ok());
    let r = init_screen_resolution(
        with_args(&["game", "-geom", "99999999999999999999999x600"]),
        &[],
    );
    assert_eq!(r.err(), Some(StartupError::InvalidNumber));
}

#[test]
fn geometry_is_read_from_its_groups() {
    let text = |s: &str| Some(String::from(s));
    assert_eq!(geometry_from(&None), Ok(None));
    let groups = Some(vec![text("8x6f"), text("8"), text("6"), text("f")]);
    assert_eq!(geometry_from(&groups), Ok(Some(true)));
    let groups = Some(vec![text("8x6w"), text("8"), text("6"), text("w")]);
    assert_eq!(geometry_from(&groups), Ok(Some(false)));
    let groups = Some(vec![text("8x6 "), text("8"), text("6"), text(" ")]);
    assert_eq!(geometry_from(&groups), Ok(None));
    let groups = Some(vec![text("8x6"), text("8"), text("6"), None]);
    assert_eq!(geometry_from(&groups), Ok(None));
    let groups = Some(vec![text("8x6"), text("8"), text("6")]);
    assert_eq!(geometry_from(&groups), Ok(None));
    let groups = Some(vec![text("8x6"), text("8")]);
    assert_eq!(geometry_from(&groups), Err(StartupError::InvalidNumber));
    let groups = Some(vec![text("8x6"), None, text("6"), None]);
    assert_eq!(geometry_from(&groups), Err(StartupError::InvalidNumber));
}

#[test]
fn video_mode_is_asked_on_the_command_line() {
    assert_eq!(read_video_mode(&with_args(&["game"])), VideoMode::ModeGL);
    assert_eq!(read_video_mode(&with_args(&["game", "-vidmode"])), VideoMode::ModeGL);
    assert_eq!(read_video_mode(&with_args(&["game", "-vidmode", "15"])), VideoMode::Mode15);
    assert_eq!(read_video_mode(&with_args(&["game", "-vidmode", "best"])), VideoMode::Mode8);
}

#[test]
fn paths_are_joined_with_slashes() {
    assert_eq!(search_path(Some("/usr/share"), Some("doom"), "doom2.wad"), "/usr/share/doom/doom2.wad");
    assert_eq!(search_path(Some("/usr/share/"), Some("doom/"), "doom2.wad"), "/usr/share/doom/doom2.wad");
    assert_eq!(search_path(None, None, "doom2.wad"), "doom2.wad");
    assert_eq!(search_path(Some(""), None, "doom2.wad"), "/doom2.wad");
    assert_eq!(search_path(None, Some("doom"), "doom2.wad"), "doom/doom2.wad");
    assert!(has_trailing_slash("a/"));
    assert!(!has_trailing_slash("a"));
    assert!(!has_trailing_slash(""));
}

#[test]
fn files_are_looked_for_in_twelve_places() {
    let places = standard_search_paths();
    assert_eq!(places.len(), 12);
    assert!(matches!(places[0].root, SearchRoot::ExeDir));
    assert!(matches!(places[1].root, SearchRoot::Nowhere));
    assert!(matches!(places[2].root, SearchRoot::Env("DOOMWADDIR")));
    assert!(matches!(places[3].root, SearchRoot::Absolute("/usr/share/games/doom")));
    assert!(matches!(places[6].root, SearchRoot::Env("HOME")));
    assert_eq!(places[6].subdir, Some("doom/pwad/all"));
    assert_eq!(places[7].subdir, None);
    assert!(matches!(places[11].root, SearchRoot::Absolute("/usr/share/doom")));
}

#[test]
fn version_names_program_and_number() {
    assert_eq!(version_string(), "ezboom v0.1.0");
    assert_eq!(version_string(), format!("{} v{}", PACKAGE_NAME, PACKAGE_VERSION));
    assert_eq!(format!("{}.cfg", PACKAGE_TARNAME), BOOM_CFG);
    assert!(get_random_time_seed() > 1_000_000_000);
}
