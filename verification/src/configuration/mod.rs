//! The settings of the game: what the player configures, and what the
//! running game derives from it.

use vstd::prelude::*;

use crate::doom::def::{GameMission, GameMode, Language};
use crate::game::CompatibilityFlags;
use crate::misc::args::{ArgMeta, Args};
use crate::wad::WadFileInfo;

pub mod bounded;
pub mod defaults;
pub mod keys;
pub mod level;
pub mod options;

pub use bounded::{FriendDistance, PlayerHelpers};
pub use defaults::Defaults;
pub use level::CompatibilityLevel;
pub use options::{DemoInsurance, MonsterInfightingLevel, ScreenResolution, SkillLevel, VideoMode};

verus! {

/// Everything that the game knows while it starts and runs: the settings
/// of the player, the command line, and what was derived from both.
#[derive(Debug)]
pub struct Configuration {
    pub defaults: Defaults,
    pub args: Args,
    pub arg_meta: ArgMeta,
    pub nomonsters: bool,
    pub respawnparm: bool,
    pub fastparm: bool,
    pub devparm: bool,
    /// 0 for none, 1 for the old rules, 2 for the new rules.
    pub deathmatch: usize,
    pub force_old_bsp: bool,
    pub game_mode: GameMode,
    pub game_mission: GameMission,
    pub language: Language,
    /// Title of the game that is played.
    pub doom_ver_str: &'static str,
    pub bfg_edition: bool,
    pub has_wolf_levels: bool,
    pub save_game_base: String,
    pub start_skill: SkillLevel,
    pub start_episode: usize,
    pub start_map: usize,
    pub autostart: bool,
    pub wad_files: Vec<WadFileInfo>,
    pub forward_move: [i32; 2],
    pub side_move: [i32; 2],
    pub no_music: bool,
    pub no_sfx: bool,
    pub no_draw: bool,
    pub no_blit: bool,
    pub view_angle_offset: i32,
    pub default_file: String,
    pub netgame: bool,
    pub weapon_recoil: bool,
    pub player_bobbing: bool,
    pub variable_friction: bool,
    pub allow_pushers: bool,
    pub monsters_remember: bool,
    pub monster_infighting: MonsterInfightingLevel,
    pub monster_backing: bool,
    pub monster_avoid_hazards: bool,
    pub monster_friction: bool,
    pub dogs: PlayerHelpers,
    pub friend_distance: FriendDistance,
    pub help_friends: bool,
    pub monkeys: bool,
    pub demo_playback: bool,
    pub single_demo: bool,
    pub net_demo: bool,
    pub player_in_game: Vec<bool>,
    pub console_player: usize,
    pub compatibility_level: CompatibilityLevel,
    /// The quirks of the old engines that the running game imitates.
    pub comp: CompatibilityFlags,
    pub demo_insurance: DemoInsurance,
    pub dog_jumping: bool,
    pub rngseed: u32,
    pub gametic: i32,
    /// Whether the window of the game is open.
    pub has_window: bool,
    pub screen_resolutions_list: Vec<String>,
    pub screen_resolution: usize,
    pub screen_resolution_lowest: String,
    pub use_fullscreen: bool,
    pub desired_fullscreen: bool,
}

impl Configuration {
    /// Whether this is the configuration of a game that has not begun to
    /// start: nothing is identified or chosen yet, and the game play is
    /// as the settings have it.
    pub open spec fn is_fresh(&self) -> bool {
        &&& !self.nomonsters && !self.respawnparm && !self.fastparm && !self.devparm
        &&& self.arg_meta == (ArgMeta { nomonsters: false, respawnparm: false, fastparm: false })
        &&& self.deathmatch == 0
        &&& !self.force_old_bsp
        &&& self.game_mode == GameMode::Undetermined
        &&& self.game_mission == GameMission::NoMission
        &&& self.language == Language::English
        &&& self.doom_ver_str@.len() == 0
        &&& !self.bfg_edition && !self.has_wolf_levels
        &&& self.save_game_base@.len() == 0
        &&& self.start_skill == SkillLevel::Unset
        &&& self.start_episode == 1 && self.start_map == 1 && !self.autostart
        &&& self.wad_files@.len() == 0
        &&& self.forward_move@ == seq![0x19i32, 0x32i32]
        &&& self.side_move@ == seq![0x18i32, 0x28i32]
        &&& !self.no_music && !self.no_sfx && !self.no_draw && !self.no_blit
        &&& self.view_angle_offset == 0
        &&& !self.netgame
        &&& self.weapon_recoil == self.defaults.weapon_recoil
        &&& self.player_bobbing == self.defaults.player_bobbing
        &&& self.variable_friction == self.defaults.variable_friction
        &&& self.allow_pushers == self.defaults.allow_pushers
        &&& self.monsters_remember == self.defaults.monsters_remember
        &&& self.monster_infighting == self.defaults.monster_infighting
        &&& self.monster_backing == self.defaults.monster_backing
        &&& self.monster_avoid_hazards == self.defaults.monster_avoid_hazards
        &&& self.monster_friction == self.defaults.monster_friction
        &&& self.dogs == self.defaults.player_helpers
        &&& self.friend_distance == self.defaults.friend_distance
        &&& self.help_friends == self.defaults.help_friends
        &&& self.monkeys == self.defaults.monkeys
        &&& !self.demo_playback && !self.single_demo && !self.net_demo
        &&& self.player_in_game@ == seq![true]
        &&& self.console_player == 0
        &&& self.compatibility_level == self.defaults.default_compatibility_level
        &&& self.comp == self.defaults.configured_flags()
        &&& self.demo_insurance == self.defaults.demo_insurance
        &&& self.dog_jumping == self.defaults.dog_jumping
        &&& self.rngseed == 1993
        &&& self.gametic == 0
        &&& !self.has_window
        &&& self.screen_resolutions_list@.len() == 0
        &&& self.screen_resolution == 0
        &&& self.screen_resolution_lowest@.len() == 0
        &&& self.use_fullscreen == self.defaults.use_fullscreen
        &&& self.desired_fullscreen == self.defaults.use_fullscreen
    }

    /// The configuration of a game that has not begun to start, with the
    /// settings as they are before any settings file has been read.
    pub fn new(args: Args, default_file: String) -> (r: Configuration)
        ensures
            r.is_fresh(),
            r.defaults.is_initial(),
            r.args == args,
            r.default_file == default_file,
    {
        let defaults = Defaults::default();
        let mut player_in_game: Vec<bool> = Vec::new();
        player_in_game.push(true);
        let r = Configuration {
            args,
            arg_meta: ArgMeta::default(),
            nomonsters: false,
            respawnparm: false,
            fastparm: false,
            devparm: false,
            deathmatch: 0,
            force_old_bsp: false,
            game_mode: GameMode::Undetermined,
            game_mission: GameMission::NoMission,
            language: Language::English,
            doom_ver_str: "",
            bfg_edition: false,
            has_wolf_levels: false,
            save_game_base: String::new(),
            start_skill: SkillLevel::Unset,
            start_episode: 1,
            start_map: 1,
            autostart: false,
            wad_files: Vec::new(),
            forward_move: [0x19, 0x32],
            side_move: [0x18, 0x28],
            no_music: false,
            no_sfx: false,
            no_draw: false,
            no_blit: false,
            view_angle_offset: 0,
            default_file,
            netgame: false,
            weapon_recoil: defaults.weapon_recoil,
            player_bobbing: defaults.player_bobbing,
            variable_friction: defaults.variable_friction,
            allow_pushers: defaults.allow_pushers,
            monsters_remember: defaults.monsters_remember,
            monster_infighting: defaults.monster_infighting,
            monster_backing: defaults.monster_backing,
            monster_avoid_hazards: defaults.monster_avoid_hazards,
            monster_friction: defaults.monster_friction,
            dogs: defaults.player_helpers,
            friend_distance: defaults.friend_distance,
            help_friends: defaults.help_friends,
            monkeys: defaults.monkeys,
            demo_playback: false,
            single_demo: false,
            net_demo: false,
            player_in_game,
            console_player: 0,
            compatibility_level: defaults.default_compatibility_level,
            comp: defaults.comp_flags(),
            demo_insurance: defaults.demo_insurance,
            dog_jumping: defaults.dog_jumping,
            rngseed: 1993,
            gametic: 0,
            has_window: false,
            screen_resolutions_list: Vec::new(),
            screen_resolution: 0,
            screen_resolution_lowest: String::new(),
            use_fullscreen: defaults.use_fullscreen,
            desired_fullscreen: defaults.use_fullscreen,
            defaults,
        };
        proof {
            reveal_strlit("");
        }
        assert(r.forward_move@ =~= seq![0x19i32, 0x32i32]);
        assert(r.side_move@ =~= seq![0x18i32, 0x28i32]);
        assert(r.player_in_game@ =~= seq![true]);
        r
    }
}

} // verus!
