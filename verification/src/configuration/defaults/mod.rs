//! The settings that the player keeps in the settings file, and the value
//! that each has where the file does not name it, one function for each
//! setting.

use vstd::prelude::*;

use crate::configuration::bounded::{
    AmbientLight, BufferBits, CapFps, DetailMaxDistance, DoublePercentage, Fov, FriendDistance,
    Gain, GammaCorrectionLevel, GlGamma, Height, HudNum, MapGridSize, MapScrollSpeed, MessageLines,
    MouseStrafeDivisor, MultisamplingLevel, PatchScale, Percentage, PlayerHelpers, PositiveInt,
    ProcessPriority, RightAngle, SampleRate, ScreenFactor, Screenblocks, ShadowFactor,
    ShadowMaxDistance, SkyDetail, SoundChannels, SpeedStep, SpriteOffset, Volume, Weapon,
    WeaponAttackAlignment, Width, XPosition, YPosition,
};
use crate::configuration::keys::Key;
use crate::configuration::level::CompatibilityLevel;
use crate::configuration::options::{
    AmmoColorBehavior, AnisotropicFilter, AspectRatio, AutomapMode, Color, Crosshair, DemoInsurance,
    DemoSmoothTurns, EndoomMode, Filter, HqResizeMode, InterpolationMethod, Keycode, LauncherEnable,
    LightMode, MapThingsAppearance, MidiPlayer, Milliseconds, MonsterInfightingLevel, MouseButton,
    MusicCard, MusicPauseOption, OptionalLimit, PatchFilter, PatchStretch, ScreenResolution,
    SkillLevel, SkyType, SlopedEdgeType, SoundCard, SpriteClip, SpriteDoomOrder, SpriteFilter,
    TextColor, TextureFilter, VideoMode, ZFilter,
};
use crate::game::CompatibilityFlags;

pub mod automap;
pub mod compat;
pub mod emulation;
pub mod game;
pub mod hud;
pub mod input;
pub mod music;
pub mod render;
pub mod sound;
pub mod video;

verus! {

/// The settings of the player. The running game takes its own settings
/// from these whenever a new game begins.
#[derive(Debug)]
pub struct Defaults {
    pub process_priority: ProcessPriority,
    pub default_compatibility_level: CompatibilityLevel,
    pub realtic_clock_rate: PositiveInt,
    pub menu_background: bool,
    pub body_queue_size: OptionalLimit,
    pub flashing_hom: bool,
    pub demo_insurance: DemoInsurance,
    pub endoom_mode: EndoomMode,
    pub level_precache: bool,
    pub demo_smoothturns: DemoSmoothTurns,
    pub boom_autoswitch: bool,
    pub wad_files: Vec<String>,
    pub deh_files: Vec<String>,
    pub default_skill: SkillLevel,
    pub weapon_recoil: bool,
    pub doom_weapon_toggles: bool,
    pub player_bobbing: bool,
    pub weapon_attack_alignment: WeaponAttackAlignment,
    pub monsters_remember: bool,
    pub monster_infighting: MonsterInfightingLevel,
    pub monster_backing: bool,
    pub monster_avoid_hazards: bool,
    pub monkeys: bool,
    pub monster_friction: bool,
    pub help_friends: bool,
    pub allow_pushers: bool,
    pub variable_friction: bool,
    pub player_helpers: PlayerHelpers,
    pub friend_distance: FriendDistance,
    pub dog_jumping: bool,
    pub sts_always_red: bool,
    pub sts_pct_always_gray: bool,
    pub sts_traditional_keys: bool,
    pub sts_armorcolor_type: bool,
    pub show_messages: bool,
    pub autorun: bool,
    pub deh_apply_cheats: bool,
    pub comp_zombie: bool,
    pub comp_infcheat: bool,
    pub comp_stairs: bool,
    pub comp_telefrag: bool,
    pub comp_dropoff: bool,
    pub comp_falloff: bool,
    pub comp_staylift: bool,
    pub comp_doorstuck: bool,
    pub comp_pursuit: bool,
    pub comp_vile: bool,
    pub comp_pain: bool,
    pub comp_skull: bool,
    pub comp_blazing: bool,
    pub comp_doorlight: bool,
    pub comp_god: bool,
    pub comp_skymap: bool,
    pub comp_floors: bool,
    pub comp_model: bool,
    pub comp_zerotags: bool,
    pub comp_moveblock: bool,
    pub comp_sound: bool,
    pub comp_666: bool,
    pub comp_soul: bool,
    pub comp_maskedanim: bool,
    pub comp_ouchface: bool,
    pub comp_maxhealth: bool,
    pub comp_translucency: bool,
    pub snd_pcspeaker: bool,
    pub sound_card: SoundCard,
    pub music_card: MusicCard,
    pub pitched_sounds: bool,
    pub samplerate: SampleRate,
    pub sfx_volume: Volume,
    pub music_volume: Volume,
    pub mus_pause_opt: MusicPauseOption,
    pub snd_channels: SoundChannels,
    pub snd_midiplayer: MidiPlayer,
    pub snd_soundfont: String,
    pub snd_mididev: String,
    pub mus_extend_volume: bool,
    pub mus_fluidsynth_chorus: bool,
    pub mus_fluidsynth_reverb: bool,
    pub mus_fluidsynth_gain: Gain,
    pub mus_opl_gain: Gain,
    pub videomode: VideoMode,
    pub screen_resolution: ScreenResolution,
    pub use_fullscreen: bool,
    pub render_vsync: bool,
    pub translucency: bool,
    pub tran_filter_pct: Percentage,
    pub screenblocks: Screenblocks,
    pub usegamma: GammaCorrectionLevel,
    pub uncapped_framerate: bool,
    pub test_interpolation_method: InterpolationMethod,
    pub filter_wall: Filter,
    pub filter_floor: Filter,
    pub filter_sprite: Filter,
    pub filter_z: ZFilter,
    pub filter_patch: Filter,
    pub filter_threshold: PositiveInt,
    pub sprite_edges: SlopedEdgeType,
    pub patch_edges: SlopedEdgeType,
    pub gl_compatibility: bool,
    pub gl_arb_multitexture: bool,
    pub gl_arb_texture_compression: bool,
    pub gl_arb_texture_non_power_of_two: bool,
    pub gl_ext_arb_vertex_buffer_object: bool,
    pub gl_arb_pixel_buffer_object: bool,
    pub gl_arb_shader_objects: bool,
    pub gl_ext_blend_color: bool,
    pub gl_ext_framebuffer_object: bool,
    pub gl_ext_packed_depth_stencil: bool,
    pub gl_ext_texture_filter_anisotropic: bool,
    pub gl_use_stencil: bool,
    pub gl_use_display_lists: bool,
    pub gl_finish: bool,
    pub gl_clear: bool,
    pub gl_ztrick: bool,
    pub gl_nearclip: PositiveInt,
    pub gl_colorbuffer_bits: BufferBits,
    pub gl_depthbuffer_bits: BufferBits,
    pub gl_texture_filter: TextureFilter,
    pub gl_sprite_filter: SpriteFilter,
    pub gl_patch_filter: PatchFilter,
    pub gl_texture_filter_anisotropic: AnisotropicFilter,
    pub gl_tex_format_string: String,
    pub gl_sprite_offset: SpriteOffset,
    pub gl_sprite_blend: bool,
    pub gl_mask_sprite_threshold: Percentage,
    pub gl_skymode: SkyType,
    pub gl_sky_detail: SkyDetail,
    pub gl_use_paletted_texture: bool,
    pub gl_use_shared_texture_palette: bool,
    pub use_mouse: bool,
    pub mouse_sensitivity_horiz: PositiveInt,
    pub mouse_sensitivity_vert: PositiveInt,
    pub mouseb_fire: MouseButton,
    pub mouseb_strafe: MouseButton,
    pub mouseb_forward: MouseButton,
    pub mouseb_backward: MouseButton,
    pub mouseb_use: MouseButton,
    pub key_right: Keycode,
    pub key_left: Keycode,
    pub key_up: Keycode,
    pub key_down: Keycode,
    pub key_mlook: Keycode,
    pub key_menu_right: Keycode,
    pub key_menu_left: Keycode,
    pub key_menu_up: Keycode,
    pub key_menu_down: Keycode,
    pub key_menu_backspace: Keycode,
    pub key_menu_escape: Keycode,
    pub key_menu_enter: Keycode,
    pub key_menu_clear: Keycode,
    pub key_setup: Keycode,
    pub key_strafeleft: Keycode,
    pub key_straferight: Keycode,
    pub key_flyup: Keycode,
    pub key_flydown: Keycode,
    pub key_fire: Keycode,
    pub key_use: Keycode,
    pub key_strafe: Keycode,
    pub key_speed: Keycode,
    pub key_savegame: Keycode,
    pub key_loadgame: Keycode,
    pub key_soundvolume: Keycode,
    pub key_hud: Keycode,
    pub key_quicksave: Keycode,
    pub key_endgame: Keycode,
    pub key_messages: Keycode,
    pub key_quickload: Keycode,
    pub key_quit: Keycode,
    pub key_gamma: Keycode,
    pub key_spy: Keycode,
    pub key_pause: Keycode,
    pub key_autorun: Keycode,
    pub key_chat: Keycode,
    pub key_backspace: Keycode,
    pub key_enter: Keycode,
    pub key_map: Keycode,
    pub key_map_right: Keycode,
    pub key_map_left: Keycode,
    pub key_map_up: Keycode,
    pub key_map_down: Keycode,
    pub key_map_zoomin: Keycode,
    pub key_map_zoomout: Keycode,
    pub key_map_gobig: Keycode,
    pub key_map_follow: Keycode,
    pub key_map_mark: Keycode,
    pub key_map_clear: Keycode,
    pub key_map_grid: Keycode,
    pub key_map_rotate: Keycode,
    pub key_map_overlay: Keycode,
    pub key_map_textured: Keycode,
    pub key_reverse: Keycode,
    pub key_zoomin: Keycode,
    pub key_zoomout: Keycode,
    pub key_chatplayer1: Keycode,
    pub key_chatplayer2: Keycode,
    pub key_chatplayer3: Keycode,
    pub key_chatplayer4: Keycode,
    pub key_weapontoggle: Keycode,
    pub key_weapon1: Keycode,
    pub key_weapon2: Keycode,
    pub key_weapon3: Keycode,
    pub key_weapon4: Keycode,
    pub key_weapon5: Keycode,
    pub key_weapon6: Keycode,
    pub key_weapon7: Keycode,
    pub key_weapon8: Keycode,
    pub key_weapon9: Keycode,
    pub key_nextweapon: Keycode,
    pub key_prevweapon: Keycode,
    pub key_screenshot: Keycode,
    pub use_joystick: bool,
    pub joy_left: usize,
    pub joy_right: usize,
    pub joy_up: usize,
    pub joy_down: usize,
    pub joyb_fire: usize,
    pub joyb_strafe: usize,
    pub joyb_strafeleft: usize,
    pub joyb_straferight: usize,
    pub joyb_speed: usize,
    pub joyb_use: usize,
    pub chatmacro0: String,
    pub chatmacro1: String,
    pub chatmacro2: String,
    pub chatmacro3: String,
    pub chatmacro4: String,
    pub chatmacro5: String,
    pub chatmacro6: String,
    pub chatmacro7: String,
    pub chatmacro8: String,
    pub chatmacro9: String,
    pub mapcolor_back: Color,
    pub mapcolor_grid: Color,
    pub mapcolor_wall: Color,
    pub mapcolor_fchg: Color,
    pub mapcolor_cchg: Color,
    pub mapcolor_clsd: Color,
    pub mapcolor_rkey: Color,
    pub mapcolor_bkey: Color,
    pub mapcolor_ykey: Color,
    pub mapcolor_rdor: Color,
    pub mapcolor_bdor: Color,
    pub mapcolor_ydor: Color,
    pub mapcolor_tele: Color,
    pub mapcolor_secr: Color,
    pub mapcolor_exit: Color,
    pub mapcolor_unsn: Color,
    pub mapcolor_flat: Color,
    pub mapcolor_sprt: Color,
    pub mapcolor_item: Color,
    pub mapcolor_hair: Color,
    pub mapcolor_sngl: Color,
    pub mapcolor_me: Color,
    pub mapcolor_enemy: Color,
    pub mapcolor_frnd: Color,
    pub map_secret_after: bool,
    pub map_point_coord: bool,
    pub map_level_stat: bool,
    pub automapmode: AutomapMode,
    pub map_always_updates: bool,
    pub map_grid_size: MapGridSize,
    pub map_scroll_speed: MapScrollSpeed,
    pub map_wheel_zoom: bool,
    pub map_use_multisampling: bool,
    pub map_textured: bool,
    pub map_textured_trans: Percentage,
    pub map_textured_overlay_trans: Percentage,
    pub map_lines_overlay_trans: Percentage,
    pub map_overlay_pos_x: XPosition,
    pub map_overlay_pos_y: YPosition,
    pub map_overlay_pos_width: Width,
    pub map_overlay_pos_height: Height,
    pub map_things_appearance: MapThingsAppearance,
    pub hudcolor_titl: TextColor,
    pub hudcolor_xyco: TextColor,
    pub hudcolor_mapstat_title: TextColor,
    pub hudcolor_mapstat_value: TextColor,
    pub hudcolor_mapstat_time: TextColor,
    pub hudcolor_mesg: TextColor,
    pub hudcolor_chat: TextColor,
    pub hudcolor_list: TextColor,
    pub hud_msg_lines: MessageLines,
    pub hud_list_bgon: bool,
    pub health_red: DoublePercentage,
    pub health_yellow: DoublePercentage,
    pub health_green: DoublePercentage,
    pub armor_red: DoublePercentage,
    pub armor_yellow: DoublePercentage,
    pub armor_green: DoublePercentage,
    pub ammo_red: Percentage,
    pub ammo_yellow: Percentage,
    pub ammo_colour_behaviour: AmmoColorBehavior,
    pub hud_num: HudNum,
    pub hud_displayed: bool,
    pub key_speedup: Keycode,
    pub key_speeddown: Keycode,
    pub key_speeddefault: Keycode,
    pub speed_step: SpeedStep,
    pub key_demo_skip: Keycode,
    pub key_level_restart: Keycode,
    pub key_nextlevel: Keycode,
    pub key_demo_jointogame: Keycode,
    pub key_demo_endlevel: Keycode,
    pub key_walkcamera: Keycode,
    pub key_showalive: Keycode,
    pub hudadd_gamespeed: bool,
    pub hudadd_leveltime: bool,
    pub hudadd_demotime: bool,
    pub hudadd_secretarea: bool,
    pub hudadd_smarttotals: bool,
    pub hudadd_demoprogressbar: bool,
    pub hudadd_crosshair: Crosshair,
    pub hudadd_crosshair_scale: bool,
    pub hudadd_crosshair_color: TextColor,
    pub hudadd_crosshair_health: bool,
    pub hudadd_crosshair_target: bool,
    pub hudadd_crosshair_target_color: TextColor,
    pub hudadd_crosshair_lock_target: bool,
    pub mouse_acceleration: PositiveInt,
    pub mouse_sensitivity_mlook: PositiveInt,
    pub mouse_doubleclick_as_use: bool,
    pub mouse_carrytics: bool,
    pub demo_extendedformat: bool,
    pub demo_demoex_filename: String,
    pub getwad_cmdline: String,
    pub demo_overwriteexisting: bool,
    pub quickstart_window_ms: Milliseconds,
    pub movement_strafe50: bool,
    pub movement_shorttics: bool,
    pub interpolation_maxobjects: PositiveInt,
    pub showendoom: bool,
    pub screenshot_dir: String,
    pub health_bar: bool,
    pub health_bar_full_length: bool,
    pub health_bar_red: Percentage,
    pub health_bar_yellow: Percentage,
    pub health_bar_green: Percentage,
    pub cap_soundcommand: String,
    pub cap_videocommand: String,
    pub cap_muxcommand: String,
    pub cap_tempfile1: String,
    pub cap_tempfile2: String,
    pub cap_remove_tempfiles: bool,
    pub cap_fps: CapFps,
    pub sdl_video_window_pos: String,
    pub palette_ondamage: bool,
    pub palette_onbonus: bool,
    pub palette_onpowers: bool,
    pub render_wipescreen: bool,
    pub render_screen_multiply: ScreenFactor,
    pub render_aspect: AspectRatio,
    pub render_doom_lightmaps: bool,
    pub fake_contrast: bool,
    pub render_stretch_hud: PatchStretch,
    pub render_patches_scalex: PatchScale,
    pub render_patches_scaley: PatchScale,
    pub render_stretchsky: bool,
    pub sprites_doom_order: SpriteDoomOrder,
    pub movement_mouselook: bool,
    pub movement_maxviewpitch: RightAngle,
    pub movement_mousestrafedivisor: MouseStrafeDivisor,
    pub movement_mouseinvert: bool,
    pub gl_allow_detail_textures: bool,
    pub gl_detail_maxdist: DetailMaxDistance,
    pub render_multisampling: MultisamplingLevel,
    pub render_fov: Fov,
    pub gl_spriteclip: SpriteClip,
    pub gl_spriteclip_threshold: Percentage,
    pub gl_sprites_frustum_culling: bool,
    pub render_paperitems: bool,
    pub gl_boom_colormaps: bool,
    pub gl_hires_24bit_colormap: bool,
    pub gl_texture_internal_hires: bool,
    pub gl_texture_external_hires: bool,
    pub gl_hires_override_pwads: bool,
    pub gl_texture_hires_dir: String,
    pub gl_texture_hqresize: bool,
    pub gl_texture_hqresize_textures: HqResizeMode,
    pub gl_texture_hqresize_sprites: HqResizeMode,
    pub gl_texture_hqresize_patches: HqResizeMode,
    pub gl_motionblur: bool,
    pub gl_lightmode: LightMode,
    pub gl_light_ambient: AmbientLight,
    pub gl_fog: bool,
    pub gl_fog_color: Color,
    pub useglgamma: GlGamma,
    pub gl_color_mip_levels: bool,
    pub gl_shadows: bool,
    pub gl_shadows_maxdist: ShadowMaxDistance,
    pub gl_shadows_factor: ShadowFactor,
    pub gl_blend_animations: bool,
    pub overrun_spechit_warn: bool,
    pub overrun_spechit_emulate: bool,
    pub overrun_reject_warn: bool,
    pub overrun_reject_emulate: bool,
    pub overrun_intercept_warn: bool,
    pub overrun_intercept_emulate: bool,
    pub overrun_playeringame_warn: bool,
    pub overrun_playeringame_emulate: bool,
    pub overrun_donut_warn: bool,
    pub overrun_donut_emulate: bool,
    pub overrun_missedbackside_warn: bool,
    pub overrun_missedbackside_emulate: bool,
    pub comperr_zerotag: bool,
    pub comperr_passuse: bool,
    pub comperr_hangsolid: bool,
    pub comperr_blockmap: bool,
    pub comperr_allowjump: bool,
    pub comperr_freeaim: bool,
    pub launcher_enable: LauncherEnable,
    pub launcher_history: Vec<String>,
    pub demo_patterns_mask: Vec<String>,
    pub weapon_choice_1: Weapon,
    pub weapon_choice_2: Weapon,
    pub weapon_choice_3: Weapon,
    pub weapon_choice_4: Weapon,
    pub weapon_choice_5: Weapon,
    pub weapon_choice_6: Weapon,
    pub weapon_choice_7: Weapon,
    pub weapon_choice_8: Weapon,
    pub weapon_choice_9: Weapon,
    pub mus_e1m1: String,
    pub mus_e1m2: String,
    pub mus_e1m3: String,
    pub mus_e1m4: String,
    pub mus_e1m5: String,
    pub mus_e1m6: String,
    pub mus_e1m7: String,
    pub mus_e1m8: String,
    pub mus_e1m9: String,
    pub mus_e2m1: String,
    pub mus_e2m2: String,
    pub mus_e2m3: String,
    pub mus_e2m4: String,
    pub mus_e2m5: String,
    pub mus_e2m6: String,
    pub mus_e2m7: String,
    pub mus_e2m8: String,
    pub mus_e2m9: String,
    pub mus_e3m1: String,
    pub mus_e3m2: String,
    pub mus_e3m3: String,
    pub mus_e3m4: String,
    pub mus_e3m5: String,
    pub mus_e3m6: String,
    pub mus_e3m7: String,
    pub mus_e3m8: String,
    pub mus_e3m9: String,
    pub mus_inter: String,
    pub mus_intro: String,
    pub mus_bunny: String,
    pub mus_victor: String,
    pub mus_introa: String,
    pub mus_runnin: String,
    pub mus_stalks: String,
    pub mus_countd: String,
    pub mus_betwee: String,
    pub mus_doom: String,
    pub mus_the_da: String,
    pub mus_shawn: String,
    pub mus_ddtblu: String,
    pub mus_in_cit: String,
    pub mus_dead: String,
    pub mus_stlks2: String,
    pub mus_theda2: String,
    pub mus_doom2: String,
    pub mus_ddtbl2: String,
    pub mus_runni2: String,
    pub mus_dead2: String,
    pub mus_stlks3: String,
    pub mus_romero: String,
    pub mus_shawn2: String,
    pub mus_messag: String,
    pub mus_count2: String,
    pub mus_ddtbl3: String,
    pub mus_ampie: String,
    pub mus_theda3: String,
    pub mus_adrian: String,
    pub mus_messg2: String,
    pub mus_romer2: String,
    pub mus_tense: String,
    pub mus_shawn3: String,
    pub mus_openin: String,
    pub mus_evil: String,
    pub mus_ultima: String,
    pub mus_read_m: String,
    pub mus_dm2ttl: String,
    pub mus_dm2int: String,
}

impl Defaults {
    /// Whether every setting is as it is before any settings file has
    /// been read: switches are off, texts and lists are empty, each choice
    /// is the usual one of its kind, and each number is the one within
    /// its bounds that is nearest to zero.
    pub open spec fn is_initial(&self) -> bool {
        &&& self.process_priority@ == 0
        &&& self.default_compatibility_level == CompatibilityLevel::PrBoomLatest
        &&& self.realtic_clock_rate@ == 0
        &&& !self.menu_background
        &&& self.body_queue_size == OptionalLimit::NoLimit
        &&& !self.flashing_hom
        &&& self.demo_insurance == DemoInsurance::DuringDemoRecording
        &&& self.endoom_mode == (EndoomMode {
            colors: false,
            non_ascii_chars: false,
            skip_last_line: false,
        })
        &&& !self.level_precache
        &&& !self.demo_smoothturns.enabled
        &&& self.demo_smoothturns.factor@ == 1
        &&& !self.boom_autoswitch
        &&& self.wad_files@.len() == 0
        &&& self.deh_files@.len() == 0
        &&& self.default_skill == SkillLevel::Hmp
        &&& !self.weapon_recoil
        &&& !self.doom_weapon_toggles
        &&& !self.player_bobbing
        &&& self.weapon_attack_alignment@ == 0
        &&& !self.monsters_remember
        &&& self.monster_infighting == MonsterInfightingLevel::OtherSpecies
        &&& !self.monster_backing
        &&& !self.monster_avoid_hazards
        &&& !self.monkeys
        &&& !self.monster_friction
        &&& !self.help_friends
        &&& !self.allow_pushers
        &&& !self.variable_friction
        &&& self.player_helpers@ == 0
        &&& self.friend_distance@ == 0
        &&& !self.dog_jumping
        &&& !self.sts_always_red
        &&& !self.sts_pct_always_gray
        &&& !self.sts_traditional_keys
        &&& !self.sts_armorcolor_type
        &&& !self.show_messages
        &&& !self.autorun
        &&& !self.deh_apply_cheats
        &&& !self.comp_zombie
        &&& !self.comp_infcheat
        &&& !self.comp_stairs
        &&& !self.comp_telefrag
        &&& !self.comp_dropoff
        &&& !self.comp_falloff
        &&& !self.comp_staylift
        &&& !self.comp_doorstuck
        &&& !self.comp_pursuit
        &&& !self.comp_vile
        &&& !self.comp_pain
        &&& !self.comp_skull
        &&& !self.comp_blazing
        &&& !self.comp_doorlight
        &&& !self.comp_god
        &&& !self.comp_skymap
        &&& !self.comp_floors
        &&& !self.comp_model
        &&& !self.comp_zerotags
        &&& !self.comp_moveblock
        &&& !self.comp_sound
        &&& !self.comp_666
        &&& !self.comp_soul
        &&& !self.comp_maskedanim
        &&& !self.comp_ouchface
        &&& !self.comp_maxhealth
        &&& !self.comp_translucency
        &&& !self.snd_pcspeaker
        &&& self.sound_card == SoundCard::AutoDetect
        &&& self.music_card == SoundCard::AutoDetect
        &&& !self.pitched_sounds
        &&& self.samplerate@ == 11025
        &&& self.sfx_volume@ == 0
        &&& self.music_volume@ == 0
        &&& self.mus_pause_opt == MusicPauseOption::ContinueWhenPaused
        &&& self.snd_channels@ == 1
        &&& self.snd_midiplayer == MidiPlayer::Opl
        &&& self.snd_soundfont@.len() == 0
        &&& self.snd_mididev@.len() == 0
        &&& !self.mus_extend_volume
        &&& !self.mus_fluidsynth_chorus
        &&& !self.mus_fluidsynth_reverb
        &&& self.mus_fluidsynth_gain@ == 0
        &&& self.mus_opl_gain@ == 0
        &&& self.videomode == VideoMode::ModeGL
        &&& self.screen_resolution == (ScreenResolution { width: 0, height: 0 })
        &&& !self.use_fullscreen
        &&& !self.render_vsync
        &&& !self.translucency
        &&& self.tran_filter_pct@ == 0
        &&& self.screenblocks@ == 3
        &&& self.usegamma@ == 0
        &&& !self.uncapped_framerate
        &&& self.test_interpolation_method == InterpolationMethod::Fixme0
        &&& self.filter_wall == Filter::Off
        &&& self.filter_floor == Filter::Off
        &&& self.filter_sprite == Filter::Off
        &&& self.filter_z == ZFilter::Point
        &&& self.filter_patch == Filter::Off
        &&& self.filter_threshold@ == 0
        &&& self.sprite_edges == SlopedEdgeType::Square
        &&& self.patch_edges == SlopedEdgeType::Square
        &&& !self.gl_compatibility
        &&& !self.gl_arb_multitexture
        &&& !self.gl_arb_texture_compression
        &&& !self.gl_arb_texture_non_power_of_two
        &&& !self.gl_ext_arb_vertex_buffer_object
        &&& !self.gl_arb_pixel_buffer_object
        &&& !self.gl_arb_shader_objects
        &&& !self.gl_ext_blend_color
        &&& !self.gl_ext_framebuffer_object
        &&& !self.gl_ext_packed_depth_stencil
        &&& !self.gl_ext_texture_filter_anisotropic
        &&& !self.gl_use_stencil
        &&& !self.gl_use_display_lists
        &&& !self.gl_finish
        &&& !self.gl_clear
        &&& !self.gl_ztrick
        &&& self.gl_nearclip@ == 0
        &&& self.gl_colorbuffer_bits@ == 16
        &&& self.gl_depthbuffer_bits@ == 16
        &&& self.gl_texture_filter == TextureFilter::NearestMipmapLinear
        &&& self.gl_sprite_filter == SpriteFilter::NearestMipmapLinear
        &&& self.gl_patch_filter == PatchFilter::Nearest
        &&& self.gl_texture_filter_anisotropic == AnisotropicFilter::On16x
        &&& self.gl_tex_format_string@.len() == 0
        &&& self.gl_sprite_offset@ == 0
        &&& !self.gl_sprite_blend
        &&& self.gl_mask_sprite_threshold@ == 0
        &&& self.gl_skymode == SkyType::Auto
        &&& self.gl_sky_detail@ == 1
        &&& !self.gl_use_paletted_texture
        &&& !self.gl_use_shared_texture_palette
        &&& !self.use_mouse
        &&& self.mouse_sensitivity_horiz@ == 0
        &&& self.mouse_sensitivity_vert@ == 0
        &&& self.mouseb_fire == MouseButton::Unbound
        &&& self.mouseb_strafe == MouseButton::Unbound
        &&& self.mouseb_forward == MouseButton::Unbound
        &&& self.mouseb_backward == MouseButton::Unbound
        &&& self.mouseb_use == MouseButton::Unbound
        &&& self.key_right.bits == Key::NONE
        &&& self.key_left.bits == Key::NONE
        &&& self.key_up.bits == Key::NONE
        &&& self.key_down.bits == Key::NONE
        &&& self.key_mlook.bits == Key::NONE
        &&& self.key_menu_right.bits == Key::NONE
        &&& self.key_menu_left.bits == Key::NONE
        &&& self.key_menu_up.bits == Key::NONE
        &&& self.key_menu_down.bits == Key::NONE
        &&& self.key_menu_backspace.bits == Key::NONE
        &&& self.key_menu_escape.bits == Key::NONE
        &&& self.key_menu_enter.bits == Key::NONE
        &&& self.key_menu_clear.bits == Key::NONE
        &&& self.key_setup.bits == Key::NONE
        &&& self.key_strafeleft.bits == Key::NONE
        &&& self.key_straferight.bits == Key::NONE
        &&& self.key_flyup.bits == Key::NONE
        &&& self.key_flydown.bits == Key::NONE
        &&& self.key_fire.bits == Key::NONE
        &&& self.key_use.bits == Key::NONE
        &&& self.key_strafe.bits == Key::NONE
        &&& self.key_speed.bits == Key::NONE
        &&& self.key_savegame.bits == Key::NONE
        &&& self.key_loadgame.bits == Key::NONE
        &&& self.key_soundvolume.bits == Key::NONE
        &&& self.key_hud.bits == Key::NONE
        &&& self.key_quicksave.bits == Key::NONE
        &&& self.key_endgame.bits == Key::NONE
        &&& self.key_messages.bits == Key::NONE
        &&& self.key_quickload.bits == Key::NONE
        &&& self.key_quit.bits == Key::NONE
        &&& self.key_gamma.bits == Key::NONE
        &&& self.key_spy.bits == Key::NONE
        &&& self.key_pause.bits == Key::NONE
        &&& self.key_autorun.bits == Key::NONE
        &&& self.key_chat.bits == Key::NONE
        &&& self.key_backspace.bits == Key::NONE
        &&& self.key_enter.bits == Key::NONE
        &&& self.key_map.bits == Key::NONE
        &&& self.key_map_right.bits == Key::NONE
        &&& self.key_map_left.bits == Key::NONE
        &&& self.key_map_up.bits == Key::NONE
        &&& self.key_map_down.bits == Key::NONE
        &&& self.key_map_zoomin.bits == Key::NONE
        &&& self.key_map_zoomout.bits == Key::NONE
        &&& self.key_map_gobig.bits == Key::NONE
        &&& self.key_map_follow.bits == Key::NONE
        &&& self.key_map_mark.bits == Key::NONE
        &&& self.key_map_clear.bits == Key::NONE
        &&& self.key_map_grid.bits == Key::NONE
        &&& self.key_map_rotate.bits == Key::NONE
        &&& self.key_map_overlay.bits == Key::NONE
        &&& self.key_map_textured.bits == Key::NONE
        &&& self.key_reverse.bits == Key::NONE
        &&& self.key_zoomin.bits == Key::NONE
        &&& self.key_zoomout.bits == Key::NONE
        &&& self.key_chatplayer1.bits == Key::NONE
        &&& self.key_chatplayer2.bits == Key::NONE
        &&& self.key_chatplayer3.bits == Key::NONE
        &&& self.key_chatplayer4.bits == Key::NONE
        &&& self.key_weapontoggle.bits == Key::NONE
        &&& self.key_weapon1.bits == Key::NONE
        &&& self.key_weapon2.bits == Key::NONE
        &&& self.key_weapon3.bits == Key::NONE
        &&& self.key_weapon4.bits == Key::NONE
        &&& self.key_weapon5.bits == Key::NONE
        &&& self.key_weapon6.bits == Key::NONE
        &&& self.key_weapon7.bits == Key::NONE
        &&& self.key_weapon8.bits == Key::NONE
        &&& self.key_weapon9.bits == Key::NONE
        &&& self.key_nextweapon.bits == Key::NONE
        &&& self.key_prevweapon.bits == Key::NONE
        &&& self.key_screenshot.bits == Key::NONE
        &&& !self.use_joystick
        &&& self.joy_left == 0
        &&& self.joy_right == 0
        &&& self.joy_up == 0
        &&& self.joy_down == 0
        &&& self.joyb_fire == 0
        &&& self.joyb_strafe == 0
        &&& self.joyb_strafeleft == 0
        &&& self.joyb_straferight == 0
        &&& self.joyb_speed == 0
        &&& self.joyb_use == 0
        &&& self.chatmacro0@.len() == 0
        &&& self.chatmacro1@.len() == 0
        &&& self.chatmacro2@.len() == 0
        &&& self.chatmacro3@.len() == 0
        &&& self.chatmacro4@.len() == 0
        &&& self.chatmacro5@.len() == 0
        &&& self.chatmacro6@.len() == 0
        &&& self.chatmacro7@.len() == 0
        &&& self.chatmacro8@.len() == 0
        &&& self.chatmacro9@.len() == 0
        &&& self.mapcolor_back == 0
        &&& self.mapcolor_grid == 0
        &&& self.mapcolor_wall == 0
        &&& self.mapcolor_fchg == 0
        &&& self.mapcolor_cchg == 0
        &&& self.mapcolor_clsd == 0
        &&& self.mapcolor_rkey == 0
        &&& self.mapcolor_bkey == 0
        &&& self.mapcolor_ykey == 0
        &&& self.mapcolor_rdor == 0
        &&& self.mapcolor_bdor == 0
        &&& self.mapcolor_ydor == 0
        &&& self.mapcolor_tele == 0
        &&& self.mapcolor_secr == 0
        &&& self.mapcolor_exit == 0
        &&& self.mapcolor_unsn == 0
        &&& self.mapcolor_flat == 0
        &&& self.mapcolor_sprt == 0
        &&& self.mapcolor_item == 0
        &&& self.mapcolor_hair == 0
        &&& self.mapcolor_sngl == 0
        &&& self.mapcolor_me == 0
        &&& self.mapcolor_enemy == 0
        &&& self.mapcolor_frnd == 0
        &&& !self.map_secret_after
        &&& !self.map_point_coord
        &&& !self.map_level_stat
        &&& self.automapmode == (AutomapMode {
            active: false,
            overlay: false,
            rotate: false,
            follow: false,
            grid: false,
        })
        &&& !self.map_always_updates
        &&& self.map_grid_size@ == 8
        &&& self.map_scroll_speed@ == 1
        &&& !self.map_wheel_zoom
        &&& !self.map_use_multisampling
        &&& !self.map_textured
        &&& self.map_textured_trans@ == 0
        &&& self.map_textured_overlay_trans@ == 0
        &&& self.map_lines_overlay_trans@ == 0
        &&& self.map_overlay_pos_x@ == 0
        &&& self.map_overlay_pos_y@ == 0
        &&& self.map_overlay_pos_width@ == 0
        &&& self.map_overlay_pos_height@ == 0
        &&& self.map_things_appearance == MapThingsAppearance::Icon
        &&& self.hudcolor_titl == TextColor::Red
        &&& self.hudcolor_xyco == TextColor::Red
        &&& self.hudcolor_mapstat_title == TextColor::Red
        &&& self.hudcolor_mapstat_value == TextColor::Red
        &&& self.hudcolor_mapstat_time == TextColor::Red
        &&& self.hudcolor_mesg == TextColor::Red
        &&& self.hudcolor_chat == TextColor::Red
        &&& self.hudcolor_list == TextColor::Red
        &&& self.hud_msg_lines@ == 1
        &&& !self.hud_list_bgon
        &&& self.health_red@ == 0
        &&& self.health_yellow@ == 0
        &&& self.health_green@ == 0
        &&& self.armor_red@ == 0
        &&& self.armor_yellow@ == 0
        &&& self.armor_green@ == 0
        &&& self.ammo_red@ == 0
        &&& self.ammo_yellow@ == 0
        &&& self.ammo_colour_behaviour == AmmoColorBehavior::No
        &&& self.hud_num@ == 0
        &&& !self.hud_displayed
        &&& self.key_speedup.bits == Key::NONE
        &&& self.key_speeddown.bits == Key::NONE
        &&& self.key_speeddefault.bits == Key::NONE
        &&& self.speed_step@ == 0
        &&& self.key_demo_skip.bits == Key::NONE
        &&& self.key_level_restart.bits == Key::NONE
        &&& self.key_nextlevel.bits == Key::NONE
        &&& self.key_demo_jointogame.bits == Key::NONE
        &&& self.key_demo_endlevel.bits == Key::NONE
        &&& self.key_walkcamera.bits == Key::NONE
        &&& self.key_showalive.bits == Key::NONE
        &&& !self.hudadd_gamespeed
        &&& !self.hudadd_leveltime
        &&& !self.hudadd_demotime
        &&& !self.hudadd_secretarea
        &&& !self.hudadd_smarttotals
        &&& !self.hudadd_demoprogressbar
        &&& self.hudadd_crosshair == Crosshair::Off
        &&& !self.hudadd_crosshair_scale
        &&& self.hudadd_crosshair_color == TextColor::Red
        &&& !self.hudadd_crosshair_health
        &&& !self.hudadd_crosshair_target
        &&& self.hudadd_crosshair_target_color == TextColor::Red
        &&& !self.hudadd_crosshair_lock_target
        &&& self.mouse_acceleration@ == 0
        &&& self.mouse_sensitivity_mlook@ == 0
        &&& !self.mouse_doubleclick_as_use
        &&& !self.mouse_carrytics
        &&& !self.demo_extendedformat
        &&& self.demo_demoex_filename@.len() == 0
        &&& self.getwad_cmdline@.len() == 0
        &&& !self.demo_overwriteexisting
        &&& self.quickstart_window_ms == 0
        &&& !self.movement_strafe50
        &&& !self.movement_shorttics
        &&& self.interpolation_maxobjects@ == 0
        &&& !self.showendoom
        &&& self.screenshot_dir@.len() == 0
        &&& !self.health_bar
        &&& !self.health_bar_full_length
        &&& self.health_bar_red@ == 0
        &&& self.health_bar_yellow@ == 0
        &&& self.health_bar_green@ == 0
        &&& self.cap_soundcommand@.len() == 0
        &&& self.cap_videocommand@.len() == 0
        &&& self.cap_muxcommand@.len() == 0
        &&& self.cap_tempfile1@.len() == 0
        &&& self.cap_tempfile2@.len() == 0
        &&& !self.cap_remove_tempfiles
        &&& self.cap_fps@ == 16
        &&& self.sdl_video_window_pos@.len() == 0
        &&& !self.palette_ondamage
        &&& !self.palette_onbonus
        &&& !self.palette_onpowers
        &&& !self.render_wipescreen
        &&& self.render_screen_multiply@ == 1
        &&& self.render_aspect == AspectRatio::R16x9
        &&& !self.render_doom_lightmaps
        &&& !self.fake_contrast
        &&& self.render_stretch_hud == PatchStretch::StretchFull
        &&& self.render_patches_scalex@ == 0
        &&& self.render_patches_scaley@ == 0
        &&& !self.render_stretchsky
        &&& self.sprites_doom_order == SpriteDoomOrder::Dynamic
        &&& !self.movement_mouselook
        &&& self.movement_maxviewpitch@ == 0
        &&& self.movement_mousestrafedivisor@ == 1
        &&& !self.movement_mouseinvert
        &&& !self.gl_allow_detail_textures
        &&& self.gl_detail_maxdist@ == 0
        &&& self.render_multisampling@ == 0
        &&& self.render_fov@ == 20
        &&& self.gl_spriteclip == SpriteClip::Smart
        &&& self.gl_spriteclip_threshold@ == 0
        &&& !self.gl_sprites_frustum_culling
        &&& !self.render_paperitems
        &&& !self.gl_boom_colormaps
        &&& !self.gl_hires_24bit_colormap
        &&& !self.gl_texture_internal_hires
        &&& !self.gl_texture_external_hires
        &&& !self.gl_hires_override_pwads
        &&& self.gl_texture_hires_dir@.len() == 0
        &&& !self.gl_texture_hqresize
        &&& self.gl_texture_hqresize_textures == HqResizeMode::Off
        &&& self.gl_texture_hqresize_sprites == HqResizeMode::Off
        &&& self.gl_texture_hqresize_patches == HqResizeMode::Off
        &&& !self.gl_motionblur
        &&& self.gl_lightmode == LightMode::Shaders
        &&& self.gl_light_ambient@ == 1
        &&& !self.gl_fog
        &&& self.gl_fog_color == 0
        &&& self.useglgamma@ == 0
        &&& !self.gl_color_mip_levels
        &&& !self.gl_shadows
        &&& self.gl_shadows_maxdist@ == 0
        &&& self.gl_shadows_factor@ == 0
        &&& !self.gl_blend_animations
        &&& !self.overrun_spechit_warn
        &&& !self.overrun_spechit_emulate
        &&& !self.overrun_reject_warn
        &&& !self.overrun_reject_emulate
        &&& !self.overrun_intercept_warn
        &&& !self.overrun_intercept_emulate
        &&& !self.overrun_playeringame_warn
        &&& !self.overrun_playeringame_emulate
        &&& !self.overrun_donut_warn
        &&& !self.overrun_donut_emulate
        &&& !self.overrun_missedbackside_warn
        &&& !self.overrun_missedbackside_emulate
        &&& !self.comperr_zerotag
        &&& !self.comperr_passuse
        &&& !self.comperr_hangsolid
        &&& !self.comperr_blockmap
        &&& !self.comperr_allowjump
        &&& !self.comperr_freeaim
        &&& self.launcher_enable == LauncherEnable::Always
        &&& self.launcher_history@.len() == 0
        &&& self.demo_patterns_mask@.len() == 0
        &&& self.weapon_choice_1@ == 0
        &&& self.weapon_choice_2@ == 0
        &&& self.weapon_choice_3@ == 0
        &&& self.weapon_choice_4@ == 0
        &&& self.weapon_choice_5@ == 0
        &&& self.weapon_choice_6@ == 0
        &&& self.weapon_choice_7@ == 0
        &&& self.weapon_choice_8@ == 0
        &&& self.weapon_choice_9@ == 0
        &&& self.mus_e1m1@.len() == 0
        &&& self.mus_e1m2@.len() == 0
        &&& self.mus_e1m3@.len() == 0
        &&& self.mus_e1m4@.len() == 0
        &&& self.mus_e1m5@.len() == 0
        &&& self.mus_e1m6@.len() == 0
        &&& self.mus_e1m7@.len() == 0
        &&& self.mus_e1m8@.len() == 0
        &&& self.mus_e1m9@.len() == 0
        &&& self.mus_e2m1@.len() == 0
        &&& self.mus_e2m2@.len() == 0
        &&& self.mus_e2m3@.len() == 0
        &&& self.mus_e2m4@.len() == 0
        &&& self.mus_e2m5@.len() == 0
        &&& self.mus_e2m6@.len() == 0
        &&& self.mus_e2m7@.len() == 0
        &&& self.mus_e2m8@.len() == 0
        &&& self.mus_e2m9@.len() == 0
        &&& self.mus_e3m1@.len() == 0
        &&& self.mus_e3m2@.len() == 0
        &&& self.mus_e3m3@.len() == 0
        &&& self.mus_e3m4@.len() == 0
        &&& self.mus_e3m5@.len() == 0
        &&& self.mus_e3m6@.len() == 0
        &&& self.mus_e3m7@.len() == 0
        &&& self.mus_e3m8@.len() == 0
        &&& self.mus_e3m9@.len() == 0
        &&& self.mus_inter@.len() == 0
        &&& self.mus_intro@.len() == 0
        &&& self.mus_bunny@.len() == 0
        &&& self.mus_victor@.len() == 0
        &&& self.mus_introa@.len() == 0
        &&& self.mus_runnin@.len() == 0
        &&& self.mus_stalks@.len() == 0
        &&& self.mus_countd@.len() == 0
        &&& self.mus_betwee@.len() == 0
        &&& self.mus_doom@.len() == 0
        &&& self.mus_the_da@.len() == 0
        &&& self.mus_shawn@.len() == 0
        &&& self.mus_ddtblu@.len() == 0
        &&& self.mus_in_cit@.len() == 0
        &&& self.mus_dead@.len() == 0
        &&& self.mus_stlks2@.len() == 0
        &&& self.mus_theda2@.len() == 0
        &&& self.mus_doom2@.len() == 0
        &&& self.mus_ddtbl2@.len() == 0
        &&& self.mus_runni2@.len() == 0
        &&& self.mus_dead2@.len() == 0
        &&& self.mus_stlks3@.len() == 0
        &&& self.mus_romero@.len() == 0
        &&& self.mus_shawn2@.len() == 0
        &&& self.mus_messag@.len() == 0
        &&& self.mus_count2@.len() == 0
        &&& self.mus_ddtbl3@.len() == 0
        &&& self.mus_ampie@.len() == 0
        &&& self.mus_theda3@.len() == 0
        &&& self.mus_adrian@.len() == 0
        &&& self.mus_messg2@.len() == 0
        &&& self.mus_romer2@.len() == 0
        &&& self.mus_tense@.len() == 0
        &&& self.mus_shawn3@.len() == 0
        &&& self.mus_openin@.len() == 0
        &&& self.mus_evil@.len() == 0
        &&& self.mus_ultima@.len() == 0
        &&& self.mus_read_m@.len() == 0
        &&& self.mus_dm2ttl@.len() == 0
        &&& self.mus_dm2int@.len() == 0
    }

    /// The compatibility flags as the player configured them. Respawning
    /// at the origin is no setting of the player and counts as off.
    pub open spec fn configured_flags(&self) -> CompatibilityFlags {
        CompatibilityFlags {
            comp_zombie: self.comp_zombie,
            comp_infcheat: self.comp_infcheat,
            comp_stairs: self.comp_stairs,
            comp_telefrag: self.comp_telefrag,
            comp_dropoff: self.comp_dropoff,
            comp_falloff: self.comp_falloff,
            comp_staylift: self.comp_staylift,
            comp_doorstuck: self.comp_doorstuck,
            comp_pursuit: self.comp_pursuit,
            comp_vile: self.comp_vile,
            comp_pain: self.comp_pain,
            comp_skull: self.comp_skull,
            comp_blazing: self.comp_blazing,
            comp_doorlight: self.comp_doorlight,
            comp_god: self.comp_god,
            comp_skymap: self.comp_skymap,
            comp_floors: self.comp_floors,
            comp_model: self.comp_model,
            comp_zerotags: self.comp_zerotags,
            comp_moveblock: self.comp_moveblock,
            comp_sound: self.comp_sound,
            comp_666: self.comp_666,
            comp_soul: self.comp_soul,
            comp_maskedanim: self.comp_maskedanim,
            comp_ouchface: self.comp_ouchface,
            comp_maxhealth: self.comp_maxhealth,
            comp_translucency: self.comp_translucency,
            comp_respawn: false,
        }
    }

    /// The compatibility flags as the player configured them.
    pub fn comp_flags(&self) -> (r: CompatibilityFlags)
        ensures
            r == self.configured_flags(),
    {
        CompatibilityFlags {
            comp_zombie: self.comp_zombie,
            comp_infcheat: self.comp_infcheat,
            comp_stairs: self.comp_stairs,
            comp_telefrag: self.comp_telefrag,
            comp_dropoff: self.comp_dropoff,
            comp_falloff: self.comp_falloff,
            comp_staylift: self.comp_staylift,
            comp_doorstuck: self.comp_doorstuck,
            comp_pursuit: self.comp_pursuit,
            comp_vile: self.comp_vile,
            comp_pain: self.comp_pain,
            comp_skull: self.comp_skull,
            comp_blazing: self.comp_blazing,
            comp_doorlight: self.comp_doorlight,
            comp_god: self.comp_god,
            comp_skymap: self.comp_skymap,
            comp_floors: self.comp_floors,
            comp_model: self.comp_model,
            comp_zerotags: self.comp_zerotags,
            comp_moveblock: self.comp_moveblock,
            comp_sound: self.comp_sound,
            comp_666: self.comp_666,
            comp_soul: self.comp_soul,
            comp_maskedanim: self.comp_maskedanim,
            comp_ouchface: self.comp_ouchface,
            comp_maxhealth: self.comp_maxhealth,
            comp_translucency: self.comp_translucency,
            comp_respawn: false,
        }
    }
}

impl Default for Defaults {
    /// The settings before any settings file has been read.
    fn default() -> (r: Defaults)
        ensures
            r.is_initial(),
    {
        Defaults {
            process_priority: ProcessPriority::default(),
            default_compatibility_level: CompatibilityLevel::default(),
            realtic_clock_rate: PositiveInt::default(),
            menu_background: false,
            body_queue_size: OptionalLimit::default(),
            flashing_hom: false,
            demo_insurance: DemoInsurance::default(),
            endoom_mode: EndoomMode::default(),
            level_precache: false,
            demo_smoothturns: DemoSmoothTurns::default(),
            boom_autoswitch: false,
            wad_files: Vec::new(),
            deh_files: Vec::new(),
            default_skill: SkillLevel::default(),
            weapon_recoil: false,
            doom_weapon_toggles: false,
            player_bobbing: false,
            weapon_attack_alignment: WeaponAttackAlignment::default(),
            monsters_remember: false,
            monster_infighting: MonsterInfightingLevel::default(),
            monster_backing: false,
            monster_avoid_hazards: false,
            monkeys: false,
            monster_friction: false,
            help_friends: false,
            allow_pushers: false,
            variable_friction: false,
            player_helpers: PlayerHelpers::default(),
            friend_distance: FriendDistance::default(),
            dog_jumping: false,
            sts_always_red: false,
            sts_pct_always_gray: false,
            sts_traditional_keys: false,
            sts_armorcolor_type: false,
            show_messages: false,
            autorun: false,
            deh_apply_cheats: false,
            comp_zombie: false,
            comp_infcheat: false,
            comp_stairs: false,
            comp_telefrag: false,
            comp_dropoff: false,
            comp_falloff: false,
            comp_staylift: false,
            comp_doorstuck: false,
            comp_pursuit: false,
            comp_vile: false,
            comp_pain: false,
            comp_skull: false,
            comp_blazing: false,
            comp_doorlight: false,
            comp_god: false,
            comp_skymap: false,
            comp_floors: false,
            comp_model: false,
            comp_zerotags: false,
            comp_moveblock: false,
            comp_sound: false,
            comp_666: false,
            comp_soul: false,
            comp_maskedanim: false,
            comp_ouchface: false,
            comp_maxhealth: false,
            comp_translucency: false,
            snd_pcspeaker: false,
            sound_card: SoundCard::default(),
            music_card: SoundCard::default(),
            pitched_sounds: false,
            samplerate: SampleRate::default(),
            sfx_volume: Volume::default(),
            music_volume: Volume::default(),
            mus_pause_opt: MusicPauseOption::default(),
            snd_channels: SoundChannels::default(),
            snd_midiplayer: MidiPlayer::default(),
            snd_soundfont: String::new(),
            snd_mididev: String::new(),
            mus_extend_volume: false,
            mus_fluidsynth_chorus: false,
            mus_fluidsynth_reverb: false,
            mus_fluidsynth_gain: Gain::default(),
            mus_opl_gain: Gain::default(),
            videomode: VideoMode::default(),
            screen_resolution: ScreenResolution::default(),
            use_fullscreen: false,
            render_vsync: false,
            translucency: false,
            tran_filter_pct: Percentage::default(),
            screenblocks: Screenblocks::default(),
            usegamma: GammaCorrectionLevel::default(),
            uncapped_framerate: false,
            test_interpolation_method: InterpolationMethod::default(),
            filter_wall: Filter::default(),
            filter_floor: Filter::default(),
            filter_sprite: Filter::default(),
            filter_z: ZFilter::default(),
            filter_patch: Filter::default(),
            filter_threshold: PositiveInt::default(),
            sprite_edges: SlopedEdgeType::default(),
            patch_edges: SlopedEdgeType::default(),
            gl_compatibility: false,
            gl_arb_multitexture: false,
            gl_arb_texture_compression: false,
            gl_arb_texture_non_power_of_two: false,
            gl_ext_arb_vertex_buffer_object: false,
            gl_arb_pixel_buffer_object: false,
            gl_arb_shader_objects: false,
            gl_ext_blend_color: false,
            gl_ext_framebuffer_object: false,
            gl_ext_packed_depth_stencil: false,
            gl_ext_texture_filter_anisotropic: false,
            gl_use_stencil: false,
            gl_use_display_lists: false,
            gl_finish: false,
            gl_clear: false,
            gl_ztrick: false,
            gl_nearclip: PositiveInt::default(),
            gl_colorbuffer_bits: BufferBits::default(),
            gl_depthbuffer_bits: BufferBits::default(),
            gl_texture_filter: TextureFilter::default(),
            gl_sprite_filter: SpriteFilter::default(),
            gl_patch_filter: PatchFilter::default(),
            gl_texture_filter_anisotropic: AnisotropicFilter::default(),
            gl_tex_format_string: String::new(),
            gl_sprite_offset: SpriteOffset::default(),
            gl_sprite_blend: false,
            gl_mask_sprite_threshold: Percentage::default(),
            gl_skymode: SkyType::default(),
            gl_sky_detail: SkyDetail::default(),
            gl_use_paletted_texture: false,
            gl_use_shared_texture_palette: false,
            use_mouse: false,
            mouse_sensitivity_horiz: PositiveInt::default(),
            mouse_sensitivity_vert: PositiveInt::default(),
            mouseb_fire: MouseButton::default(),
            mouseb_strafe: MouseButton::default(),
            mouseb_forward: MouseButton::default(),
            mouseb_backward: MouseButton::default(),
            mouseb_use: MouseButton::default(),
            key_right: Key::default(),
            key_left: Key::default(),
            key_up: Key::default(),
            key_down: Key::default(),
            key_mlook: Key::default(),
            key_menu_right: Key::default(),
            key_menu_left: Key::default(),
            key_menu_up: Key::default(),
            key_menu_down: Key::default(),
            key_menu_backspace: Key::default(),
            key_menu_escape: Key::default(),
            key_menu_enter: Key::default(),
            key_menu_clear: Key::default(),
            key_setup: Key::default(),
            key_strafeleft: Key::default(),
            key_straferight: Key::default(),
            key_flyup: Key::default(),
            key_flydown: Key::default(),
            key_fire: Key::default(),
            key_use: Key::default(),
            key_strafe: Key::default(),
            key_speed: Key::default(),
            key_savegame: Key::default(),
            key_loadgame: Key::default(),
            key_soundvolume: Key::default(),
            key_hud: Key::default(),
            key_quicksave: Key::default(),
            key_endgame: Key::default(),
            key_messages: Key::default(),
            key_quickload: Key::default(),
            key_quit: Key::default(),
            key_gamma: Key::default(),
            key_spy: Key::default(),
            key_pause: Key::default(),
            key_autorun: Key::default(),
            key_chat: Key::default(),
            key_backspace: Key::default(),
            key_enter: Key::default(),
            key_map: Key::default(),
            key_map_right: Key::default(),
            key_map_left: Key::default(),
            key_map_up: Key::default(),
            key_map_down: Key::default(),
            key_map_zoomin: Key::default(),
            key_map_zoomout: Key::default(),
            key_map_gobig: Key::default(),
            key_map_follow: Key::default(),
            key_map_mark: Key::default(),
            key_map_clear: Key::default(),
            key_map_grid: Key::default(),
            key_map_rotate: Key::default(),
            key_map_overlay: Key::default(),
            key_map_textured: Key::default(),
            key_reverse: Key::default(),
            key_zoomin: Key::default(),
            key_zoomout: Key::default(),
            key_chatplayer1: Key::default(),
            key_chatplayer2: Key::default(),
            key_chatplayer3: Key::default(),
            key_chatplayer4: Key::default(),
            key_weapontoggle: Key::default(),
            key_weapon1: Key::default(),
            key_weapon2: Key::default(),
            key_weapon3: Key::default(),
            key_weapon4: Key::default(),
            key_weapon5: Key::default(),
            key_weapon6: Key::default(),
            key_weapon7: Key::default(),
            key_weapon8: Key::default(),
            key_weapon9: Key::default(),
            key_nextweapon: Key::default(),
            key_prevweapon: Key::default(),
            key_screenshot: Key::default(),
            use_joystick: false,
            joy_left: 0,
            joy_right: 0,
            joy_up: 0,
            joy_down: 0,
            joyb_fire: 0,
            joyb_strafe: 0,
            joyb_strafeleft: 0,
            joyb_straferight: 0,
            joyb_speed: 0,
            joyb_use: 0,
            chatmacro0: String::new(),
            chatmacro1: String::new(),
            chatmacro2: String::new(),
            chatmacro3: String::new(),
            chatmacro4: String::new(),
            chatmacro5: String::new(),
            chatmacro6: String::new(),
            chatmacro7: String::new(),
            chatmacro8: String::new(),
            chatmacro9: String::new(),
            mapcolor_back: 0,
            mapcolor_grid: 0,
            mapcolor_wall: 0,
            mapcolor_fchg: 0,
            mapcolor_cchg: 0,
            mapcolor_clsd: 0,
            mapcolor_rkey: 0,
            mapcolor_bkey: 0,
            mapcolor_ykey: 0,
            mapcolor_rdor: 0,
            mapcolor_bdor: 0,
            mapcolor_ydor: 0,
            mapcolor_tele: 0,
            mapcolor_secr: 0,
            mapcolor_exit: 0,
            mapcolor_unsn: 0,
            mapcolor_flat: 0,
            mapcolor_sprt: 0,
            mapcolor_item: 0,
            mapcolor_hair: 0,
            mapcolor_sngl: 0,
            mapcolor_me: 0,
            mapcolor_enemy: 0,
            mapcolor_frnd: 0,
            map_secret_after: false,
            map_point_coord: false,
            map_level_stat: false,
            automapmode: AutomapMode::default(),
            map_always_updates: false,
            map_grid_size: MapGridSize::default(),
            map_scroll_speed: MapScrollSpeed::default(),
            map_wheel_zoom: false,
            map_use_multisampling: false,
            map_textured: false,
            map_textured_trans: Percentage::default(),
            map_textured_overlay_trans: Percentage::default(),
            map_lines_overlay_trans: Percentage::default(),
            map_overlay_pos_x: XPosition::default(),
            map_overlay_pos_y: YPosition::default(),
            map_overlay_pos_width: Width::default(),
            map_overlay_pos_height: Height::default(),
            map_things_appearance: MapThingsAppearance::default(),
            hudcolor_titl: TextColor::default(),
            hudcolor_xyco: TextColor::default(),
            hudcolor_mapstat_title: TextColor::default(),
            hudcolor_mapstat_value: TextColor::default(),
            hudcolor_mapstat_time: TextColor::default(),
            hudcolor_mesg: TextColor::default(),
            hudcolor_chat: TextColor::default(),
            hudcolor_list: TextColor::default(),
            hud_msg_lines: MessageLines::default(),
            hud_list_bgon: false,
            health_red: DoublePercentage::default(),
            health_yellow: DoublePercentage::default(),
            health_green: DoublePercentage::default(),
            armor_red: DoublePercentage::default(),
            armor_yellow: DoublePercentage::default(),
            armor_green: DoublePercentage::default(),
            ammo_red: Percentage::default(),
            ammo_yellow: Percentage::default(),
            ammo_colour_behaviour: AmmoColorBehavior::default(),
            hud_num: HudNum::default(),
            hud_displayed: false,
            key_speedup: Key::default(),
            key_speeddown: Key::default(),
            key_speeddefault: Key::default(),
            speed_step: SpeedStep::default(),
            key_demo_skip: Key::default(),
            key_level_restart: Key::default(),
            key_nextlevel: Key::default(),
            key_demo_jointogame: Key::default(),
            key_demo_endlevel: Key::default(),
            key_walkcamera: Key::default(),
            key_showalive: Key::default(),
            hudadd_gamespeed: false,
            hudadd_leveltime: false,
            hudadd_demotime: false,
            hudadd_secretarea: false,
            hudadd_smarttotals: false,
            hudadd_demoprogressbar: false,
            hudadd_crosshair: Crosshair::default(),
            hudadd_crosshair_scale: false,
            hudadd_crosshair_color: TextColor::default(),
            hudadd_crosshair_health: false,
            hudadd_crosshair_target: false,
            hudadd_crosshair_target_color: TextColor::default(),
            hudadd_crosshair_lock_target: false,
            mouse_acceleration: PositiveInt::default(),
            mouse_sensitivity_mlook: PositiveInt::default(),
            mouse_doubleclick_as_use: false,
            mouse_carrytics: false,
            demo_extendedformat: false,
            demo_demoex_filename: String::new(),
            getwad_cmdline: String::new(),
            demo_overwriteexisting: false,
            quickstart_window_ms: 0,
            movement_strafe50: false,
            movement_shorttics: false,
            interpolation_maxobjects: PositiveInt::default(),
            showendoom: false,
            screenshot_dir: String::new(),
            health_bar: false,
            health_bar_full_length: false,
            health_bar_red: Percentage::default(),
            health_bar_yellow: Percentage::default(),
            health_bar_green: Percentage::default(),
            cap_soundcommand: String::new(),
            cap_videocommand: String::new(),
            cap_muxcommand: String::new(),
            cap_tempfile1: String::new(),
            cap_tempfile2: String::new(),
            cap_remove_tempfiles: false,
            cap_fps: CapFps::default(),
            sdl_video_window_pos: String::new(),
            palette_ondamage: false,
            palette_onbonus: false,
            palette_onpowers: false,
            render_wipescreen: false,
            render_screen_multiply: ScreenFactor::default(),
            render_aspect: AspectRatio::default(),
            render_doom_lightmaps: false,
            fake_contrast: false,
            render_stretch_hud: PatchStretch::default(),
            render_patches_scalex: PatchScale::default(),
            render_patches_scaley: PatchScale::default(),
            render_stretchsky: false,
            sprites_doom_order: SpriteDoomOrder::default(),
            movement_mouselook: false,
            movement_maxviewpitch: RightAngle::default(),
            movement_mousestrafedivisor: MouseStrafeDivisor::default(),
            movement_mouseinvert: false,
            gl_allow_detail_textures: false,
            gl_detail_maxdist: DetailMaxDistance::default(),
            render_multisampling: MultisamplingLevel::default(),
            render_fov: Fov::default(),
            gl_spriteclip: SpriteClip::default(),
            gl_spriteclip_threshold: Percentage::default(),
            gl_sprites_frustum_culling: false,
            render_paperitems: false,
            gl_boom_colormaps: false,
            gl_hires_24bit_colormap: false,
            gl_texture_internal_hires: false,
            gl_texture_external_hires: false,
            gl_hires_override_pwads: false,
            gl_texture_hires_dir: String::new(),
            gl_texture_hqresize: false,
            gl_texture_hqresize_textures: HqResizeMode::default(),
            gl_texture_hqresize_sprites: HqResizeMode::default(),
            gl_texture_hqresize_patches: HqResizeMode::default(),
            gl_motionblur: false,
            gl_lightmode: LightMode::default(),
            gl_light_ambient: AmbientLight::default(),
            gl_fog: false,
            gl_fog_color: 0,
            useglgamma: GlGamma::default(),
            gl_color_mip_levels: false,
            gl_shadows: false,
            gl_shadows_maxdist: ShadowMaxDistance::default(),
            gl_shadows_factor: ShadowFactor::default(),
            gl_blend_animations: false,
            overrun_spechit_warn: false,
            overrun_spechit_emulate: false,
            overrun_reject_warn: false,
            overrun_reject_emulate: false,
            overrun_intercept_warn: false,
            overrun_intercept_emulate: false,
            overrun_playeringame_warn: false,
            overrun_playeringame_emulate: false,
            overrun_donut_warn: false,
            overrun_donut_emulate: false,
            overrun_missedbackside_warn: false,
            overrun_missedbackside_emulate: false,
            comperr_zerotag: false,
            comperr_passuse: false,
            comperr_hangsolid: false,
            comperr_blockmap: false,
            comperr_allowjump: false,
            comperr_freeaim: false,
            launcher_enable: LauncherEnable::default(),
            launcher_history: Vec::new(),
            demo_patterns_mask: Vec::new(),
            weapon_choice_1: Weapon::default(),
            weapon_choice_2: Weapon::default(),
            weapon_choice_3: Weapon::default(),
            weapon_choice_4: Weapon::default(),
            weapon_choice_5: Weapon::default(),
            weapon_choice_6: Weapon::default(),
            weapon_choice_7: Weapon::default(),
            weapon_choice_8: Weapon::default(),
            weapon_choice_9: Weapon::default(),
            mus_e1m1: String::new(),
            mus_e1m2: String::new(),
            mus_e1m3: String::new(),
            mus_e1m4: String::new(),
            mus_e1m5: String::new(),
            mus_e1m6: String::new(),
            mus_e1m7: String::new(),
            mus_e1m8: String::new(),
            mus_e1m9: String::new(),
            mus_e2m1: String::new(),
            mus_e2m2: String::new(),
            mus_e2m3: String::new(),
            mus_e2m4: String::new(),
            mus_e2m5: String::new(),
            mus_e2m6: String::new(),
            mus_e2m7: String::new(),
            mus_e2m8: String::new(),
            mus_e2m9: String::new(),
            mus_e3m1: String::new(),
            mus_e3m2: String::new(),
            mus_e3m3: String::new(),
            mus_e3m4: String::new(),
            mus_e3m5: String::new(),
            mus_e3m6: String::new(),
            mus_e3m7: String::new(),
            mus_e3m8: String::new(),
            mus_e3m9: String::new(),
            mus_inter: String::new(),
            mus_intro: String::new(),
            mus_bunny: String::new(),
            mus_victor: String::new(),
            mus_introa: String::new(),
            mus_runnin: String::new(),
            mus_stalks: String::new(),
            mus_countd: String::new(),
            mus_betwee: String::new(),
            mus_doom: String::new(),
            mus_the_da: String::new(),
            mus_shawn: String::new(),
            mus_ddtblu: String::new(),
            mus_in_cit: String::new(),
            mus_dead: String::new(),
            mus_stlks2: String::new(),
            mus_theda2: String::new(),
            mus_doom2: String::new(),
            mus_ddtbl2: String::new(),
            mus_runni2: String::new(),
            mus_dead2: String::new(),
            mus_stlks3: String::new(),
            mus_romero: String::new(),
            mus_shawn2: String::new(),
            mus_messag: String::new(),
            mus_count2: String::new(),
            mus_ddtbl3: String::new(),
            mus_ampie: String::new(),
            mus_theda3: String::new(),
            mus_adrian: String::new(),
            mus_messg2: String::new(),
            mus_romer2: String::new(),
            mus_tense: String::new(),
            mus_shawn3: String::new(),
            mus_openin: String::new(),
            mus_evil: String::new(),
            mus_ultima: String::new(),
            mus_read_m: String::new(),
            mus_dm2ttl: String::new(),
            mus_dm2int: String::new(),
        }
    }
}

} // verus!
