//! Defaults of the head-up display, of demo and capture tools and of
//! further keys.

use vstd::prelude::*;

use crate::configuration::bounded::CapFps;
use crate::configuration::bounded::DoublePercentage;
use crate::configuration::bounded::HudNum;
use crate::configuration::bounded::MessageLines;
use crate::configuration::bounded::Percentage;
use crate::configuration::bounded::PositiveInt;
use crate::configuration::bounded::SpeedStep;
use crate::configuration::keys::Key;
use crate::configuration::options::AmmoColorBehavior;
use crate::configuration::options::Crosshair;
use crate::configuration::options::Keycode;
use crate::configuration::options::Milliseconds;
use crate::configuration::options::TextColor;

verus! {

/// Default of `hudcolor_titl`.
pub fn default_hudcolor_titl() -> (r: TextColor)
    ensures
        r == TextColor::Gold,
{
    TextColor::Gold
}

/// Default of `hudcolor_xyco`.
pub fn default_hudcolor_xyco() -> (r: TextColor)
    ensures
        r == TextColor::Green,
{
    TextColor::Green
}

/// Default of `hudcolor_mapstat_title`.
pub fn default_hudcolor_mapstat_title() -> (r: TextColor)
    ensures
        r == TextColor::Red,
{
    TextColor::Red
}

/// Default of `hudcolor_mapstat_value`.
pub fn default_hudcolor_mapstat_value() -> (r: TextColor)
    ensures
        r == TextColor::Gray,
{
    TextColor::Gray
}

/// Default of `hudcolor_mapstat_time`.
pub fn default_hudcolor_mapstat_time() -> (r: TextColor)
    ensures
        r == TextColor::Gray,
{
    TextColor::Gray
}

/// Default of `hudcolor_mesg`.
pub fn default_hudcolor_mesg() -> (r: TextColor)
    ensures
        r == TextColor::Red,
{
    TextColor::Red
}

/// Default of `hudcolor_chat`.
pub fn default_hudcolor_chat() -> (r: TextColor)
    ensures
        r == TextColor::Gold,
{
    TextColor::Gold
}

/// Default of `hudcolor_list`.
pub fn default_hudcolor_list() -> (r: TextColor)
    ensures
        r == TextColor::Gold,
{
    TextColor::Gold
}

/// Default of `hud_msg_lines`.
pub fn default_hud_msg_lines() -> (r: MessageLines)
    ensures
        r@ == 1,
{
    MessageLines::new(1).unwrap()
}

/// Default of `hud_list_bgon`.
pub fn default_hud_list_bgon() -> (r: bool)
    ensures
        !r,
{
    false
}

/// Default of `health_red`.
pub fn default_health_red() -> (r: DoublePercentage)
    ensures
        r@ == 25,
{
    DoublePercentage::new(25).unwrap()
}

/// Default of `health_yellow`.
pub fn default_health_yellow() -> (r: DoublePercentage)
    ensures
        r@ == 50,
{
    DoublePercentage::new(50).unwrap()
}

/// Default of `health_green`.
pub fn default_health_green() -> (r: DoublePercentage)
    ensures
        r@ == 100,
{
    DoublePercentage::new(100).unwrap()
}

/// Default of `armor_red`.
pub fn default_armor_red() -> (r: DoublePercentage)
    ensures
        r@ == 25,
{
    DoublePercentage::new(25).unwrap()
}

/// Default of `armor_yellow`.
pub fn default_armor_yellow() -> (r: DoublePercentage)
    ensures
        r@ == 50,
{
    DoublePercentage::new(50).unwrap()
}

/// Default of `armor_green`.
pub fn default_armor_green() -> (r: DoublePercentage)
    ensures
        r@ == 100,
{
    DoublePercentage::new(100).unwrap()
}

/// Default of `ammo_red`.
pub fn default_ammo_red() -> (r: Percentage)
    ensures
        r@ == 25,
{
    Percentage::new(25).unwrap()
}

/// Default of `ammo_yellow`.
pub fn default_ammo_yellow() -> (r: Percentage)
    ensures
        r@ == 50,
{
    Percentage::new(50).unwrap()
}

/// Default of `ammo_colour_behaviour`.
pub fn default_ammo_colour_behaviour() -> (r: AmmoColorBehavior)
    ensures
        r == AmmoColorBehavior::Yes,
{
    AmmoColorBehavior::Yes
}

/// Default of `hud_num`.
pub fn default_hud_num() -> (r: HudNum)
    ensures
        r@ == 6,
{
    HudNum::new(6).unwrap()
}

/// Default of `hud_displayed`.
pub fn default_hud_displayed() -> (r: bool)
    ensures
        !r,
{
    false
}

/// Default of `key_speedup`.
pub fn default_key_speedup() -> (r: Keycode)
    ensures
        r.bits == Key::NONE,
{
    Key::of(Key::NONE)
}

/// Default of `key_speeddown`.
pub fn default_key_speeddown() -> (r: Keycode)
    ensures
        r.bits == Key::NONE,
{
    Key::of(Key::NONE)
}

/// Default of `key_speeddefault`.
pub fn default_key_speeddefault() -> (r: Keycode)
    ensures
        r.bits == Key::NONE,
{
    Key::of(Key::NONE)
}

/// Default of `speed_step`.
pub fn default_speed_step() -> (r: SpeedStep)
    ensures
        r@ == 0,
{
    SpeedStep::new(0).unwrap()
}

/// Default of `key_demo_skip`.
pub fn default_key_demo_skip() -> (r: Keycode)
    ensures
        r.bits == Key::INSERT,
{
    Key::of(Key::INSERT)
}

/// Default of `key_level_restart`.
pub fn default_key_level_restart() -> (r: Keycode)
    ensures
        r.bits == Key::HOME,
{
    Key::of(Key::HOME)
}

/// Default of `key_nextlevel`.
pub fn default_key_nextlevel() -> (r: Keycode)
    ensures
        r.bits == Key::PAGEDOWN,
{
    Key::of(Key::PAGEDOWN)
}

/// Default of `key_demo_jointogame`.
pub fn default_key_demo_jointogame() -> (r: Keycode)
    ensures
        r.bits == Key::Q,
{
    Key::of(Key::Q)
}

/// Default of `key_demo_endlevel`.
pub fn default_key_demo_endlevel() -> (r: Keycode)
    ensures
        r.bits == Key::END,
{
    Key::of(Key::END)
}

/// Default of `key_walkcamera`.
pub fn default_key_walkcamera() -> (r: Keycode)
    ensures
        r.bits == Key::KEYPAD0,
{
    Key::of(Key::KEYPAD0)
}

/// Default of `key_showalive`.
pub fn default_key_showalive() -> (r: Keycode)
    ensures
        r.bits == Key::KEYPADDIVIDE,
{
    Key::of(Key::KEYPADDIVIDE)
}

/// Default of `hudadd_gamespeed`.
pub fn default_hudadd_gamespeed() -> (r: bool)
    ensures
        !r,
{
    false
}

/// Default of `hudadd_leveltime`.
pub fn default_hudadd_leveltime() -> (r: bool)
    ensures
        !r,
{
    false
}

/// Default of `hudadd_demotime`.
pub fn default_hudadd_demotime() -> (r: bool)
    ensures
        !r,
{
    false
}

/// Default of `hudadd_secretarea`.
pub fn default_hudadd_secretarea() -> (r: bool)
    ensures
        !r,
{
    false
}

/// Default of `hudadd_smarttotals`.
pub fn default_hudadd_smarttotals() -> (r: bool)
    ensures
        !r,
{
    false
}

/// Default of `hudadd_demoprogressbar`.
pub fn default_hudadd_demoprogressbar() -> (r: bool)
    ensures
        r,
{
    true
}

/// Default of `hudadd_crosshair`.
pub fn default_hudadd_crosshair() -> (r: Crosshair)
    ensures
        r == Crosshair::Off,
{
    Crosshair::Off
}

/// Default of `hudadd_crosshair_scale`.
pub fn default_hudadd_crosshair_scale() -> (r: bool)
    ensures
        !r,
{
    false
}

/// Default of `hudadd_crosshair_color`.
pub fn default_hudadd_crosshair_color() -> (r: TextColor)
    ensures
        r == TextColor::Green,
{
    TextColor::Green
}

/// Default of `hudadd_crosshair_health`.
pub fn default_hudadd_crosshair_health() -> (r: bool)
    ensures
        !r,
{
    false
}

/// Default of `hudadd_crosshair_target`.
pub fn default_hudadd_crosshair_target() -> (r: bool)
    ensures
        !r,
{
    false
}

/// Default of `hudadd_crosshair_target_color`.
pub fn default_hudadd_crosshair_target_color() -> (r: TextColor)
    ensures
        r == TextColor::Blue2,
{
    TextColor::Blue2
}

/// Default of `hudadd_crosshair_lock_target`.
pub fn default_hudadd_crosshair_lock_target() -> (r: bool)
    ensures
        !r,
{
    false
}

/// Default of `mouse_acceleration`.
pub fn default_mouse_acceleration() -> (r: PositiveInt)
    ensures
        r@ == 0,
{
    PositiveInt::new(0).unwrap()
}

/// Default of `mouse_sensitivity_mlook`.
pub fn default_mouse_sensitivity_mlook() -> (r: PositiveInt)
    ensures
        r@ == 10,
{
    PositiveInt::new(10).unwrap()
}

/// Default of `mouse_doubleclick_as_use`.
pub fn default_mouse_doubleclick_as_use() -> (r: bool)
    ensures
        !r,
{
    false
}

/// Default of `mouse_carrytics`.
pub fn default_mouse_carrytics() -> (r: bool)
    ensures
        !r,
{
    false
}

/// Default of `demo_extendedformat`.
pub fn default_demo_extendedformat() -> (r: bool)
    ensures
        r,
{
    true
}

/// Default of `demo_demoex_filename`.
pub fn default_demo_demoex_filename() -> (r: String)
    ensures
        r@ == ""@,
{
    "".to_owned()
}

/// Default of `getwad_cmdline`.
pub fn default_getwad_cmdline() -> (r: String)
    ensures
        r@ == ""@,
{
    "".to_owned()
}

/// Default of `demo_overwriteexisting`.
pub fn default_demo_overwriteexisting() -> (r: bool)
    ensures
        r,
{
    true
}

/// Default of `quickstart_window_ms`.
pub fn default_quickstart_window_ms() -> (r: Milliseconds)
    ensures
        r == 0,
{
    0
}

/// Default of `movement_strafe50`.
pub fn default_movement_strafe50() -> (r: bool)
    ensures
        !r,
{
    false
}

/// Default of `movement_shorttics`.
pub fn default_movement_shorttics() -> (r: bool)
    ensures
        !r,
{
    false
}

/// Default of `interpolation_maxobjects`.
pub fn default_interpolation_maxobjects() -> (r: PositiveInt)
    ensures
        r@ == 0,
{
    PositiveInt::new(0).unwrap()
}

/// Default of `showendoom`.
pub fn default_showendoom() -> (r: bool)
    ensures
        !r,
{
    false
}

/// Default of `screenshot_dir`.
pub fn default_screenshot_dir() -> (r: String)
    ensures
        r@ == ""@,
{
    "".to_owned()
}

/// Default of `health_bar`.
pub fn default_health_bar() -> (r: bool)
    ensures
        !r,
{
    false
}

/// Default of `health_bar_full_length`.
pub fn default_health_bar_full_length() -> (r: bool)
    ensures
        r,
{
    true
}

/// Default of `health_bar_red`.
pub fn default_health_bar_red() -> (r: Percentage)
    ensures
        r@ == 50,
{
    Percentage::new(50).unwrap()
}

/// Default of `health_bar_yellow`.
pub fn default_health_bar_yellow() -> (r: Percentage)
    ensures
        r@ == 99,
{
    Percentage::new(99).unwrap()
}

/// Default of `health_bar_green`.
pub fn default_health_bar_green() -> (r: Percentage)
    ensures
        r@ == 0,
{
    Percentage::new(0).unwrap()
}

/// Default of `cap_soundcommand`.
pub fn default_cap_soundcommand() -> (r: String)
    ensures
        r@ == "ffmpeg -f s16le -ar {s} -ac 2 -i - -c:a libopus -y temp_a.nut"@,
{
    "ffmpeg -f s16le -ar {s} -ac 2 -i - -c:a libopus -y temp_a.nut".to_owned()
}

/// Default of `cap_videocommand`.
pub fn default_cap_videocommand() -> (r: String)
    ensures
        r@ == "ffmpeg -f rawvideo -pix_fmt rgb24 -r {r} -s {w}x{h} -i - -c:v libx264 -y temp_v.nut"@,
{
    "ffmpeg -f rawvideo -pix_fmt rgb24 -r {r} -s {w}x{h} -i - -c:v libx264 -y temp_v.nut".to_owned()
}

/// Default of `cap_muxcommand`.
pub fn default_cap_muxcommand() -> (r: String)
    ensures
        r@ == "ffmpeg -i temp_v.nut -i temp_a.nut -c copy -y {f}"@,
{
    "ffmpeg -i temp_v.nut -i temp_a.nut -c copy -y {f}".to_owned()
}

/// Default of `cap_tempfile1`.
pub fn default_cap_tempfile1() -> (r: String)
    ensures
        r@ == "temp_a.nut"@,
{
    "temp_a.nut".to_owned()
}

/// Default of `cap_tempfile2`.
pub fn default_cap_tempfile2() -> (r: String)
    ensures
        r@ == "temp_v.nut"@,
{
    "temp_v.nut".to_owned()
}

/// Default of `cap_remove_tempfiles`.
pub fn default_cap_remove_tempfiles() -> (r: bool)
    ensures
        r,
{
    true
}

/// Default of `cap_fps`.
pub fn default_cap_fps() -> (r: CapFps)
    ensures
        r@ == 60,
{
    CapFps::new(60).unwrap()
}

/// Default of `sdl_video_window_pos`.
pub fn default_sdl_video_window_pos() -> (r: String)
    ensures
        r@ == "center"@,
{
    "center".to_owned()
}

} // verus!
