//! Defaults of mouse, keyboard and joystick bindings and of the chat macros.

use vstd::prelude::*;

use crate::configuration::bounded::PositiveInt;
use crate::configuration::keys::Key;
use crate::configuration::options::Keycode;
use crate::configuration::options::MouseButton;

verus! {

/// Default of `use_mouse`.
pub fn default_use_mouse() -> (r: bool)
    ensures
        r,
{
    true
}

/// Default of `mouse_sensitivity_horiz`.
pub fn default_mouse_sensitivity_horiz() -> (r: PositiveInt)
    ensures
        r@ == 10,
{
    PositiveInt::new(10).unwrap()
}

/// Default of `mouse_sensitivity_vert`.
pub fn default_mouse_sensitivity_vert() -> (r: PositiveInt)
    ensures
        r@ == 0,
{
    PositiveInt::new(0).unwrap()
}

/// Default of `mouseb_fire`.
pub fn default_mouseb_fire() -> (r: MouseButton)
    ensures
        r == MouseButton::Button0,
{
    MouseButton::Button0
}

/// Default of `mouseb_strafe`.
pub fn default_mouseb_strafe() -> (r: MouseButton)
    ensures
        r == MouseButton::Button1,
{
    MouseButton::Button1
}

/// Default of `mouseb_forward`.
pub fn default_mouseb_forward() -> (r: MouseButton)
    ensures
        r == MouseButton::Button2,
{
    MouseButton::Button2
}

/// Default of `mouseb_backward`.
pub fn default_mouseb_backward() -> (r: MouseButton)
    ensures
        r == MouseButton::Unbound,
{
    MouseButton::Unbound
}

/// Default of `mouseb_use`.
pub fn default_mouseb_use() -> (r: MouseButton)
    ensures
        r == MouseButton::Unbound,
{
    MouseButton::Unbound
}

/// Default of `key_right`.
pub fn default_key_right() -> (r: Keycode)
    ensures
        r.bits == Key::RIGHTARROW,
{
    Key::of(Key::RIGHTARROW)
}

/// Default of `key_left`.
pub fn default_key_left() -> (r: Keycode)
    ensures
        r.bits == Key::LEFTARROW,
{
    Key::of(Key::LEFTARROW)
}

/// Default of `key_up`.
pub fn default_key_up() -> (r: Keycode)
    ensures
        r.bits == Key::W,
{
    Key::of(Key::W)
}

/// Default of `key_down`.
pub fn default_key_down() -> (r: Keycode)
    ensures
        r.bits == Key::S,
{
    Key::of(Key::S)
}

/// Default of `key_mlook`.
pub fn default_key_mlook() -> (r: Keycode)
    ensures
        r.bits == Key::BACKSLASH,
{
    Key::of(Key::BACKSLASH)
}

/// Default of `key_menu_right`.
pub fn default_key_menu_right() -> (r: Keycode)
    ensures
        r.bits == Key::RIGHTARROW,
{
    Key::of(Key::RIGHTARROW)
}

/// Default of `key_menu_left`.
pub fn default_key_menu_left() -> (r: Keycode)
    ensures
        r.bits == Key::LEFTARROW,
{
    Key::of(Key::LEFTARROW)
}

/// Default of `key_menu_up`.
pub fn default_key_menu_up() -> (r: Keycode)
    ensures
        r.bits == Key::UPARROW,
{
    Key::of(Key::UPARROW)
}

/// Default of `key_menu_down`.
pub fn default_key_menu_down() -> (r: Keycode)
    ensures
        r.bits == Key::DOWNARROW,
{
    Key::of(Key::DOWNARROW)
}

/// Default of `key_menu_backspace`.
pub fn default_key_menu_backspace() -> (r: Keycode)
    ensures
        r.bits == Key::BACKSPACE,
{
    Key::of(Key::BACKSPACE)
}

/// Default of `key_menu_escape`.
pub fn default_key_menu_escape() -> (r: Keycode)
    ensures
        r.bits == Key::ESCAPE,
{
    Key::of(Key::ESCAPE)
}

/// Default of `key_menu_enter`.
pub fn default_key_menu_enter() -> (r: Keycode)
    ensures
        r.bits == Key::ENTER,
{
    Key::of(Key::ENTER)
}

/// Default of `key_menu_clear`.
pub fn default_key_menu_clear() -> (r: Keycode)
    ensures
        r.bits == Key::DEL,
{
    Key::of(Key::DEL)
}

/// Default of `key_setup`.
pub fn default_key_setup() -> (r: Keycode)
    ensures
        r.bits == Key::NONE,
{
    Key::of(Key::NONE)
}

/// Default of `key_strafeleft`.
pub fn default_key_strafeleft() -> (r: Keycode)
    ensures
        r.bits == Key::A,
{
    Key::of(Key::A)
}

/// Default of `key_straferight`.
pub fn default_key_straferight() -> (r: Keycode)
    ensures
        r.bits == Key::D,
{
    Key::of(Key::D)
}

/// Default of `key_flyup`.
pub fn default_key_flyup() -> (r: Keycode)
    ensures
        r.bits == Key::PERIOD,
{
    Key::of(Key::PERIOD)
}

/// Default of `key_flydown`.
pub fn default_key_flydown() -> (r: Keycode)
    ensures
        r.bits == Key::COMMA,
{
    Key::of(Key::COMMA)
}

/// Default of `key_fire`.
pub fn default_key_fire() -> (r: Keycode)
    ensures
        r.bits == Key::RCTRL,
{
    Key::of(Key::RCTRL)
}

/// Default of `key_use`.
pub fn default_key_use() -> (r: Keycode)
    ensures
        r.bits == Key::SPACEBAR,
{
    Key::of(Key::SPACEBAR)
}

/// Default of `key_strafe`.
pub fn default_key_strafe() -> (r: Keycode)
    ensures
        r.bits == Key::RALT,
{
    Key::of(Key::RALT)
}

/// Default of `key_speed`.
pub fn default_key_speed() -> (r: Keycode)
    ensures
        r.bits == Key::RSHIFT,
{
    Key::of(Key::RSHIFT)
}

/// Default of `key_savegame`.
pub fn default_key_savegame() -> (r: Keycode)
    ensures
        r.bits == Key::F2,
{
    Key::of(Key::F2)
}

/// Default of `key_loadgame`.
pub fn default_key_loadgame() -> (r: Keycode)
    ensures
        r.bits == Key::F3,
{
    Key::of(Key::F3)
}

/// Default of `key_soundvolume`.
pub fn default_key_soundvolume() -> (r: Keycode)
    ensures
        r.bits == Key::F4,
{
    Key::of(Key::F4)
}

/// Default of `key_hud`.
pub fn default_key_hud() -> (r: Keycode)
    ensures
        r.bits == Key::F5,
{
    Key::of(Key::F5)
}

/// Default of `key_quicksave`.
pub fn default_key_quicksave() -> (r: Keycode)
    ensures
        r.bits == Key::F6,
{
    Key::of(Key::F6)
}

/// Default of `key_endgame`.
pub fn default_key_endgame() -> (r: Keycode)
    ensures
        r.bits == Key::F7,
{
    Key::of(Key::F7)
}

/// Default of `key_messages`.
pub fn default_key_messages() -> (r: Keycode)
    ensures
        r.bits == Key::F8,
{
    Key::of(Key::F8)
}

/// Default of `key_quickload`.
pub fn default_key_quickload() -> (r: Keycode)
    ensures
        r.bits == Key::F9,
{
    Key::of(Key::F9)
}

/// Default of `key_quit`.
pub fn default_key_quit() -> (r: Keycode)
    ensures
        r.bits == Key::F10,
{
    Key::of(Key::F10)
}

/// Default of `key_gamma`.
pub fn default_key_gamma() -> (r: Keycode)
    ensures
        r.bits == Key::F11,
{
    Key::of(Key::F11)
}

/// Default of `key_spy`.
pub fn default_key_spy() -> (r: Keycode)
    ensures
        r.bits == Key::F12,
{
    Key::of(Key::F12)
}

/// Default of `key_pause`.
pub fn default_key_pause() -> (r: Keycode)
    ensures
        r.bits == Key::PAUSE,
{
    Key::of(Key::PAUSE)
}

/// Default of `key_autorun`.
pub fn default_key_autorun() -> (r: Keycode)
    ensures
        r.bits == Key::CAPSLOCK,
{
    Key::of(Key::CAPSLOCK)
}

/// Default of `key_chat`.
pub fn default_key_chat() -> (r: Keycode)
    ensures
        r.bits == Key::T,
{
    Key::of(Key::T)
}

/// Default of `key_backspace`.
pub fn default_key_backspace() -> (r: Keycode)
    ensures
        r.bits == Key::BACKSPACE,
{
    Key::of(Key::BACKSPACE)
}

/// Default of `key_enter`.
pub fn default_key_enter() -> (r: Keycode)
    ensures
        r.bits == Key::ENTER,
{
    Key::of(Key::ENTER)
}

/// Default of `key_map`.
pub fn default_key_map() -> (r: Keycode)
    ensures
        r.bits == Key::TAB,
{
    Key::of(Key::TAB)
}

/// Default of `key_map_right`.
pub fn default_key_map_right() -> (r: Keycode)
    ensures
        r.bits == Key::RIGHTARROW,
{
    Key::of(Key::RIGHTARROW)
}

/// Default of `key_map_left`.
pub fn default_key_map_left() -> (r: Keycode)
    ensures
        r.bits == Key::LEFTARROW,
{
    Key::of(Key::LEFTARROW)
}

/// Default of `key_map_up`.
pub fn default_key_map_up() -> (r: Keycode)
    ensures
        r.bits == Key::UPARROW,
{
    Key::of(Key::UPARROW)
}

/// Default of `key_map_down`.
pub fn default_key_map_down() -> (r: Keycode)
    ensures
        r.bits == Key::DOWNARROW,
{
    Key::of(Key::DOWNARROW)
}

/// Default of `key_map_zoomin`.
pub fn default_key_map_zoomin() -> (r: Keycode)
    ensures
        r.bits == Key::EQUALS,
{
    Key::of(Key::EQUALS)
}

/// Default of `key_map_zoomout`.
pub fn default_key_map_zoomout() -> (r: Keycode)
    ensures
        r.bits == Key::MINUS,
{
    Key::of(Key::MINUS)
}

/// Default of `key_map_gobig`.
pub fn default_key_map_gobig() -> (r: Keycode)
    ensures
        r.bits == Key::ZERO,
{
    Key::of(Key::ZERO)
}

/// Default of `key_map_follow`.
pub fn default_key_map_follow() -> (r: Keycode)
    ensures
        r.bits == Key::F,
{
    Key::of(Key::F)
}

/// Default of `key_map_mark`.
pub fn default_key_map_mark() -> (r: Keycode)
    ensures
        r.bits == Key::M,
{
    Key::of(Key::M)
}

/// Default of `key_map_clear`.
pub fn default_key_map_clear() -> (r: Keycode)
    ensures
        r.bits == Key::C,
{
    Key::of(Key::C)
}

/// Default of `key_map_grid`.
pub fn default_key_map_grid() -> (r: Keycode)
    ensures
        r.bits == Key::G,
{
    Key::of(Key::G)
}

/// Default of `key_map_rotate`.
pub fn default_key_map_rotate() -> (r: Keycode)
    ensures
        r.bits == Key::R,
{
    Key::of(Key::R)
}

/// Default of `key_map_overlay`.
pub fn default_key_map_overlay() -> (r: Keycode)
    ensures
        r.bits == Key::O,
{
    Key::of(Key::O)
}

/// Default of `key_map_textured`.
pub fn default_key_map_textured() -> (r: Keycode)
    ensures
        r.bits == Key::NONE,
{
    Key::of(Key::NONE)
}

/// Default of `key_reverse`.
pub fn default_key_reverse() -> (r: Keycode)
    ensures
        r.bits == Key::SLASH,
{
    Key::of(Key::SLASH)
}

/// Default of `key_zoomin`.
pub fn default_key_zoomin() -> (r: Keycode)
    ensures
        r.bits == Key::EQUALS,
{
    Key::of(Key::EQUALS)
}

/// Default of `key_zoomout`.
pub fn default_key_zoomout() -> (r: Keycode)
    ensures
        r.bits == Key::MINUS,
{
    Key::of(Key::MINUS)
}

/// Default of `key_chatplayer1`.
pub fn default_key_chatplayer1() -> (r: Keycode)
    ensures
        r.bits == Key::G,
{
    Key::of(Key::G)
}

/// Default of `key_chatplayer2`.
pub fn default_key_chatplayer2() -> (r: Keycode)
    ensures
        r.bits == Key::I,
{
    Key::of(Key::I)
}

/// Default of `key_chatplayer3`.
pub fn default_key_chatplayer3() -> (r: Keycode)
    ensures
        r.bits == Key::B,
{
    Key::of(Key::B)
}

/// Default of `key_chatplayer4`.
pub fn default_key_chatplayer4() -> (r: Keycode)
    ensures
        r.bits == Key::R,
{
    Key::of(Key::R)
}

/// Default of `key_weapontoggle`.
pub fn default_key_weapontoggle() -> (r: Keycode)
    ensures
        r.bits == Key::ZERO,
{
    Key::of(Key::ZERO)
}

/// Default of `key_weapon1`.
pub fn default_key_weapon1() -> (r: Keycode)
    ensures
        r.bits == Key::ONE,
{
    Key::of(Key::ONE)
}

/// Default of `key_weapon2`.
pub fn default_key_weapon2() -> (r: Keycode)
    ensures
        r.bits == Key::TWO,
{
    Key::of(Key::TWO)
}

/// Default of `key_weapon3`.
pub fn default_key_weapon3() -> (r: Keycode)
    ensures
        r.bits == Key::THREE,
{
    Key::of(Key::THREE)
}

/// Default of `key_weapon4`.
pub fn default_key_weapon4() -> (r: Keycode)
    ensures
        r.bits == Key::FOUR,
{
    Key::of(Key::FOUR)
}

/// Default of `key_weapon5`.
pub fn default_key_weapon5() -> (r: Keycode)
    ensures
        r.bits == Key::FIVE,
{
    Key::of(Key::FIVE)
}

/// Default of `key_weapon6`.
pub fn default_key_weapon6() -> (r: Keycode)
    ensures
        r.bits == Key::SIX,
{
    Key::of(Key::SIX)
}

/// Default of `key_weapon7`.
pub fn default_key_weapon7() -> (r: Keycode)
    ensures
        r.bits == Key::SEVEN,
{
    Key::of(Key::SEVEN)
}

/// Default of `key_weapon8`.
pub fn default_key_weapon8() -> (r: Keycode)
    ensures
        r.bits == Key::EIGHT,
{
    Key::of(Key::EIGHT)
}

/// Default of `key_weapon9`.
pub fn default_key_weapon9() -> (r: Keycode)
    ensures
        r.bits == Key::NINE,
{
    Key::of(Key::NINE)
}

/// Default of `key_nextweapon`.
pub fn default_key_nextweapon() -> (r: Keycode)
    ensures
        r.bits == Key::MWHEELDOWN,
{
    Key::of(Key::MWHEELDOWN)
}

/// Default of `key_prevweapon`.
pub fn default_key_prevweapon() -> (r: Keycode)
    ensures
        r.bits == Key::MWHEELUP,
{
    Key::of(Key::MWHEELUP)
}

/// Default of `key_screenshot`.
pub fn default_key_screenshot() -> (r: Keycode)
    ensures
        r.bits == Key::STAR,
{
    Key::of(Key::STAR)
}

/// Default of `use_joystick`.
pub fn default_use_joystick() -> (r: bool)
    ensures
        !r,
{
    false
}

/// Default of `joy_left`.
pub fn default_joy_left() -> (r: usize)
    ensures
        r == 0,
{
    0
}

/// Default of `joy_right`.
pub fn default_joy_right() -> (r: usize)
    ensures
        r == 0,
{
    0
}

/// Default of `joy_up`.
pub fn default_joy_up() -> (r: usize)
    ensures
        r == 0,
{
    0
}

/// Default of `joy_down`.
pub fn default_joy_down() -> (r: usize)
    ensures
        r == 0,
{
    0
}

/// Default of `joyb_fire`.
pub fn default_joyb_fire() -> (r: usize)
    ensures
        r == 0,
{
    0
}

/// Default of `joyb_strafe`.
pub fn default_joyb_strafe() -> (r: usize)
    ensures
        r == 1,
{
    1
}

/// Default of `joyb_strafeleft`.
pub fn default_joyb_strafeleft() -> (r: usize)
    ensures
        r == 4,
{
    4
}

/// Default of `joyb_straferight`.
pub fn default_joyb_straferight() -> (r: usize)
    ensures
        r == 5,
{
    5
}

/// Default of `joyb_speed`.
pub fn default_joyb_speed() -> (r: usize)
    ensures
        r == 2,
{
    2
}

/// Default of `joyb_use`.
pub fn default_joyb_use() -> (r: usize)
    ensures
        r == 3,
{
    3
}

/// Default of `chatmacro0`.
pub fn default_chatmacro0() -> (r: String)
    ensures
        r@ == "No"@,
{
    "No".to_owned()
}

/// Default of `chatmacro1`.
pub fn default_chatmacro1() -> (r: String)
    ensures
        r@ == "I'm ready to kick butt!"@,
{
    "I'm ready to kick butt!".to_owned()
}

/// Default of `chatmacro2`.
pub fn default_chatmacro2() -> (r: String)
    ensures
        r@ == "I'm OK."@,
{
    "I'm OK.".to_owned()
}

/// Default of `chatmacro3`.
pub fn default_chatmacro3() -> (r: String)
    ensures
        r@ == "I'm not looking too good!"@,
{
    "I'm not looking too good!".to_owned()
}

/// Default of `chatmacro4`.
pub fn default_chatmacro4() -> (r: String)
    ensures
        r@ == "Help!"@,
{
    "Help!".to_owned()
}

/// Default of `chatmacro5`.
pub fn default_chatmacro5() -> (r: String)
    ensures
        r@ == "You suck!"@,
{
    "You suck!".to_owned()
}

/// Default of `chatmacro6`.
pub fn default_chatmacro6() -> (r: String)
    ensures
        r@ == "Next time, scumbag..."@,
{
    "Next time, scumbag...".to_owned()
}

/// Default of `chatmacro7`.
pub fn default_chatmacro7() -> (r: String)
    ensures
        r@ == "Come here!"@,
{
    "Come here!".to_owned()
}

/// Default of `chatmacro8`.
pub fn default_chatmacro8() -> (r: String)
    ensures
        r@ == "I'll take care of it."@,
{
    "I'll take care of it.".to_owned()
}

/// Default of `chatmacro9`.
pub fn default_chatmacro9() -> (r: String)
    ensures
        r@ == "Yes"@,
{
    "Yes".to_owned()
}

} // verus!
