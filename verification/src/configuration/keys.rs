//! Key codes.
//!
//! Keys that write a character have the code of that character. The other
//! keys of the main block lie from 0x80 on, and the codes from 0x100 to
//! 0x200 belong to the numeric keypad.

use vstd::prelude::*;

verus! {

/// A key of the keyboard, or a button of the mouse that counts as one.
#[derive(Debug, Clone, Copy, PartialEq, Eq, Structural)]
pub struct Key {
    pub bits: usize,
}

impl Key {
    pub const RIGHTARROW: usize = 0xae;

    pub const LEFTARROW: usize = 0xac;

    pub const UPARROW: usize = 0xad;

    pub const DOWNARROW: usize = 0xaf;

    pub const ESCAPE: usize = 0x1b;

    pub const ENTER: usize = 0xd;

    pub const TAB: usize = 0x9;

    pub const F1: usize = 0xbb;

    pub const F2: usize = 0xbc;

    pub const F3: usize = 0xbd;

    pub const F4: usize = 0xbe;

    pub const F5: usize = 0xbf;

    pub const F6: usize = 0xc0;

    pub const F7: usize = 0xc1;

    pub const F8: usize = 0xc2;

    pub const F9: usize = 0xc3;

    pub const F10: usize = 0xc4;

    pub const F11: usize = 0xd7;

    pub const F12: usize = 0xd8;

    pub const BACKSPACE: usize = 0x7f;

    pub const PAUSE: usize = 0xff;

    pub const EQUALS: usize = 0x3d;

    pub const MINUS: usize = 0x2d;

    pub const RSHIFT: usize = 0xb6;

    pub const RCTRL: usize = 0x9d;

    pub const RALT: usize = 0xb8;

    pub const LALT: usize = 0xb8;

    pub const CAPSLOCK: usize = 0xba;

    pub const PRINTSC: usize = 0xfe;

    pub const INSERT: usize = 0xd2;

    pub const HOME: usize = 0xc7;

    pub const PAGEUP: usize = 0xc9;

    pub const PAGEDOWN: usize = 0xd1;

    pub const DEL: usize = 0xc8;

    pub const END: usize = 0xcf;

    pub const SCROLLLOCK: usize = 0xc6;

    pub const SPACEBAR: usize = 0x20;

    pub const NUMLOCK: usize = 0xc5;

    pub const KEYPAD0: usize = 0x130;

    pub const KEYPAD1: usize = 0x131;

    pub const KEYPAD2: usize = 0x132;

    pub const KEYPAD3: usize = 0x133;

    pub const KEYPAD4: usize = 0x134;

    pub const KEYPAD5: usize = 0x135;

    pub const KEYPAD6: usize = 0x136;

    pub const KEYPAD7: usize = 0x137;

    pub const KEYPAD8: usize = 0x138;

    pub const KEYPAD9: usize = 0x139;

    pub const KEYPADENTER: usize = 0x10d;

    pub const KEYPADDIVIDE: usize = 0x12f;

    pub const KEYPADMULTIPLY: usize = 0x12a;

    pub const KEYPADMINUS: usize = 0x12d;

    pub const KEYPADPLUS: usize = 0x12b;

    pub const KEYPADPERIOD: usize = 0x12e;

    pub const MOUSE1: usize = 0xe0;

    pub const MOUSE2: usize = 0xe1;

    pub const MOUSE3: usize = 0xe2;

    pub const MWHEELUP: usize = 0xeb;

    pub const MWHEELDOWN: usize = 0xec;

    pub const ZERO: usize = 0x30;

    pub const ONE: usize = 0x31;

    pub const TWO: usize = 0x32;

    pub const THREE: usize = 0x33;

    pub const FOUR: usize = 0x34;

    pub const FIVE: usize = 0x35;

    pub const SIX: usize = 0x36;

    pub const SEVEN: usize = 0x37;

    pub const EIGHT: usize = 0x38;

    pub const NINE: usize = 0x39;

    pub const W: usize = 0x77;

    pub const S: usize = 0x73;

    pub const A: usize = 0x61;

    pub const D: usize = 0x64;

    pub const T: usize = 0x74;

    pub const F: usize = 0x66;

    pub const M: usize = 0x6d;

    pub const C: usize = 0x63;

    pub const G: usize = 0x67;

    pub const R: usize = 0x72;

    pub const O: usize = 0x6f;

    pub const I: usize = 0x69;

    pub const B: usize = 0x62;

    pub const Q: usize = 0x71;

    pub const SLASH: usize = 0x2f;

    pub const STAR: usize = 0x2a;

    pub const NONE: usize = 0x0;

    pub const BACKSLASH: usize = 0x5c;

    pub const PERIOD: usize = 0x2e;

    pub const COMMA: usize = 0x2c;

    /// The key with the given code.
    pub fn of(code: usize) -> (key: Key)
        ensures
            key.bits == code,
    {
        Key { bits: code }
    }

    /// The code of the key.
    pub fn bits(self) -> (code: usize)
        ensures
            code == self.bits,
    {
        self.bits
    }
}

impl Default for Key {
    /// No key at all.
    fn default() -> (key: Key)
        ensures
            key.bits == Key::NONE,
    {
        Key { bits: Key::NONE }
    }
}

} // verus!
