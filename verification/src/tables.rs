//! Angles. A full turn is the whole range of 32 bits, so that angles wrap
//! round by themselves.

use vstd::prelude::*;

verus! {

pub const ANG45: usize = 0x20000000;

pub const ANG90: usize = 0x40000000;

pub const ANG180: usize = 0x80000000;

pub const ANG270: usize = 0xc0000000;

pub const ANG1: usize = ANG45 / 45;

pub const ANGLE_MAX: usize = 0xffffffff;

} // verus!
