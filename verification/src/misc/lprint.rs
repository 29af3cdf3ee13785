//! How much the program reports: each report has a level, and a mask
//! says which levels are let through.

use vstd::prelude::*;
use vstd::string::*;
use vstd::utf8::encode_utf8;

use crate::misc::args::{position_of, ArgList};

verus! {

/// A set of levels of reports, one bit for each level.
#[derive(Debug, Clone, Copy, PartialEq, Eq, Structural)]
pub struct OutputLevel {
    pub bits: u32,
}

impl OutputLevel {
    pub const NONE: u32 = 0x00;

    pub const INFO: u32 = 0x01;

    pub const CONFIRM: u32 = 0x02;

    pub const WARN: u32 = 0x04;

    pub const ERROR: u32 = 0x08;

    pub const FATAL: u32 = 0x10;

    pub const DEBUG: u32 = 0x20;

    pub const ALWAYS: u32 = 0x40;

    pub const ALL: u32 = 0x7f;

    /// The set with the given bits.
    pub fn of(bits: u32) -> (r: OutputLevel)
        ensures
            r.bits == bits,
    {
        OutputLevel { bits }
    }

    /// Whether a report of the level `level` is let through.
    pub fn lets_through(self, level: u32) -> (r: bool)
        ensures
            r == (self.bits & level != 0),
    {
        self.bits & level != 0
    }
}

/// The mask that lets through all reports.
pub fn default_output_mask() -> (r: OutputLevel)
    ensures
        r.bits == OutputLevel::ALL,
{
    OutputLevel { bits: OutputLevel::ALL }
}

/// The mask of errors: all reports but those of the level `INFO`.
pub fn default_error_mask() -> (r: OutputLevel)
    ensures
        r.bits == 0x7e,
{
    OutputLevel { bits: 0x7e }
}

/// The level that a letter stands for, in upper or lower case: `I` for
/// `INFO`, `C` for `CONFIRM`, `W` for `WARN`, `E` for `ERROR`, `F` for
/// `FATAL`, `D` for `DEBUG`, `A` for `ALWAYS`. Any other byte stands
/// for no level.
pub open spec fn level_of_letter(b: u8) -> u32 {
    if b == 0x49 || b == 0x69 {
        0x01
    } else if b == 0x43 || b == 0x63 {
        0x02
    } else if b == 0x57 || b == 0x77 {
        0x04
    } else if b == 0x45 || b == 0x65 {
        0x08
    } else if b == 0x46 || b == 0x66 {
        0x10
    } else if b == 0x44 || b == 0x64 {
        0x20
    } else if b == 0x41 || b == 0x61 {
        0x40
    } else {
        0
    }
}

/// The mask that a text of letters spells: the levels of all its
/// letters.
pub open spec fn mask_of_letters(letters: Seq<u8>) -> u32
    decreases letters.len(),
{
    if letters.len() == 0 {
        0
    } else {
        mask_of_letters(letters.drop_last()) | level_of_letter(letters.last())
    }
}

/// A mask of letters holds no bit but those of the seven levels.
pub proof fn lemma_mask_of_letters_bound(letters: Seq<u8>)
    ensures
        mask_of_letters(letters) <= OutputLevel::ALL,
    decreases letters.len(),
{
    if letters.len() > 0 {
        lemma_mask_of_letters_bound(letters.drop_last());
        let rest = mask_of_letters(letters.drop_last());
        let level = level_of_letter(letters.last());
        assert(rest | level <= 0x7f) by (bit_vector)
            requires
                rest <= 0x7f,
                level <= 0x7f,
        ;
    }
}

/// The level that a letter stands for.
fn letter_level(b: u8) -> (r: u32)
    ensures
        r == level_of_letter(b),
{
    if b == 0x49 || b == 0x69 {
        0x01
    } else if b == 0x43 || b == 0x63 {
        0x02
    } else if b == 0x57 || b == 0x77 {
        0x04
    } else if b == 0x45 || b == 0x65 {
        0x08
    } else if b == 0x46 || b == 0x66 {
        0x10
    } else if b == 0x44 || b == 0x64 {
        0x20
    } else if b == 0x41 || b == 0x61 {
        0x40
    } else {
        0
    }
}

/// Reads a mask from a text of letters.
pub fn parse_mask(letters: &str) -> (r: OutputLevel)
    ensures
        r.bits == mask_of_letters(letters.spec_bytes()),
{
    let bytes = letters.as_bytes();
    let mut bits: u32 = 0;
    let mut i: usize = 0;
    assert(bytes@.subrange(0, 0) =~= Seq::<u8>::empty());
    while i < bytes.len()
        invariant
            i <= bytes@.len(),
            bits == mask_of_letters(bytes@.subrange(0, i as int)),
        decreases bytes@.len() - i,
    {
        let ghost seen = bytes@.subrange(0, i + 1);
        assert(seen.drop_last() =~= bytes@.subrange(0, i as int));
        assert(seen.last() == bytes@[i as int]);
        bits = bits | letter_level(bytes[i]);
        i = i + 1;
    }
    assert(bytes@.subrange(0, i as int) =~= bytes@);
    OutputLevel { bits }
}

/// The letters behind the parameter `name`, where the parameter is
/// given and is followed by an argument that is no switch.
pub open spec fn letters_behind(args: Seq<String>, name: Seq<char>) -> Option<Seq<u8>> {
    match position_of(args, name) {
        Some(p) => if p + 1 < args.len() && !(encode_utf8(args[p + 1]@).len() > 0 && encode_utf8(
            args[p + 1]@,
        )[0] == 0x2d) {
            Some(encode_utf8(args[p + 1]@))
        } else {
            None
        },
        None => None,
    }
}

/// The mask that the parameter `name` sets, where it sets one.
pub fn mask_parameter(args: &Vec<String>, name: &str) -> (r: Option<OutputLevel>)
    ensures
        match letters_behind(args@, name@) {
            Some(letters) => r matches Some(mask) && mask.bits == mask_of_letters(letters),
            None => r is None,
        },
{
    match args.check_parm(name) {
        Some(p) => {
            if p < args.len() - 1 {
                let value = args[p + 1].as_str();
                let bytes = value.as_bytes();
                if bytes.len() > 0 && bytes[0] == 0x2d {
                    None
                } else {
                    Some(parse_mask(value))
                }
            } else {
                None
            }
        },
        None => None,
    }
}

/// The masks that the command line sets: the mask of reports by
/// `-cout`, the mask of errors by `-cerr`. A mask that is not set stays
/// as it is.
pub fn setup_console_masks(args: &Vec<String>) -> (r: (Option<OutputLevel>, Option<OutputLevel>))
    ensures
        match letters_behind(args@, "-cout"@) {
            Some(letters) => r.0 matches Some(mask) && mask.bits == mask_of_letters(letters),
            None => r.0 is None,
        },
        match letters_behind(args@, "-cerr"@) {
            Some(letters) => r.1 matches Some(mask) && mask.bits == mask_of_letters(letters),
            None => r.1 is None,
        },
{
    (mask_parameter(args, "-cout"), mask_parameter(args, "-cerr"))
}

} // verus!
