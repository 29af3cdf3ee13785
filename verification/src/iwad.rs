//! Identifying the main data archive: which edition of the game it is,
//! which mission it belongs to, and whether it is a main archive at all.
//!
//! The edition is told by the names of the lumps in the directory: the
//! maps of the first game are named by episode and map (`E1M1`), those of
//! the second by their number (`MAP01`), and each edition has its own set
//! of them.

use vstd::prelude::*;
use vstd::string::*;
use vstd::utf8::{
    decode_utf8, encode_utf8, encode_utf8_decode_utf8, encode_utf8_valid_utf8,
    is_char_boundary_iff_not_is_continuation_byte,
};

use crate::configuration::Configuration;
use crate::doom::def::{GameMission, GameMode, Language};
use crate::error::StartupError;
use crate::misc::numbers::is_digit;
use crate::misc::text::{bytes_eq, bytes_start_with, str_ends_with, text_ends_with};
use crate::wad::{
    add_default_extension, directory_of, header_of, holds_directory, is_separator, read_directory,
    read_wadinfo, with_default_extension, FileLump, WadFileInfo, WadInfo, WadSource,
};

verus! {

/// What the name of a lump can tell about the archive.
#[derive(Debug, Clone, Copy, PartialEq, Eq, Structural)]
pub enum LumpPattern {
    /// A map of the first episode: `E1M` and a digit.
    SharewareMap,
    /// A map of the second or third episode: `E2M` or `E3M` and a digit.
    RegisteredMap,
    /// A map of the fourth episode: `E4M` and a digit.
    UltimateMap,
    /// A map of the second game: `MAP` and two digits.
    CommercialMap,
    /// One of the secret maps of the second game: `MAP31` or `MAP32`.
    SecretMap,
    /// The menu picture that only the BFG edition has: `DMENUPIC`.
    BfgMarker,
    /// A lump of Hacx: the name begins with `HACX`.
    HacxLump,
    /// A lump that stands in for the tag of a main archive: the name
    /// begins with `W94_1`, or is `POSSHOM0`.
    TagMarker,
}

/// Whether the name is `E`, the digit of the episode, `M`, one digit for
/// the map, and nothing more.
pub open spec fn is_episode_map(name: Seq<u8>, episode: u8) -> bool {
    &&& name[0] == 0x45
    &&& name[1] == episode
    &&& name[2] == 0x4d
    &&& is_digit(name[3])
    &&& name[4] == 0
}

/// Whether the name is `MAP`, two digits, and nothing more.
pub open spec fn is_numbered_map(name: Seq<u8>) -> bool {
    &&& name[0] == 0x4d
    &&& name[1] == 0x41
    &&& name[2] == 0x50
    &&& is_digit(name[3])
    &&& is_digit(name[4])
    &&& name[5] == 0
}

/// Whether a lump name of eight bytes fits a pattern.
pub open spec fn fits(name: Seq<u8>, pattern: LumpPattern) -> bool
    recommends
        name.len() == 8,
{
    match pattern {
        LumpPattern::SharewareMap => is_episode_map(name, 0x31),
        LumpPattern::RegisteredMap => is_episode_map(name, 0x32) || is_episode_map(name, 0x33),
        LumpPattern::UltimateMap => is_episode_map(name, 0x34),
        LumpPattern::CommercialMap => is_numbered_map(name),
        LumpPattern::SecretMap => is_numbered_map(name) && name[3] == 0x33 && (name[4] == 0x31
            || name[4] == 0x32),
        LumpPattern::BfgMarker => name == "DMENUPIC".spec_bytes(),
        LumpPattern::HacxLump => "HACX".spec_bytes().is_prefix_of(name),
        LumpPattern::TagMarker => "W94_1".spec_bytes().is_prefix_of(name) || name
            == "POSSHOM0".spec_bytes(),
    }
}

/// How many of the names fit a pattern.
pub open spec fn count_fitting(names: Seq<[u8; 8]>, pattern: LumpPattern) -> nat
    decreases names.len(),
{
    if names.len() == 0 {
        0
    } else {
        count_fitting(names.drop_first(), pattern) + if fits(names[0]@, pattern) {
            1nat
        } else {
            0nat
        }
    }
}

/// What a directory holds of each pattern.
#[derive(Debug, Clone, Copy, PartialEq, Eq, Structural)]
pub struct LumpTally {
    pub ultdoom_levels: usize,
    pub registered_levels: usize,
    pub shareware_levels: usize,
    pub commercial_levels: usize,
    pub secret_levels: usize,
    pub hacx_levels: usize,
    pub tag_markers: usize,
    pub bfg_edition: bool,
}

impl LumpTally {
    /// Whether this is the tally of the given names.
    pub open spec fn is_tally_of(self, names: Seq<[u8; 8]>) -> bool {
        &&& self.ultdoom_levels == count_fitting(names, LumpPattern::UltimateMap)
        &&& self.registered_levels == count_fitting(names, LumpPattern::RegisteredMap)
        &&& self.shareware_levels == count_fitting(names, LumpPattern::SharewareMap)
        &&& self.commercial_levels == count_fitting(names, LumpPattern::CommercialMap)
        &&& self.secret_levels == count_fitting(names, LumpPattern::SecretMap)
        &&& self.hacx_levels == count_fitting(names, LumpPattern::HacxLump)
        &&& self.tag_markers == count_fitting(names, LumpPattern::TagMarker)
        &&& self.bfg_edition == (count_fitting(names, LumpPattern::BfgMarker) > 0)
    }

    /// The edition that the tally speaks for. The first of these that
    /// holds decides: all 30 maps of the second game, or 20 of them
    /// beside a lump of Hacx; 9 maps of the fourth episode; 18 maps of
    /// the second and third episode; 9 maps of the first episode.
    pub open spec fn mode(self) -> GameMode {
        if self.commercial_levels >= 30 || (self.commercial_levels >= 20 && self.hacx_levels > 0) {
            GameMode::Commercial
        } else if self.ultdoom_levels >= 9 {
            GameMode::Retail
        } else if self.registered_levels >= 18 {
            GameMode::Registered
        } else if self.shareware_levels >= 9 {
            GameMode::Shareware
        } else {
            GameMode::Undetermined
        }
    }

    /// Whether the archive has both secret maps of the second game.
    pub open spec fn wolf_levels(self) -> bool {
        self.secret_levels >= 2
    }

    /// Whether an archive with this tally counts as a main archive. It
    /// does where it carries the tag, where it is of the BFG edition, or
    /// where two lumps stand in for the tag.
    pub open spec fn is_main_archive(self, had_iwad_tag: bool) -> bool {
        had_iwad_tag || self.bfg_edition || self.tag_markers >= 2
    }

    /// The edition that the tally speaks for.
    pub fn game_mode(&self) -> (mode: GameMode)
        ensures
            mode == self.mode(),
    {
        if self.commercial_levels >= 30 || (self.commercial_levels >= 20 && self.hacx_levels > 0) {
            GameMode::Commercial
        } else if self.ultdoom_levels >= 9 {
            GameMode::Retail
        } else if self.registered_levels >= 18 {
            GameMode::Registered
        } else if self.shareware_levels >= 9 {
            GameMode::Shareware
        } else {
            GameMode::Undetermined
        }
    }
}

/// No more names fit a pattern than there are names.
pub proof fn lemma_count_fitting_bound(names: Seq<[u8; 8]>, pattern: LumpPattern)
    ensures
        count_fitting(names, pattern) <= names.len(),
    decreases names.len(),
{
    if names.len() > 0 {
        lemma_count_fitting_bound(names.drop_first(), pattern);
    }
}

/// Where every name fits a pattern, all of them are counted; where none
/// fits, none is.
pub proof fn lemma_count_fitting_all_or_none(names: Seq<[u8; 8]>, pattern: LumpPattern)
    ensures
        (forall|i: int| 0 <= i < names.len() ==> fits(#[trigger] names[i]@, pattern))
            ==> count_fitting(names, pattern) == names.len(),
        (forall|i: int| 0 <= i < names.len() ==> !fits(#[trigger] names[i]@, pattern))
            ==> count_fitting(names, pattern) == 0,
    decreases names.len(),
{
    if names.len() > 0 {
        lemma_count_fitting_all_or_none(names.drop_first(), pattern);
        assert forall|i: int| 0 <= i < names.drop_first().len() implies names.drop_first()[i]
            == names[i + 1] by {}
        if forall|i: int| 0 <= i < names.len() ==> fits(#[trigger] names[i]@, pattern) {
            assert forall|i: int| 0 <= i < names.drop_first().len() implies fits(
                #[trigger] names.drop_first()[i]@,
                pattern,
            ) by {
                assert(names.drop_first()[i] == names[i + 1]);
            }
        }
        if forall|i: int| 0 <= i < names.len() ==> !fits(#[trigger] names[i]@, pattern) {
            assert forall|i: int| 0 <= i < names.drop_first().len() implies !fits(
                #[trigger] names.drop_first()[i]@,
                pattern,
            ) by {
                assert(names.drop_first()[i] == names[i + 1]);
            }
        }
    }
}

/// The names of two directories joined fit a pattern as often as the
/// names of both together.
pub proof fn lemma_count_fitting_of_joined(a: Seq<[u8; 8]>, b: Seq<[u8; 8]>, pattern: LumpPattern)
    ensures
        count_fitting(a + b, pattern) == count_fitting(a, pattern) + count_fitting(b, pattern),
    decreases a.len(),
{
    if a.len() == 0 {
        assert(a + b == b);
    } else {
        assert((a + b).drop_first() == a.drop_first() + b);
        assert((a + b)[0] == a[0]);
        lemma_count_fitting_of_joined(a.drop_first(), b, pattern);
    }
}

/// The order of the directory does not matter to the tally: read from
/// the end or from the beginning, the same names are counted.
pub proof fn lemma_tally_ignores_order(names: Seq<[u8; 8]>, pattern: LumpPattern)
    ensures
        count_fitting(names.reverse(), pattern) == count_fitting(names, pattern),
        tally_of(names.reverse()).mode() == tally_of(names).mode(),
    decreases names.len(),
{
    lemma_count_fitting_reversed(names, LumpPattern::UltimateMap);
    lemma_count_fitting_reversed(names, LumpPattern::RegisteredMap);
    lemma_count_fitting_reversed(names, LumpPattern::SharewareMap);
    lemma_count_fitting_reversed(names, LumpPattern::CommercialMap);
    lemma_count_fitting_reversed(names, LumpPattern::HacxLump);
    lemma_count_fitting_reversed(names, pattern);
}

/// The names of a directory in reverse fit a pattern as often as in
/// their own order.
proof fn lemma_count_fitting_reversed(names: Seq<[u8; 8]>, pattern: LumpPattern)
    ensures
        count_fitting(names.reverse(), pattern) == count_fitting(names, pattern),
    decreases names.len(),
{
    if names.len() > 0 {
        let rest = names.drop_first();
        let first = seq![names[0]];
        assert(names.reverse() =~= rest.reverse() + first);
        lemma_count_fitting_of_joined(rest.reverse(), first, pattern);
        lemma_count_fitting_reversed(rest, pattern);
        assert(first.drop_first().len() == 0);
        assert(count_fitting(first, pattern) == if fits(names[0]@, pattern) {
            1nat
        } else {
            0nat
        }) by {
            reveal_with_fuel(count_fitting, 2);
        }
    } else {
        assert(names.reverse() =~= names);
    }
}

/// Whether the name is `E`, the digit of the episode, `M`, one digit for
/// the map, and nothing more.
fn name_is_episode_map(name: &[u8; 8], episode: u8) -> (r: bool)
    ensures
        r == is_episode_map(name@, episode),
{
    name[0] == 0x45 && name[1] == episode && name[2] == 0x4d && 0x30 <= name[3] && name[3] <= 0x39
        && name[4] == 0
}

/// Whether the name is `MAP`, two digits, and nothing more.
fn name_is_numbered_map(name: &[u8; 8]) -> (r: bool)
    ensures
        r == is_numbered_map(name@),
{
    name[0] == 0x4d && name[1] == 0x41 && name[2] == 0x50 && 0x30 <= name[3] && name[3] <= 0x39
        && 0x30 <= name[4] && name[4] <= 0x39 && name[5] == 0
}

/// Whether a lump name fits a pattern.
pub fn lump_fits(name: &[u8; 8], pattern: LumpPattern) -> (r: bool)
    ensures
        r == fits(name@, pattern),
{
    match pattern {
        LumpPattern::SharewareMap => name_is_episode_map(name, 0x31),
        LumpPattern::RegisteredMap => name_is_episode_map(name, 0x32) || name_is_episode_map(
            name,
            0x33,
        ),
        LumpPattern::UltimateMap => name_is_episode_map(name, 0x34),
        LumpPattern::CommercialMap => name_is_numbered_map(name),
        LumpPattern::SecretMap => name_is_numbered_map(name) && name[3] == 0x33 && (name[4] == 0x31
            || name[4] == 0x32),
        LumpPattern::BfgMarker => bytes_eq(name.as_slice(), "DMENUPIC".as_bytes()),
        LumpPattern::HacxLump => bytes_start_with(name.as_slice(), "HACX".as_bytes()),
        LumpPattern::TagMarker => bytes_start_with(name.as_slice(), "W94_1".as_bytes()) || bytes_eq(
            name.as_slice(),
            "POSSHOM0".as_bytes(),
        ),
    }
}

/// Counts what the names of a directory tell about the archive. The
/// directory is read from its end to its beginning.
pub fn tally_lumps(names: &[[u8; 8]]) -> (tally: LumpTally)
    ensures
        tally.is_tally_of(names@),
{
    let mut ultdoom_levels: usize = 0;
    let mut registered_levels: usize = 0;
    let mut shareware_levels: usize = 0;
    let mut commercial_levels: usize = 0;
    let mut secret_levels: usize = 0;
    let mut hacx_levels: usize = 0;
    let mut tag_markers: usize = 0;
    let mut bfg_markers: usize = 0;
    let mut length: usize = names.len();
    while length > 0
        invariant
            length <= names@.len() <= usize::MAX,
            ultdoom_levels == count_fitting(
                names@.subrange(length as int, names@.len() as int),
                LumpPattern::UltimateMap,
            ),
            registered_levels == count_fitting(
                names@.subrange(length as int, names@.len() as int),
                LumpPattern::RegisteredMap,
            ),
            shareware_levels == count_fitting(
                names@.subrange(length as int, names@.len() as int),
                LumpPattern::SharewareMap,
            ),
            commercial_levels == count_fitting(
                names@.subrange(length as int, names@.len() as int),
                LumpPattern::CommercialMap,
            ),
            secret_levels == count_fitting(
                names@.subrange(length as int, names@.len() as int),
                LumpPattern::SecretMap,
            ),
            hacx_levels == count_fitting(
                names@.subrange(length as int, names@.len() as int),
                LumpPattern::HacxLump,
            ),
            tag_markers == count_fitting(
                names@.subrange(length as int, names@.len() as int),
                LumpPattern::TagMarker,
            ),
            bfg_markers == count_fitting(
                names@.subrange(length as int, names@.len() as int),
                LumpPattern::BfgMarker,
            ),
        decreases length,
    {
        let ghost seen = names@.subrange(length as int, names@.len() as int);
        length = length - 1;
        let name = &names[length];
        proof {
            let now = names@.subrange(length as int, names@.len() as int);
            assert(now[0] == names@[length as int]);
            assert(now.drop_first() == seen);
            lemma_count_fitting_bound(seen, LumpPattern::UltimateMap);
            lemma_count_fitting_bound(seen, LumpPattern::RegisteredMap);
            lemma_count_fitting_bound(seen, LumpPattern::SharewareMap);
            lemma_count_fitting_bound(seen, LumpPattern::CommercialMap);
            lemma_count_fitting_bound(seen, LumpPattern::SecretMap);
            lemma_count_fitting_bound(seen, LumpPattern::HacxLump);
            lemma_count_fitting_bound(seen, LumpPattern::TagMarker);
            lemma_count_fitting_bound(seen, LumpPattern::BfgMarker);
        }
        if lump_fits(name, LumpPattern::UltimateMap) {
            ultdoom_levels = ultdoom_levels + 1;
        }
        if lump_fits(name, LumpPattern::RegisteredMap) {
            registered_levels = registered_levels + 1;
        }
        if lump_fits(name, LumpPattern::SharewareMap) {
            shareware_levels = shareware_levels + 1;
        }
        if lump_fits(name, LumpPattern::CommercialMap) {
            commercial_levels = commercial_levels + 1;
        }
        if lump_fits(name, LumpPattern::SecretMap) {
            secret_levels = secret_levels + 1;
        }
        if lump_fits(name, LumpPattern::BfgMarker) {
            bfg_markers = bfg_markers + 1;
        }
        if lump_fits(name, LumpPattern::HacxLump) {
            hacx_levels = hacx_levels + 1;
        }
        if lump_fits(name, LumpPattern::TagMarker) {
            tag_markers = tag_markers + 1;
        }
    }
    assert(names@.subrange(0, names@.len() as int) == names@);
    LumpTally {
        ultdoom_levels,
        registered_levels,
        shareware_levels,
        commercial_levels,
        secret_levels,
        hacx_levels,
        tag_markers,
        bfg_edition: bfg_markers > 0,
    }
}

/// The names of the lumps of a directory, in its order.
pub fn lump_names(directory: &[FileLump]) -> (names: Vec<[u8; 8]>)
    ensures
        names@.len() == directory@.len(),
        forall|i: int| 0 <= i < names@.len() ==> #[trigger] names@[i] == directory@[i].name,
{
    let mut names: Vec<[u8; 8]> = Vec::new();
    let mut i: usize = 0;
    while i < directory.len()
        invariant
            i <= directory@.len(),
            names@.len() == i,
            forall|k: int| 0 <= k < i ==> #[trigger] names@[k] == directory@[k].name,
        decreases directory@.len() - i,
    {
        names.push(directory[i].name);
        i = i + 1;
    }
    names
}

/// The tally of the given names.
pub open spec fn tally_of(names: Seq<[u8; 8]>) -> LumpTally {
    LumpTally {
        ultdoom_levels: count_fitting(names, LumpPattern::UltimateMap) as usize,
        registered_levels: count_fitting(names, LumpPattern::RegisteredMap) as usize,
        shareware_levels: count_fitting(names, LumpPattern::SharewareMap) as usize,
        commercial_levels: count_fitting(names, LumpPattern::CommercialMap) as usize,
        secret_levels: count_fitting(names, LumpPattern::SecretMap) as usize,
        hacx_levels: count_fitting(names, LumpPattern::HacxLump) as usize,
        tag_markers: count_fitting(names, LumpPattern::TagMarker) as usize,
        bfg_edition: count_fitting(names, LumpPattern::BfgMarker) > 0,
    }
}

/// The mission that an archive of the given edition and file name
/// belongs to. An archive of the first game is Chex Quest where its name
/// ends in `chex.wad`. An archive of the second game is told by the end
/// of its name too: `tnt.wad`, `plutonia.wad` or `hacx.wad`. Where no
/// edition was recognised the mission stays as it is.
pub open spec fn mission_of(mode: GameMode, file: Seq<char>, current: GameMission) -> GameMission {
    match mode {
        GameMode::Retail | GameMode::Registered | GameMode::Shareware => {
            if text_ends_with(file, "chex.wad"@) {
                GameMission::Chex
            } else {
                GameMission::Doom
            }
        },
        GameMode::Commercial => {
            if text_ends_with(file, "tnt.wad"@) {
                GameMission::TNT
            } else if text_ends_with(file, "plutonia.wad"@) {
                GameMission::Plutonia
            } else if text_ends_with(file, "hacx.wad"@) {
                GameMission::Hacx
            } else {
                GameMission::Doom2
            }
        },
        GameMode::Undetermined => current,
    }
}

/// The language of an archive: French for the French edition of the
/// second game, whose name ends in `doom2f.wad`.
pub open spec fn language_of(mode: GameMode, file: Seq<char>, current: Language) -> Language {
    if mode == GameMode::Commercial && text_ends_with(file, "doom2f.wad"@) {
        Language::French
    } else {
        current
    }
}

/// Tells the mission of an archive by its edition and the end of its
/// file name.
pub fn identify_mission(mode: GameMode, file: &str, current: GameMission) -> (r: GameMission)
    ensures
        r == mission_of(mode, file@, current),
{
    match mode {
        GameMode::Retail | GameMode::Registered | GameMode::Shareware => {
            if str_ends_with(file, "chex.wad") {
                GameMission::Chex
            } else {
                GameMission::Doom
            }
        },
        GameMode::Commercial => {
            if str_ends_with(file, "tnt.wad") {
                GameMission::TNT
            } else if str_ends_with(file, "plutonia.wad") {
                GameMission::Plutonia
            } else if str_ends_with(file, "hacx.wad") {
                GameMission::Hacx
            } else {
                GameMission::Doom2
            }
        },
        GameMode::Undetermined => current,
    }
}

/// Tells the language of an archive.
pub fn identify_language(mode: GameMode, file: &str, current: Language) -> (r: Language)
    ensures
        r == language_of(mode, file@, current),
{
    match mode {
        GameMode::Commercial => {
            if str_ends_with(file, "doom2f.wad") {
                Language::French
            } else {
                current
            }
        },
        _ => current,
    }
}

/// What the identification of a main archive yields.
#[derive(Debug, Clone, Copy, PartialEq, Eq, Structural)]
pub struct Classification {
    pub game_mode: GameMode,
    pub game_mission: GameMission,
    /// Whether the archive has both secret maps of the second game.
    pub has_wolf_levels: bool,
    pub bfg_edition: bool,
}

/// The classification of an archive with the given lump names and file
/// name, or the failure where it is no main archive.
pub open spec fn classification_of(
    names: Seq<[u8; 8]>,
    had_iwad_tag: bool,
    file: Seq<char>,
) -> Result<Classification, StartupError> {
    let tally = tally_of(names);
    if tally.is_main_archive(had_iwad_tag) {
        Ok(
            Classification {
                game_mode: tally.mode(),
                game_mission: mission_of(tally.mode(), file, GameMission::NoMission),
                has_wolf_levels: tally.mode() == GameMode::Commercial && tally.wolf_levels(),
                bfg_edition: tally.bfg_edition,
            },
        )
    } else {
        Err(StartupError::IwadTagMissing)
    }
}

/// Identifies a main archive by the names of its lumps and by its file
/// name. `had_iwad_tag` says whether the header carries the tag `IWAD`.
pub fn classify(lump_names: &[[u8; 8]], had_iwad_tag: bool, file: &str) -> (r: Result<
    Classification,
    StartupError,
>)
    ensures
        r == classification_of(lump_names@, had_iwad_tag, file@),
{
    let tally = tally_lumps(lump_names);
    proof {
        lemma_tally_of(tally, lump_names@);
    }
    if !had_iwad_tag && !tally.bfg_edition && tally.tag_markers < 2 {
        return Err(StartupError::IwadTagMissing);
    }
    let game_mode = tally.game_mode();
    let has_wolf_levels = match game_mode {
        GameMode::Commercial => tally.secret_levels >= 2,
        _ => false,
    };
    Ok(
        Classification {
            game_mode,
            game_mission: identify_mission(game_mode, file, GameMission::NoMission),
            has_wolf_levels,
            bfg_edition: tally.bfg_edition,
        },
    )
}

/// A tally that was counted is the tally of the names.
pub proof fn lemma_tally_of(tally: LumpTally, names: Seq<[u8; 8]>)
    requires
        tally.is_tally_of(names),
    ensures
        tally == tally_of(names),
{
}

/// An archive with at least 30 numbered maps is of the second game,
/// whatever else it holds.
pub proof fn lemma_thirty_maps_are_commercial(
    names: Seq<[u8; 8]>,
    had_iwad_tag: bool,
    file: Seq<char>,
)
    requires
        names.len() <= usize::MAX,
        count_fitting(names, LumpPattern::CommercialMap) >= 30,
    ensures
        tally_of(names).mode() == GameMode::Commercial,
        classification_of(names, had_iwad_tag, file) matches Ok(c) ==> c.game_mode
            == GameMode::Commercial,
        had_iwad_tag ==> classification_of(names, had_iwad_tag, file) is Ok,
{
    lemma_count_fitting_bound(names, LumpPattern::CommercialMap);
}

/// An archive that holds nine maps of the first episode and nothing
/// else is the shareware edition.
pub proof fn lemma_nine_first_episode_maps_are_shareware(names: Seq<[u8; 8]>, file: Seq<char>)
    requires
        names.len() == 9,
        forall|i: int|
            0 <= i < names.len() ==> fits(#[trigger] names[i]@, LumpPattern::SharewareMap),
    ensures
        tally_of(names).mode() == GameMode::Shareware,
        classification_of(names, true, file) matches Ok(c) && c.game_mode == GameMode::Shareware,
        classification_of(names, false, file) == Err::<Classification, StartupError>(
            StartupError::IwadTagMissing,
        ),
{
    lemma_count_fitting_all_or_none(names, LumpPattern::SharewareMap);
    assert forall|i: int| 0 <= i < names.len() implies !fits(
        #[trigger] names[i]@,
        LumpPattern::CommercialMap,
    ) && !fits(names[i]@, LumpPattern::UltimateMap) && !fits(names[i]@, LumpPattern::RegisteredMap)
        && !fits(names[i]@, LumpPattern::HacxLump) && !fits(names[i]@, LumpPattern::TagMarker)
        && !fits(names[i]@, LumpPattern::BfgMarker) by {
        assert(fits(names[i]@, LumpPattern::SharewareMap));
        lemma_marker_names();
    }
    lemma_count_fitting_all_or_none(names, LumpPattern::CommercialMap);
    lemma_count_fitting_all_or_none(names, LumpPattern::UltimateMap);
    lemma_count_fitting_all_or_none(names, LumpPattern::RegisteredMap);
    lemma_count_fitting_all_or_none(names, LumpPattern::HacxLump);
    lemma_count_fitting_all_or_none(names, LumpPattern::TagMarker);
    lemma_count_fitting_all_or_none(names, LumpPattern::BfgMarker);
}

/// None of the marker names begins with an `E`.
proof fn lemma_marker_names()
    ensures
        "DMENUPIC".spec_bytes().len() == 8 && "DMENUPIC".spec_bytes()[0] == 0x44,
        "HACX".spec_bytes().len() == 4 && "HACX".spec_bytes()[0] == 0x48,
        "W94_1".spec_bytes().len() == 5 && "W94_1".spec_bytes()[0] == 0x57,
        "POSSHOM0".spec_bytes().len() == 8 && "POSSHOM0".spec_bytes()[0] == 0x50,
{
    reveal_strlit("DMENUPIC");
    reveal_strlit("HACX");
    reveal_strlit("W94_1");
    reveal_strlit("POSSHOM0");
    is_ascii_spec_bytes("DMENUPIC");
    is_ascii_spec_bytes("HACX");
    is_ascii_spec_bytes("W94_1");
    is_ascii_spec_bytes("POSSHOM0");
    assert("DMENUPIC"@.len() == 8 && "DMENUPIC"@[0] == 'D');
    assert("HACX"@.len() == 4 && "HACX"@[0] == 'H');
    assert("W94_1"@.len() == 5 && "W94_1"@[0] == 'W');
    assert("POSSHOM0"@.len() == 8 && "POSSHOM0"@[0] == 'P');
}

/// An archive of the second game whose file name ends in `plutonia.wad`
/// belongs to the Plutonia mission.
pub proof fn lemma_plutonia_mission(file: Seq<char>, current: GameMission)
    requires
        text_ends_with(file, "plutonia.wad"@),
    ensures
        mission_of(GameMode::Commercial, file, current) == GameMission::Plutonia,
{
    reveal_strlit("plutonia.wad");
    reveal_strlit("tnt.wad");
    is_ascii_spec_bytes("plutonia.wad");
    is_ascii_spec_bytes("tnt.wad");
    let p = encode_utf8("plutonia.wad"@);
    let t = encode_utf8("tnt.wad"@);
    let f = encode_utf8(file);
    assert("plutonia.wad"@.len() == 12 && "plutonia.wad"@[5] == 'n' && "plutonia.wad"@[6] == 'i');
    assert("tnt.wad"@.len() == 7 && "tnt.wad"@[0] == 't' && "tnt.wad"@[1] == 'n');
    assert(p == "plutonia.wad".spec_bytes());
    assert(t == "tnt.wad".spec_bytes());
    if t.is_suffix_of(f) {
        assert(f.subrange(f.len() - 7, f.len() as int)[0] == t[0]);
        assert(f.subrange(f.len() - 12, f.len() as int)[5] == p[5]);
        assert(f[f.len() - 7] == 0x74);
        assert(f[f.len() - 7] == 0x6e);
    }
}

/// The names of the lumps of a directory, in its order.
pub open spec fn names_of(directory: Seq<FileLump>) -> Seq<[u8; 8]> {
    Seq::new(directory.len(), |i: int| directory[i].name)
}

/// Whether a header carries the tag of a main archive.
pub open spec fn has_iwad_tag(header: WadInfo) -> bool {
    header.identification@ == "IWAD".spec_bytes()
}

/// The configuration after the archive with the given tally was
/// identified. The mark of the BFG edition, once set, stays. Whether the
/// secret maps are there is only asked of an archive of the second game.
pub open spec fn identified(c: Configuration, tally: LumpTally) -> Configuration {
    Configuration {
        bfg_edition: c.bfg_edition || tally.bfg_edition,
        game_mode: tally.mode(),
        has_wolf_levels: wolf_levels_known(c, tally),
        ..c
    }
}

/// Whether the secret maps of the second game are known to be there.
pub open spec fn wolf_levels_known(c: Configuration, tally: LumpTally) -> bool {
    if tally.mode() == GameMode::Commercial {
        tally.wolf_levels()
    } else {
        c.has_wolf_levels
    }
}

/// Identifies the edition of a main archive from its header and its
/// directory. An archive without the tag `IWAD` is refused, unless it is
/// of the BFG edition or two of its lumps stand in for the tag.
pub fn check_iwad(configuration: Configuration, header: &WadInfo, directory: &[FileLump]) -> (r:
    Result<Configuration, StartupError>)
    ensures
        ({
            let tally = tally_of(names_of(directory@));
            if counts_as_main_archive(configuration, *header, tally) {
                r == Ok::<Configuration, StartupError>(identified(configuration, tally))
            } else {
                r matches Err(e) && e == StartupError::IwadTagMissing
            }
        }),
{
    let noiwad = !bytes_eq(header.identification.as_slice(), "IWAD".as_bytes());
    let names = lump_names(directory);
    assert(names@ =~= names_of(directory@));
    let tally = tally_lumps(names.as_slice());
    proof {
        lemma_tally_of(tally, names@);
    }
    let bfg_edition = configuration.bfg_edition || tally.bfg_edition;
    if noiwad && !bfg_edition && tally.tag_markers < 2 {
        return Err(StartupError::IwadTagMissing);
    }
    let game_mode = tally.game_mode();
    let has_wolf_levels = match game_mode {
        GameMode::Commercial => tally.secret_levels >= 2,
        _ => configuration.has_wolf_levels,
    };
    Ok(Configuration { bfg_edition, game_mode, has_wolf_levels, ..configuration })
}

/// Whether the last component of `path` is `name`: the path ends with
/// the name, and the name begins the path or follows a separator.
/// Meant for a name that holds no separator itself.
pub open spec fn is_named(path: Seq<u8>, name: Seq<u8>) -> bool {
    &&& name.is_suffix_of(path)
    &&& path.len() == name.len() || is_separator(path[path.len() - name.len() - 1])
}

/// Whether the file at `path` is named `name`.
pub fn file_is_named(path: &str, name: &str) -> (r: bool)
    ensures
        r == is_named(path.spec_bytes(), name.spec_bytes()),
{
    let p = path.as_bytes();
    let n = name.as_bytes();
    if !crate::misc::text::bytes_end_with(p, n) {
        return false;
    }
    if p.len() == n.len() {
        return true;
    }
    let before: u8 = p[p.len() - n.len() - 1];
    before == 0x2f || before == 0x5c
}

/// Whether `info` describes the archive at `name`, named at `source`
/// and not opened yet.
pub open spec fn is_archive_entry(info: WadFileInfo, name: Seq<char>, source: WadSource) -> bool {
    &&& info.name@ == name
    &&& info.src == source
    &&& info.handle == 0
}

/// The name of the node file that goes with an archive named `.wad`:
/// the same name with `gwa` for `wad`.
pub open spec fn node_file_name(name: Seq<char>) -> Seq<char> {
    decode_utf8(encode_utf8(name).subrange(0, encode_utf8(name).len() - 3)) + "gwa"@
}

/// Whether `files` is the list `before` with the archive `file` added
/// to it: the archive itself under its name with the extension `.wad`,
/// and behind it its node file where the archive is named `.wad` and
/// nothing more.
pub open spec fn is_list_with(
    files: Seq<WadFileInfo>,
    before: Seq<WadFileInfo>,
    file: &str,
    source: WadSource,
) -> bool {
    let name = with_default_extension(file, ".wad");
    let n = before.len() as int;
    &&& files.len() >= n + 1
    &&& files.subrange(0, n) == before
    &&& is_archive_entry(files[n], name, source)
    &&& if is_named(encode_utf8(name), ".wad".spec_bytes()) {
        files.len() == n + 2 && is_archive_entry(files[n + 1], node_file_name(name), source)
    } else {
        files.len() == n + 1
    }
}

/// The mission after the archive `file` was added: an archive named
/// `nerve.wad` makes it the Nerve mission.
pub open spec fn mission_with(current: GameMission, file: &str) -> GameMission {
    if is_named(encode_utf8(with_default_extension(file, ".wad")), "nerve.wad".spec_bytes()) {
        GameMission::Nerve
    } else {
        current
    }
}

/// Whether `new` is the configuration `c` with the archive `file` added
/// to the list of archives, and with the mission that follows from it.
pub open spec fn is_added(new: Configuration, c: Configuration, file: &str, source: WadSource) -> bool {
    &&& new =~= (Configuration {
        wad_files: new.wad_files,
        game_mission: mission_with(c.game_mission, file),
        ..c
    })
    &&& is_list_with(new.wad_files@, c.wad_files@, file, source)
}

/// Adds an archive to the list of archives that the game loads.
pub fn add_file(configuration: Configuration, file: &str, source: WadSource) -> (r: Configuration)
    ensures
        is_added(r, configuration, file, source),
{
    let name = add_default_extension(file, ".wad");
    let game_mission = if file_is_named(name.as_str(), "nerve.wad") {
        GameMission::Nerve
    } else {
        configuration.game_mission
    };
    let node_file = if file_is_named(name.as_str(), ".wad") {
        Some(name_of_node_file(name.as_str()))
    } else {
        None
    };
    let mut wad_files = take_files(&configuration.wad_files);
    wad_files.push(WadFileInfo { name, src: source, handle: 0 });
    match node_file {
        Some(gwa) => {
            wad_files.push(WadFileInfo { name: gwa, src: source, handle: 0 });
        },
        None => {},
    }
    assert(wad_files@.subrange(0, configuration.wad_files@.len() as int)
        =~= configuration.wad_files@);
    Configuration { wad_files, game_mission, ..configuration }
}

/// A copy of a list of archives.
fn take_files(files: &Vec<WadFileInfo>) -> (r: Vec<WadFileInfo>)
    ensures
        r@ == files@,
{
    let mut copy: Vec<WadFileInfo> = Vec::new();
    let mut i: usize = 0;
    while i < files.len()
        invariant
            i <= files@.len(),
            copy@ == files@.subrange(0, i as int),
        decreases files@.len() - i,
    {
        let info = &files[i];
        copy.push(WadFileInfo { name: info.name.clone(), src: info.src, handle: info.handle });
        assert(copy@ =~= files@.subrange(0, i + 1));
        i = i + 1;
    }
    assert(files@.subrange(0, i as int) == files@);
    copy
}

/// The name of the node file of an archive whose name ends in `.wad`.
fn name_of_node_file(name: &str) -> (r: String)
    requires
        ".wad".spec_bytes().is_suffix_of(name.spec_bytes()),
    ensures
        r@ == node_file_name(name@),
{
    proof {
        reveal_strlit(".wad");
        assert(".wad"@.len() == 4 && ".wad"@[1] == 'w');
        is_ascii_spec_bytes(".wad");
        let suffix = ".wad".spec_bytes();
        assert(suffix.len() == 4 && suffix[1] == 0x77);
        let bytes = name.spec_bytes();
        assert(bytes.subrange(bytes.len() - 4, bytes.len() as int)[1] == suffix[1]);
        assert(bytes[bytes.len() - 3] == 0x77);
        encode_utf8_valid_utf8(name@);
        is_char_boundary_iff_not_is_continuation_byte(bytes, bytes.len() - 3);
    }
    let n = name.as_bytes().len();
    let (stem, _) = name.split_at(n - 3);
    proof {
        encode_utf8_decode_utf8(stem@);
    }
    let mut r = stem.to_owned();
    r.append("gwa");
    r
}

/// The configuration `known`, whose edition is identified, with the
/// mission and the language that follow from the edition and from the
/// name of the file `iwad`.
pub open spec fn with_edition(known: Configuration, iwad: Seq<char>) -> Configuration {
    Configuration {
        game_mission: mission_of(known.game_mode, iwad, known.game_mission),
        language: language_of(known.game_mode, iwad, known.language),
        ..known
    }
}

/// Tells mission and language of the archive whose edition is
/// identified.
fn name_edition(known: Configuration, iwad: &str) -> (r: Configuration)
    ensures
        r == with_edition(known, iwad@),
{
    let game_mission = identify_mission(known.game_mode, iwad, known.game_mission);
    let language = identify_language(known.game_mode, iwad, known.language);
    Configuration { game_mission, language, ..known }
}

/// Whether an archive with the given header and tally counts as a main
/// archive for the configuration `c`: it carries the tag, or it is of
/// the BFG edition, as may be known already, or two of its lumps stand
/// in for the tag.
pub open spec fn counts_as_main_archive(c: Configuration, header: WadInfo, tally: LumpTally) -> bool {
    has_iwad_tag(header) || c.bfg_edition || tally.bfg_edition || tally.tag_markers >= 2
}

/// Whether `r` is what comes of identifying the main archive in the
/// file `iwad`, with the given header and directory, and of adding it to
/// the list of archives: the configuration that knows the edition, the
/// mission and the language, or the failure where the archive is no main
/// archive.
pub open spec fn is_identified(
    r: Result<Configuration, StartupError>,
    c: Configuration,
    iwad: &str,
    header: WadInfo,
    directory: Seq<FileLump>,
) -> bool {
    let tally = tally_of(names_of(directory));
    if counts_as_main_archive(c, header, tally) {
        r matches Ok(new) && is_added(
            new,
            with_edition(identified(c, tally), iwad@),
            iwad,
            WadSource::Iwad,
        )
    } else {
        r matches Err(e) && e == StartupError::IwadTagMissing
    }
}

/// Identifies the main archive in the file `iwad` and adds it to the
/// list of archives.
pub fn add_iwad(
    configuration: Configuration,
    iwad: &str,
    header: &WadInfo,
    directory: &[FileLump],
) -> (r: Result<Configuration, StartupError>)
    ensures
        is_identified(r, configuration, iwad, *header, directory@),
{
    match check_iwad(configuration, header, directory) {
        Ok(known) => Ok(add_file(name_edition(known, iwad), iwad, WadSource::Iwad)),
        Err(e) => Err(e),
    }
}

/// Identifies the main archive from the bytes of its file: reads the
/// header and the directory, tells edition, mission and language, and
/// adds the archive to the list of archives. `contents` are the bytes of
/// the file `iwad`, or `None` where the file could not be read.
///
/// A file that could not be read is a failure of its own; a file that
/// does not hold its header and the whole directory is refused; and so
/// is an archive that is no main archive.
pub fn load_iwad(configuration: Configuration, iwad: &str, contents: Option<&[u8]>) -> (r: Result<
    Configuration,
    StartupError,
>)
    ensures
        match contents {
            None => r matches Err(e) && e == StartupError::FileUnreadable,
            Some(bytes) => if bytes@.len() < 12 || !holds_directory(bytes@, header_of(bytes@)) {
                r matches Err(e) && e == StartupError::DirectoryReadFailure
            } else {
                is_identified(
                    r,
                    configuration,
                    iwad,
                    header_of(bytes@),
                    directory_of(bytes@, header_of(bytes@)),
                )
            },
        },
{
    let bytes = match contents {
        Some(bytes) => bytes,
        None => {
            return Err(StartupError::FileUnreadable);
        },
    };
    let header = match read_wadinfo(bytes) {
        Ok(header) => header,
        Err(e) => {
            return Err(e);
        },
    };
    let directory = match read_directory(bytes, &header) {
        Ok(directory) => directory,
        Err(e) => {
            return Err(e);
        },
    };
    add_iwad(configuration, iwad, &header, directory.as_slice())
}

} // verus!
