//! Setting up the screen: the video mode and the list of resolutions.

use vstd::prelude::*;
use vstd::string::*;

use vstd::utf8::encode_utf8;

use crate::configuration::options::{ScreenResolution, VideoMode};
use crate::configuration::Configuration;
use crate::error::StartupError;
use crate::misc::args::{position_of_any, texts, ArgList};
use crate::misc::numbers::{
    append_decimal, decimal_text, format_i32, parse_usize, parse_usize_spec, signed_decimal_text,
};
use crate::misc::pattern::{captures, groups_view, regex_captures};
use crate::misc::text::str_eq;
use crate::startup::{is_given, value_of};

verus! {

/// Prepares the screens. There is nothing to prepare yet.
pub fn init() {
}

/// What is reported when the given video mode is set up: a note for the
/// mode with 8 bits, and nothing for the others.
pub open spec fn mode_note(mode: VideoMode) -> Option<Seq<char>> {
    if mode == VideoMode::Mode8 {
        Some("video::init_mode: using 8 bit video mode\n"@)
    } else {
        None
    }
}

/// Sets up the given video mode. The result is the note to report,
/// where there is one.
pub fn init_mode(mode: VideoMode) -> (note: Option<&'static str>)
    ensures
        note is Some <==> mode_note(mode) is Some,
        note matches Some(text) ==> mode_note(mode) == Some(text@),
{
    match mode {
        VideoMode::Mode8 => Some("video::init_mode: using 8 bit video mode\n"),
        VideoMode::Mode15 => None,
        VideoMode::Mode16 => None,
        VideoMode::Mode32 => None,
        VideoMode::ModeGL => None,
    }
}

/// The text `s` in lower case, as `str::to_lowercase` of the standard
/// library gives it.
pub uninterp spec fn lowercase_of(s: Seq<char>) -> Seq<char>;

/// `str::to_lowercase` of the standard library: the text with each
/// character replaced by its lower case form as Unicode defines it.
#[verifier::external_body]
fn to_lowercase(s: &str) -> (r: String)
    ensures
        r@ == lowercase_of(s@),
{
    s.to_lowercase()
}

/// The video mode that a name in lower case stands for. A name that is
/// not known stands for the mode with 8 bits.
pub open spec fn mode_named(lower: Seq<char>) -> VideoMode {
    if lower == "15"@ || lower == "15bit"@ {
        VideoMode::Mode15
    } else if lower == "16"@ || lower == "16bit"@ {
        VideoMode::Mode16
    } else if lower == "32"@ || lower == "32bit"@ {
        VideoMode::Mode32
    } else if lower == "gl"@ || lower == "opengl"@ {
        VideoMode::ModeGL
    } else {
        VideoMode::Mode8
    }
}

/// The video mode that a name in lower case stands for.
pub fn mode_from_lowercase(lower: &str) -> (mode: VideoMode)
    ensures
        mode == mode_named(lower@),
{
    if str_eq(lower, "15") || str_eq(lower, "15bit") {
        VideoMode::Mode15
    } else if str_eq(lower, "16") || str_eq(lower, "16bit") {
        VideoMode::Mode16
    } else if str_eq(lower, "32") || str_eq(lower, "32bit") {
        VideoMode::Mode32
    } else if str_eq(lower, "gl") || str_eq(lower, "opengl") {
        VideoMode::ModeGL
    } else {
        VideoMode::Mode8
    }
}

/// The video mode that a name stands for, whatever its case.
pub fn get_mode_from_string(mode_str: &str) -> (mode: VideoMode)
    ensures
        mode == mode_named(lowercase_of(mode_str@)),
{
    let lower = to_lowercase(mode_str);
    mode_from_lowercase(lower.as_str())
}

/// A mode that the display offers: its width and height in pixels.
#[derive(Debug, Clone, Copy, PartialEq, Eq, Structural)]
pub struct DisplayMode {
    pub w: i32,
    pub h: i32,
}

/// The name of a display mode, as in `640x480`.
pub open spec fn mode_name(mode: DisplayMode) -> Seq<char> {
    signed_decimal_text(mode.w as int) + "x"@ + signed_decimal_text(mode.h as int)
}

/// The name of a resolution, as in `640x480`.
pub open spec fn resolution_name(resolution: ScreenResolution) -> Seq<char> {
    decimal_text(resolution.width as nat) + "x"@ + decimal_text(resolution.height as nat)
}

/// Whether a display mode has the resolution that is wished for.
pub open spec fn is_desired(mode: DisplayMode, desired: ScreenResolution) -> bool {
    mode.w == desired.width && mode.h == desired.height
}

/// The names of the display modes from the last down to the first,
/// behind the names `names` that are listed already, and the index of
/// the name of the mode that is wished for. The listing ends at the
/// first mode whose name is listed already.
pub open spec fn listed(
    modes: Seq<DisplayMode>,
    k: int,
    names: Seq<Seq<char>>,
    current: Option<int>,
    desired: ScreenResolution,
) -> (Seq<Seq<char>>, Option<int>)
    decreases k,
{
    if k <= 0 {
        (names, current)
    } else if names.contains(mode_name(modes[k - 1])) {
        (names, current)
    } else {
        listed(
            modes,
            k - 1,
            names.push(mode_name(modes[k - 1])),
            if is_desired(modes[k - 1], desired) {
                Some(names.len() as int)
            } else {
                current
            },
            desired,
        )
    }
}

/// The list of resolutions to choose from, and the index of the one
/// that is wished for: the names of the display modes from the last
/// down to the first. Where the display offers the resolution that is
/// wished for, that one is chosen; where not, it is put before all
/// others and chosen.
pub open spec fn resolutions_listed(modes: Seq<DisplayMode>, desired: ScreenResolution) -> (
    Seq<Seq<char>>,
    int,
) {
    let (names, current) = listed(
        modes,
        modes.len() as int,
        Seq::<Seq<char>>::empty(),
        None,
        desired,
    );
    match current {
        Some(i) => (names, i),
        None => (seq![resolution_name(desired)] + names, 0),
    }
}

/// Writes the name of a display mode.
pub fn name_of_mode(mode: &DisplayMode) -> (r: String)
    ensures
        r@ == mode_name(*mode),
{
    let mut r = format_i32(mode.w);
    r.append("x");
    let h = format_i32(mode.h);
    r.append(h.as_str());
    r
}

/// Writes the name of a resolution.
pub fn name_of_resolution(resolution: &ScreenResolution) -> (r: String)
    ensures
        r@ == resolution_name(*resolution),
{
    let mut r = String::new();
    append_decimal(&mut r, resolution.width as u64);
    r.append("x");
    append_decimal(&mut r, resolution.height as u64);
    r
}

/// Whether a name is among the names of a list.
fn is_listed(list: &Vec<String>, name: &str) -> (r: bool)
    ensures
        r == texts(list@).contains(name@),
{
    let mut i: usize = 0;
    while i < list.len()
        invariant
            i <= list@.len(),
            forall|k: int| 0 <= k < i ==> texts(list@)[k] != name@,
        decreases list@.len() - i,
    {
        if str_eq(list[i].as_str(), name) {
            assert(texts(list@)[i as int] == name@);
            return true;
        }
        i = i + 1;
    }
    false
}

/// The display modes that the list of resolutions is made from: none
/// where nothing is drawn.
pub open spec fn modes_on_offer(c: Configuration, modes: Seq<DisplayMode>) -> Seq<DisplayMode> {
    if c.no_draw {
        Seq::<DisplayMode>::empty()
    } else {
        modes
    }
}

/// Whether `r` is the configuration `c` with its list of resolutions
/// filled from the modes that the display offers. A list that is filled
/// already stays as it is. In a list that is filled anew the lowest
/// resolution is the last mode of the display.
pub open spec fn is_filled(
    r: Configuration,
    c: Configuration,
    modes: Seq<DisplayMode>,
    desired: ScreenResolution,
) -> bool {
    if c.screen_resolutions_list@.len() > 0 {
        r == c
    } else {
        let offered = modes_on_offer(c, modes);
        let chosen = resolutions_listed(offered, desired);
        &&& r == (Configuration {
            screen_resolutions_list: r.screen_resolutions_list,
            screen_resolution: r.screen_resolution,
            screen_resolution_lowest: r.screen_resolution_lowest,
            ..c
        })
        &&& texts(r.screen_resolutions_list@) == chosen.0
        &&& r.screen_resolution == chosen.1
        &&& r.screen_resolution_lowest@ == if offered.len() > 0 {
            mode_name(offered.last())
        } else {
            c.screen_resolution_lowest@
        }
    }
}

/// Fills the list of resolutions to choose from, and chooses the one
/// that is wished for. `modes` are the modes that the display offers, in
/// its own order. A list that is filled already stays as it is.
pub fn fill_screen_resolutions_list(
    configuration: Configuration,
    modes: &[DisplayMode],
    desired_screen_resolution: &ScreenResolution,
) -> (r: Configuration)
    ensures
        is_filled(r, configuration, modes@, *desired_screen_resolution),
{
    if !configuration.screen_resolutions_list.is_empty() {
        return configuration;
    }
    let ghost desired = *desired_screen_resolution;
    let ghost offered = modes_on_offer(configuration, modes@);
    let count: usize = if !configuration.no_draw { modes.len() } else { 0 };
    let mut list: Vec<String> = Vec::new();
    let mut lowest: Option<String> = None;
    let mut current: Option<usize> = None;
    let mut i: usize = count;
    assert(texts(list@) =~= Seq::<Seq<char>>::empty());
    while i > 0
        invariant
            i <= count,
            count == offered.len(),
            count <= modes@.len(),
            forall|k: int| 0 <= k < count ==> offered[k] == modes@[k],
            desired == *desired_screen_resolution,
            listed(offered, count as int, Seq::<Seq<char>>::empty(), None, desired) == listed(
                offered,
                i as int,
                texts(list@),
                match current {
                    Some(index) => Some(index as int),
                    None => None,
                },
                desired,
            ),
            current matches Some(index) ==> index < list@.len(),
            i < count ==> (lowest matches Some(name) && name@ == mode_name(offered.last())),
            count == 0 ==> lowest is None,
        decreases i,
    {
        let mode = &modes[i - 1];
        let mode_name = name_of_mode(mode);
        if i == count {
            lowest = Some(mode_name.clone());
        }
        if is_listed(&list, mode_name.as_str()) {
            let ghost stopped = listed(
                offered,
                i as int,
                texts(list@),
                match current {
                    Some(index) => Some(index as int),
                    None => None,
                },
                desired,
            );
            i = 0;
            assert(listed(
                offered,
                0,
                texts(list@),
                match current {
                    Some(index) => Some(index as int),
                    None => None,
                },
                desired,
            ) == stopped);
        } else {
            let ghost before = texts(list@);
            list.push(mode_name);
            assert(texts(list@) =~= before.push(mode_name@));
            if mode.w >= 0 && mode.h >= 0 && mode.w as usize == desired_screen_resolution.width
                && mode.h as usize == desired_screen_resolution.height {
                current = Some(list.len() - 1);
            }
            i = i - 1;
        }
    }
    let screen_resolution_lowest = match lowest {
        Some(name) => name,
        None => configuration.screen_resolution_lowest.clone(),
    };
    let screen_resolution: usize = match current {
        Some(index) => index,
        None => {
            let ghost before = texts(list@);
            list.insert(0, name_of_resolution(desired_screen_resolution));
            assert(texts(list@) =~= seq![resolution_name(desired)] + before);
            0
        },
    };
    Configuration {
        screen_resolutions_list: list,
        screen_resolution,
        screen_resolution_lowest,
        ..configuration
    }
}

/// The regular expression for a geometry: a width, an `x`, a height,
/// and perhaps one more character.
pub const GEOMETRY: &'static str = r"(\d+)[xX](\d+)(.)?";

/// The names of the parameter that gives the geometry of the window.
pub open spec fn geometry_parameters() -> Seq<&'static str> {
    seq!["-geom", "-geometry"]
}

/// What a match of `GEOMETRY` says of the full screen: `w` behind the
/// size asks for a window, `f` for the full screen, and anything else
/// for nothing. A match whose width or height is missing, or is no
/// number that fits a `usize`, is refused.
pub open spec fn geometry_of(groups: Option<Seq<Option<Seq<char>>>>) -> Result<
    Option<bool>,
    StartupError,
> {
    match groups {
        None => Ok(None),
        Some(g) => if g.len() >= 3 && g[1] is Some && g[2] is Some && parse_usize_spec(
            encode_utf8(g[1].unwrap()),
        ) is Some && parse_usize_spec(encode_utf8(g[2].unwrap())) is Some {
            if g.len() >= 4 && g[3] == Some("w"@) {
                Ok(Some(false))
            } else if g.len() >= 4 && g[3] == Some("f"@) {
                Ok(Some(true))
            } else {
                Ok(None)
            }
        } else {
            Err(StartupError::InvalidNumber)
        },
    }
}

/// Reads what a match of `GEOMETRY` says of the full screen.
pub fn geometry_from(groups: &Option<Vec<Option<String>>>) -> (r: Result<
    Option<bool>,
    StartupError,
>)
    ensures
        r == geometry_of(
            match groups {
                Some(g) => Some(groups_view(g@)),
                None => None,
            },
        ),
{
    let g = match groups {
        None => {
            return Ok(None);
        },
        Some(g) => g,
    };
    if g.len() < 3 {
        return Err(StartupError::InvalidNumber);
    }
    let width = match &g[1] {
        Some(text) => parse_usize(text.as_str()),
        None => None,
    };
    let height = match &g[2] {
        Some(text) => parse_usize(text.as_str()),
        None => None,
    };
    if width.is_none() || height.is_none() {
        return Err(StartupError::InvalidNumber);
    }
    if g.len() < 4 {
        return Ok(None);
    }
    match &g[3] {
        Some(suffix) => {
            if str_eq(suffix.as_str(), "w") {
                Ok(Some(false))
            } else if str_eq(suffix.as_str(), "f") {
                Ok(Some(true))
            } else {
                Ok(None)
            }
        },
        None => Ok(None),
    }
}

/// Whether the value of the parameter `name`, where there is one, is a
/// number that fits a `usize`.
pub open spec fn has_size_value(c: Configuration, name: Seq<char>) -> bool {
    match value_of(c, name) {
        Some(text) => parse_usize_spec(encode_utf8(text)) is Some,
        None => true,
    }
}

/// Checks the value of a parameter that gives a size.
fn check_size_value(configuration: &Configuration, name: &str) -> (r: bool)
    ensures
        r == has_size_value(*configuration, name@),
{
    match configuration.args.check_parm(name) {
        Some(p) => {
            if p < configuration.args.len() - 1 {
                parse_usize(configuration.args[p + 1].as_str()).is_some()
            } else {
                true
            }
        },
        None => true,
    }
}

/// Whether the full screen is used: `-nofullscreen` decides against it,
/// `-fullscreen` for it, and else it is as it was.
pub open spec fn fullscreen_used(c: Configuration) -> bool {
    if is_given(c, "-nofullscreen"@) {
        false
    } else if is_given(c, "-fullscreen"@) {
        true
    } else {
        c.use_fullscreen
    }
}

/// What the geometry on the command line says of the full screen.
pub open spec fn geometry_asked(c: Configuration) -> Result<Option<bool>, StartupError> {
    let args = c.args@;
    match position_of_any(args, geometry_parameters()) {
        Some(p) => if p + 1 < args.len() {
            geometry_of(regex_captures(GEOMETRY@, args[p + 1]@))
        } else {
            Ok(None)
        },
        None => Ok(None),
    }
}

/// Whether the full screen is wished for: what the geometry says, else
/// what `-nowindow` and `-window` say, and else whether the full screen
/// is used. `-window` brings the full screen about and `-nowindow`
/// takes it away.
pub open spec fn fullscreen_desired(c: Configuration, geometry: Option<bool>) -> bool {
    match geometry {
        Some(full) => full,
        None => if is_given(c, "-nowindow"@) {
            false
        } else if is_given(c, "-window"@) {
            true
        } else {
            fullscreen_used(c)
        },
    }
}

/// The configuration with what is decided on the full screen.
pub open spec fn with_fullscreen(c: Configuration, geometry: Option<bool>) -> Configuration {
    Configuration {
        use_fullscreen: fullscreen_used(c),
        desired_fullscreen: fullscreen_desired(c, geometry),
        ..c
    }
}

/// The video mode that the command line and the settings ask for.
pub open spec fn mode_asked(c: Configuration) -> VideoMode {
    match value_of(c, "-vidmode"@) {
        Some(name) => mode_named(lowercase_of(name)),
        None => c.defaults.videomode,
    }
}

/// What the geometry on the command line says of the full screen.
fn read_geometry(configuration: &Configuration) -> (r: Result<Option<bool>, StartupError>)
    ensures
        r == geometry_asked(*configuration),
{
    let names: [&str; 2] = ["-geom", "-geometry"];
    assert(names@ =~= geometry_parameters());
    match configuration.args.check_parms(names.as_slice()) {
        Some(p) => {
            if p < configuration.args.len() - 1 {
                let groups = captures(GEOMETRY, configuration.args[p + 1].as_str());
                geometry_from(&groups)
            } else {
                Ok(None)
            }
        },
        None => Ok(None),
    }
}

/// The video mode that the command line and the settings ask for.
pub fn read_video_mode(configuration: &Configuration) -> (mode: VideoMode)
    ensures
        mode == mode_asked(*configuration),
{
    match configuration.args.check_parm("-vidmode") {
        Some(i) => {
            if i < configuration.args.len() - 1 {
                get_mode_from_string(configuration.args[i + 1].as_str())
            } else {
                configuration.defaults.videomode
            }
        },
        None => configuration.defaults.videomode,
    }
}

/// Decides on the full screen.
fn decide_fullscreen(configuration: Configuration, geometry: Option<bool>) -> (r: Configuration)
    ensures
        r == with_fullscreen(configuration, geometry),
{
    let use_fullscreen = read_fullscreen_used(&configuration);
    let desired_fullscreen = read_fullscreen_desired(&configuration, geometry);
    Configuration { use_fullscreen, desired_fullscreen, ..configuration }
}

/// Whether the full screen is used.
fn read_fullscreen_used(configuration: &Configuration) -> (r: bool)
    ensures
        r == fullscreen_used(*configuration),
{
    if configuration.args.check_parm("-nofullscreen").is_some() {
        false
    } else if configuration.args.check_parm("-fullscreen").is_some() {
        true
    } else {
        configuration.use_fullscreen
    }
}

/// Whether the full screen is wished for.
fn read_fullscreen_desired(configuration: &Configuration, geometry: Option<bool>) -> (r: bool)
    ensures
        r == fullscreen_desired(*configuration, geometry),
{
    match geometry {
        Some(full) => full,
        None => {
            if configuration.args.check_parm("-nowindow").is_some() {
                false
            } else if configuration.args.check_parm("-window").is_some() {
                true
            } else {
                read_fullscreen_used(configuration)
            }
        },
    }
}

/// Sets the screen up as the command line and the settings ask: fills
/// the list of resolutions, decides on the full screen, and tells the
/// video mode. `modes` are the modes that the display offers. Where the
/// window is open already only the video mode is told.
///
/// A value of `-width` or `-height` that is no number is refused, and
/// so is a geometry with such a width or height.
pub fn init_screen_resolution(configuration: Configuration, modes: &[DisplayMode]) -> (r: Result<
    (Configuration, VideoMode),
    StartupError,
>)
    ensures
        r matches Ok(done) ==> done.1 == mode_asked(configuration),
        configuration.has_window ==> (r matches Ok(done) && done.0 == configuration),
        !configuration.has_window ==> {
            if !has_size_value(configuration, "-width"@) || !has_size_value(
                configuration,
                "-height"@,
            ) {
                r matches Err(e) && e == StartupError::InvalidNumber
            } else {
                match geometry_asked(configuration) {
                    Err(e) => r matches Err(f) && f == e,
                    Ok(geometry) => {
                        &&& r matches Ok(done)
                        &&& is_filled(
                            done.0,
                            with_fullscreen(configuration, geometry),
                            modes@,
                            configuration.defaults.screen_resolution,
                        )
                    },
                }
            }
        },
{
    let mode = read_video_mode(&configuration);
    if configuration.has_window {
        return Ok((configuration, mode));
    }
    if !check_size_value(&configuration, "-width") {
        return Err(StartupError::InvalidNumber);
    }
    if !check_size_value(&configuration, "-height") {
        return Err(StartupError::InvalidNumber);
    }
    let geometry = match read_geometry(&configuration) {
        Ok(geometry) => geometry,
        Err(e) => {
            return Err(e);
        },
    };
    let desired = configuration.defaults.screen_resolution;
    let decided = decide_fullscreen(configuration, geometry);
    Ok((fill_screen_resolutions_list(decided, modes, &desired), mode))
}

} // verus!
