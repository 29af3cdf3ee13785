//! The choices that a setting offers, and small groups of settings that
//! belong together.

use vstd::prelude::*;

use crate::configuration::bounded::{PositiveInt, SmoothTurnsFactor};
use crate::configuration::keys::Key;
use crate::error::StartupError;

verus! {

/// Sound device that plays the music.
pub type MusicCard = SoundCard;

/// A colour of the palette.
pub type Color = u32;

/// A key that an action is bound to.
pub type Keycode = Key;

/// A span of time in milliseconds.
pub type Milliseconds = usize;

/// A limit that may be switched off.
#[derive(Debug, Clone, Copy, PartialEq, Eq, Structural)]
pub enum OptionalLimit {
    NoLimit,
    Limit(PositiveInt),
}

impl Default for OptionalLimit {
    fn default() -> (r: OptionalLimit)
        ensures
            r == OptionalLimit::NoLimit,
    {
        OptionalLimit::NoLimit
    }
}

/// When the game guards a demo against going out of step.
#[derive(Debug, Clone, Copy, PartialEq, Eq, Structural)]
pub enum DemoInsurance {
    Never,
    Always,
    DuringDemoRecording,
}

impl Default for DemoInsurance {
    fn default() -> (r: DemoInsurance)
        ensures
            r == DemoInsurance::DuringDemoRecording,
    {
        DemoInsurance::DuringDemoRecording
    }
}

/// Difficulty of the game.
#[derive(Debug, Clone, Copy, PartialEq, Eq, Structural)]
pub enum SkillLevel {
    Unset,
    Itytd,
    Hntr,
    Hmp,
    Uv,
    Nm,
}

impl Default for SkillLevel {
    fn default() -> (r: SkillLevel)
        ensures
            r == SkillLevel::Hmp,
    {
        SkillLevel::Hmp
    }
}

impl SkillLevel {
    /// The skill that a number from 0 to 4 stands for.
    pub open spec fn of_number(value: u8) -> Option<SkillLevel> {
        if value == 0 {
            Some(SkillLevel::Itytd)
        } else if value == 1 {
            Some(SkillLevel::Hntr)
        } else if value == 2 {
            Some(SkillLevel::Hmp)
        } else if value == 3 {
            Some(SkillLevel::Uv)
        } else if value == 4 {
            Some(SkillLevel::Nm)
        } else {
            None
        }
    }

    /// The name of the skill as the menu shows it.
    pub open spec fn title(self) -> Seq<char> {
        match self {
            SkillLevel::Unset => "None"@,
            SkillLevel::Itytd => "I'm Too Young To Die"@,
            SkillLevel::Hntr => "Hey, Not Too Rough"@,
            SkillLevel::Hmp => "Hurt Me Plenty"@,
            SkillLevel::Uv => "Ultra-Violence"@,
            SkillLevel::Nm => "Nightmare"@,
        }
    }

    /// The skill that `value` stands for: 0 is the easiest, 4 the hardest.
    /// Any other number is refused.
    pub fn try_from(value: u8) -> (r: Result<SkillLevel, StartupError>)
        ensures
            r == match Self::of_number(value) {
                Some(skill) => Ok::<SkillLevel, StartupError>(skill),
                None => Err(StartupError::InvalidSkillLevel),
            },
            r is Ok <==> value <= 4,
    {
        match value {
            0 => Ok(SkillLevel::Itytd),
            1 => Ok(SkillLevel::Hntr),
            2 => Ok(SkillLevel::Hmp),
            3 => Ok(SkillLevel::Uv),
            4 => Ok(SkillLevel::Nm),
            _ => Err(StartupError::InvalidSkillLevel),
        }
    }

    /// The name of the skill as the menu shows it.
    pub fn name(self) -> (s: &'static str)
        ensures
            s@ == self.title(),
    {
        match self {
            SkillLevel::Unset => "None",
            SkillLevel::Itytd => "I'm Too Young To Die",
            SkillLevel::Hntr => "Hey, Not Too Rough",
            SkillLevel::Hmp => "Hurt Me Plenty",
            SkillLevel::Uv => "Ultra-Violence",
            SkillLevel::Nm => "Nightmare",
        }
    }
}

/// Which monsters fight one another.
#[derive(Debug, Clone, Copy, PartialEq, Eq, Structural)]
pub enum MonsterInfightingLevel {
    Nobody,
    OtherSpecies,
    All,
}

impl Default for MonsterInfightingLevel {
    fn default() -> (r: MonsterInfightingLevel)
        ensures
            r == MonsterInfightingLevel::OtherSpecies,
    {
        MonsterInfightingLevel::OtherSpecies
    }
}

/// Sound device that plays effects or music.
#[derive(Debug, Clone, Copy, PartialEq, Eq, Structural)]
pub enum SoundCard {
    AutoDetect,
    Disabled,
    Card(i32),
}

impl Default for SoundCard {
    fn default() -> (r: SoundCard)
        ensures
            r == SoundCard::AutoDetect,
    {
        SoundCard::AutoDetect
    }
}

/// What the music does while the game is paused.
#[derive(Debug, Clone, Copy, PartialEq, Eq, Structural)]
pub enum MusicPauseOption {
    KillWhenPaused,
    PauseWhenPaused,
    ContinueWhenPaused,
}

impl Default for MusicPauseOption {
    fn default() -> (r: MusicPauseOption)
        ensures
            r == MusicPauseOption::ContinueWhenPaused,
    {
        MusicPauseOption::ContinueWhenPaused
    }
}

/// Synthesiser that plays the music.
#[derive(Debug, Clone, Copy, PartialEq, Eq, Structural)]
pub enum MidiPlayer {
    Sdl,
    Fluidsynth,
    Opl,
    PortMidi,
}

impl Default for MidiPlayer {
    fn default() -> (r: MidiPlayer)
        ensures
            r == MidiPlayer::Opl,
    {
        MidiPlayer::Opl
    }
}

/// How frames between two game tics are interpolated.
#[derive(Debug, Clone, Copy, PartialEq, Eq, Structural)]
pub enum InterpolationMethod {
    Fixme0,
    Fixme1,
}

impl Default for InterpolationMethod {
    fn default() -> (r: InterpolationMethod)
        ensures
            r == InterpolationMethod::Fixme0,
    {
        InterpolationMethod::Fixme0
    }
}

/// How textures are filtered by the software renderer.
#[derive(Debug, Clone, Copy, PartialEq, Eq, Structural)]
pub enum Filter {
    Off,
    Point,
    Linear,
    Rounded,
}

impl Default for Filter {
    fn default() -> (r: Filter)
        ensures
            r == Filter::Off,
    {
        Filter::Off
    }
}

/// Shape of the edges of magnified sprites and patches.
#[derive(Debug, Clone, Copy, PartialEq, Eq, Structural)]
pub enum SlopedEdgeType {
    Square,
    Sloped,
}

impl Default for SlopedEdgeType {
    fn default() -> (r: SlopedEdgeType)
        ensures
            r == SlopedEdgeType::Square,
    {
        SlopedEdgeType::Square
    }
}

/// How the hardware renderer filters wall and floor textures.
#[derive(Debug, Clone, Copy, PartialEq, Eq, Structural)]
pub enum TextureFilter {
    Nearest,
    Linear,
    NearestMipmapNearest,
    NearestMipmapLinear,
    LinearMipmapNearest,
    LinearMipmapLinear,
}

impl Default for TextureFilter {
    fn default() -> (r: TextureFilter)
        ensures
            r == TextureFilter::NearestMipmapLinear,
    {
        TextureFilter::NearestMipmapLinear
    }
}

/// How the hardware renderer filters sprites.
#[derive(Debug, Clone, Copy, PartialEq, Eq, Structural)]
pub enum SpriteFilter {
    Nearest,
    Linear,
    NearestMipmapNearest,
    NearestMipmapLinear,
    LinearMipmapNearest,
}

impl Default for SpriteFilter {
    fn default() -> (r: SpriteFilter)
        ensures
            r == SpriteFilter::NearestMipmapLinear,
    {
        SpriteFilter::NearestMipmapLinear
    }
}

/// How the hardware renderer filters patches.
#[derive(Debug, Clone, Copy, PartialEq, Eq, Structural)]
pub enum PatchFilter {
    Nearest,
    Linear,
}

impl Default for PatchFilter {
    fn default() -> (r: PatchFilter)
        ensures
            r == PatchFilter::Nearest,
    {
        PatchFilter::Nearest
    }
}

/// Strength of anisotropic filtering.
#[derive(Debug, Clone, Copy, PartialEq, Eq, Structural)]
pub enum AnisotropicFilter {
    Off,
    On2x,
    On4x,
    On8x,
    On16x,
}

impl Default for AnisotropicFilter {
    fn default() -> (r: AnisotropicFilter)
        ensures
            r == AnisotropicFilter::On16x,
    {
        AnisotropicFilter::On16x
    }
}

/// How the sky is drawn.
#[derive(Debug, Clone, Copy, PartialEq, Eq, Structural)]
pub enum SkyType {
    Auto,
    Off,
    Standard,
    Skydome,
    Screen,
}

impl Default for SkyType {
    fn default() -> (r: SkyType)
        ensures
            r == SkyType::Auto,
    {
        SkyType::Auto
    }
}

/// How things are shown on the automap.
#[derive(Debug, Clone, Copy, PartialEq, Eq, Structural)]
pub enum MapThingsAppearance {
    Classic,
    Scaled,
    Icon,
}

impl Default for MapThingsAppearance {
    fn default() -> (r: MapThingsAppearance)
        ensures
            r == MapThingsAppearance::Icon,
    {
        MapThingsAppearance::Icon
    }
}

/// When the ammunition count changes colour.
#[derive(Debug, Clone, Copy, PartialEq, Eq, Structural)]
pub enum AmmoColorBehavior {
    No,
    FullOnly,
    Yes,
    Max,
}

impl Default for AmmoColorBehavior {
    fn default() -> (r: AmmoColorBehavior)
        ensures
            r == AmmoColorBehavior::No,
    {
        AmmoColorBehavior::No
    }
}

/// How patches are stretched to the screen.
#[derive(Debug, Clone, Copy, PartialEq, Eq, Structural)]
pub enum PatchStretch {
    Stretch16x10,
    Stretch4x3,
    StretchFull,
    StretchMax,
}

impl Default for PatchStretch {
    fn default() -> (r: PatchStretch)
        ensures
            r == PatchStretch::StretchFull,
    {
        PatchStretch::StretchFull
    }
}

/// In which order sprites at one place are drawn.
#[derive(Debug, Clone, Copy, PartialEq, Eq, Structural)]
pub enum SpriteDoomOrder {
    Off,
    Static,
    Dynamic,
    Last,
}

impl Default for SpriteDoomOrder {
    fn default() -> (r: SpriteDoomOrder)
        ensures
            r == SpriteDoomOrder::Dynamic,
    {
        SpriteDoomOrder::Dynamic
    }
}

/// When sprites are clipped at the floor.
#[derive(Debug, Clone, Copy, PartialEq, Eq, Structural)]
pub enum SpriteClip {
    Const,
    Always,
    Smart,
}

impl Default for SpriteClip {
    fn default() -> (r: SpriteClip)
        ensures
            r == SpriteClip::Smart,
    {
        SpriteClip::Smart
    }
}

/// Factor of the high-quality magnification of textures.
#[derive(Debug, Clone, Copy, PartialEq, Eq, Structural)]
pub enum HqResizeMode {
    Off,
    X2,
    X3,
    X4,
    Max,
}

impl Default for HqResizeMode {
    fn default() -> (r: HqResizeMode)
        ensures
            r == HqResizeMode::Off,
    {
        HqResizeMode::Off
    }
}

/// Lighting model of the hardware renderer.
#[derive(Debug, Clone, Copy, PartialEq, Eq, Structural)]
pub enum LightMode {
    GlBoom,
    GzDoom,
    FogBased,
    Shaders,
}

impl Default for LightMode {
    fn default() -> (r: LightMode)
        ensures
            r == LightMode::Shaders,
    {
        LightMode::Shaders
    }
}

/// Colour depth and renderer of the screen.
#[derive(Debug, Clone, Copy, PartialEq, Eq, Structural)]
pub enum VideoMode {
    Mode8,
    Mode15,
    Mode16,
    Mode32,
    ModeGL,
}

impl Default for VideoMode {
    fn default() -> (r: VideoMode)
        ensures
            r == VideoMode::ModeGL,
    {
        VideoMode::ModeGL
    }
}

/// How light levels are filtered along the depth.
#[derive(Debug, Clone, Copy, PartialEq, Eq, Structural)]
pub enum ZFilter {
    Point,
    Linear,
}

impl Default for ZFilter {
    fn default() -> (r: ZFilter)
        ensures
            r == ZFilter::Point,
    {
        ZFilter::Point
    }
}

/// A button of the mouse that an action is bound to.
#[derive(Debug, Clone, Copy, PartialEq, Eq, Structural)]
pub enum MouseButton {
    Unbound,
    Button0,
    Button1,
    Button2,
    Button3,
    Button4,
}

impl Default for MouseButton {
    fn default() -> (r: MouseButton)
        ensures
            r == MouseButton::Unbound,
    {
        MouseButton::Unbound
    }
}

/// Colour of a text of the head-up display.
#[derive(Debug, Clone, Copy, PartialEq, Eq, Structural)]
pub enum TextColor {
    Brick,
    Tan,
    Gray,
    Green,
    Brown,
    Gold,
    Red,
    Blue,
    Orange,
    Yellow,
    Blue2,
}

impl Default for TextColor {
    fn default() -> (r: TextColor)
        ensures
            r == TextColor::Red,
    {
        TextColor::Red
    }
}

/// Shape of the crosshair.
#[derive(Debug, Clone, Copy, PartialEq, Eq, Structural)]
pub enum Crosshair {
    Off,
    Cross,
    Angle,
    Dot,
}

impl Default for Crosshair {
    fn default() -> (r: Crosshair)
        ensures
            r == Crosshair::Off,
    {
        Crosshair::Off
    }
}

/// Aspect ratio of the screen.
#[derive(Debug, Clone, Copy, PartialEq, Eq, Structural)]
pub enum AspectRatio {
    R16x9,
    R16x10,
    R4x3,
    R5x4,
}

impl Default for AspectRatio {
    fn default() -> (r: AspectRatio)
        ensures
            r == AspectRatio::R16x9,
    {
        AspectRatio::R16x9
    }
}

/// When the launcher is shown at startup.
#[derive(Debug, Clone, Copy, PartialEq, Eq, Structural)]
pub enum LauncherEnable {
    Never,
    Smart,
    Always,
}

impl Default for LauncherEnable {
    fn default() -> (r: LauncherEnable)
        ensures
            r == LauncherEnable::Always,
    {
        LauncherEnable::Always
    }
}

/// Smoothing of turns while a demo plays.
#[derive(Debug, Clone, Copy, PartialEq, Eq, Structural)]
pub struct DemoSmoothTurns {
    pub enabled: bool,
    pub factor: SmoothTurnsFactor,
}

impl Default for DemoSmoothTurns {
    fn default() -> (r: DemoSmoothTurns)
        ensures
            !r.enabled,
            r.factor@ == 1,
    {
        DemoSmoothTurns { enabled: false, factor: SmoothTurnsFactor::default() }
    }
}

/// How the closing text screen is shown.
#[derive(Debug, Clone, Copy, PartialEq, Eq, Structural)]
pub struct EndoomMode {
    pub colors: bool,
    pub non_ascii_chars: bool,
    pub skip_last_line: bool,
}

impl Default for EndoomMode {
    fn default() -> (r: EndoomMode)
        ensures
            r == (EndoomMode { colors: false, non_ascii_chars: false, skip_last_line: false }),
    {
        EndoomMode { colors: false, non_ascii_chars: false, skip_last_line: false }
    }
}

/// State of the automap.
#[derive(Debug, Clone, Copy, PartialEq, Eq, Structural)]
pub struct AutomapMode {
    pub active: bool,
    pub overlay: bool,
    pub rotate: bool,
    pub follow: bool,
    pub grid: bool,
}

impl Default for AutomapMode {
    fn default() -> (r: AutomapMode)
        ensures
            r == (AutomapMode {
                active: false,
                overlay: false,
                rotate: false,
                follow: false,
                grid: false,
            }),
    {
        AutomapMode { active: false, overlay: false, rotate: false, follow: false, grid: false }
    }
}

/// Whether an overrun of the first engine is reported, and whether it
/// is imitated.
#[derive(Debug, Clone, Copy, PartialEq, Eq, Structural)]
pub struct EmulationSetting {
    pub warn: bool,
    pub emulate: bool,
}

impl Default for EmulationSetting {
    fn default() -> (r: EmulationSetting)
        ensures
            r == (EmulationSetting { warn: false, emulate: false }),
    {
        EmulationSetting { warn: false, emulate: false }
    }
}

/// Size of the screen in pixels.
#[derive(Debug, Clone, Copy, PartialEq, Eq, Structural)]
pub struct ScreenResolution {
    pub width: usize,
    pub height: usize,
}

impl Default for ScreenResolution {
    fn default() -> (r: ScreenResolution)
        ensures
            r == (ScreenResolution { width: 0, height: 0 }),
    {
        ScreenResolution { width: 0, height: 0 }
    }
}

} // verus!
