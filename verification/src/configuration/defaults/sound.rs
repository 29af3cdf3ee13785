//! Defaults of the settings of sound and music.

use vstd::prelude::*;

use crate::configuration::bounded::Gain;
use crate::configuration::bounded::SampleRate;
use crate::configuration::bounded::SoundChannels;
use crate::configuration::bounded::Volume;
use crate::configuration::options::MidiPlayer;
use crate::configuration::options::MusicCard;
use crate::configuration::options::MusicPauseOption;
use crate::configuration::options::SoundCard;

verus! {

/// Default of `snd_pcspeaker`.
pub fn default_snd_pcspeaker() -> (r: bool)
    ensures
        !r,
{
    false
}

/// Default of `sound_card`.
pub fn default_sound_card() -> (r: SoundCard)
    ensures
        r == SoundCard::AutoDetect,
{
    SoundCard::AutoDetect
}

/// Default of `music_card`.
pub fn default_music_card() -> (r: MusicCard)
    ensures
        r == MusicCard::AutoDetect,
{
    MusicCard::AutoDetect
}

/// Default of `pitched_sounds`.
pub fn default_pitched_sounds() -> (r: bool)
    ensures
        !r,
{
    false
}

/// Default of `samplerate`.
pub fn default_samplerate() -> (r: SampleRate)
    ensures
        r@ == 44100,
{
    SampleRate::new(44100).unwrap()
}

/// Default of `sfx_volume`.
pub fn default_sfx_volume() -> (r: Volume)
    ensures
        r@ == 8,
{
    Volume::new(8).unwrap()
}

/// Default of `music_volume`.
pub fn default_music_volume() -> (r: Volume)
    ensures
        r@ == 8,
{
    Volume::new(8).unwrap()
}

/// Default of `mus_pause_opt`.
pub fn default_mus_pause_opt() -> (r: MusicPauseOption)
    ensures
        r == MusicPauseOption::ContinueWhenPaused,
{
    MusicPauseOption::ContinueWhenPaused
}

/// Default of `snd_channels`.
pub fn default_snd_channels() -> (r: SoundChannels)
    ensures
        r@ == 32,
{
    SoundChannels::new(32).unwrap()
}

/// Default of `snd_midiplayer`.
pub fn default_snd_midiplayer() -> (r: MidiPlayer)
    ensures
        r == MidiPlayer::Opl,
{
    MidiPlayer::Opl
}

/// Default of `snd_soundfont`.
pub fn default_snd_soundfont() -> (r: String)
    ensures
        r@ == "TimGM6mb.sf2"@,
{
    "TimGM6mb.sf2".to_owned()
}

/// Default of `snd_mididev`.
pub fn default_snd_mididev() -> (r: String)
    ensures
        r@ == ""@,
{
    "".to_owned()
}

/// Default of `mus_extend_volume`.
pub fn default_mus_extend_volume() -> (r: bool)
    ensures
        !r,
{
    false
}

/// Default of `mus_fluidsynth_chorus`.
pub fn default_mus_fluidsynth_chorus() -> (r: bool)
    ensures
        !r,
{
    false
}

/// Default of `mus_fluidsynth_reverb`.
pub fn default_mus_fluidsynth_reverb() -> (r: bool)
    ensures
        !r,
{
    false
}

/// Default of `mus_fluidsynth_gain`.
pub fn default_mus_fluidsynth_gain() -> (r: Gain)
    ensures
        r@ == 50,
{
    Gain::new(50).unwrap()
}

/// Default of `mus_opl_gain`.
pub fn default_mus_opl_gain() -> (r: Gain)
    ensures
        r@ == 50,
{
    Gain::new(50).unwrap()
}

} // verus!
