//! Configuration records for sources and destinations.
//!
//! Fractional engine quantities (audio volume, compositor alpha) are carried
//! as integers in thousandths: `1000` stands for the engine's `1.0`. The
//! process boundary converts between the two representations.

use vstd::prelude::*;

verus! {

/// The playback lifecycle every pipeline, source and destination moves
/// through.
#[derive(Clone, Copy, Debug, PartialEq, Eq, Structural)]
pub enum PlayState {
    Null,
    Ready,
    Paused,
    Playing,
}

/// Video geometry and compositor placement for one source or destination.
///
/// `zorder` is optional: `None` means "let the compositor assign one"; the
/// assigned value is read back after linking. `alpha` is opacity in
/// thousandths (`1000` = fully opaque).
pub struct VideoConfig {
    pub width: i32,
    pub height: i32,
    pub framerate: i32,
    pub format: String,
    pub zorder: Option<u32>,
    pub alpha: u32,
    pub xpos: i32,
    pub ypos: i32,
    pub repeat: bool,
}

/// Audio settings for one source or destination. `volume` is in thousandths
/// (`1000` = unity gain).
pub struct AudioConfig {
    pub volume: u32,
}

/// A source's immutable-until-updated record: identity, geometry, placement,
/// audio level, and whether a recording branch is built alongside it.
pub struct Config {
    pub name: String,
    pub video: VideoConfig,
    pub audio: AudioConfig,
    pub record: bool,
}

/// The logical audio codecs a destination may encode with.
#[derive(Clone, Copy, Debug, PartialEq, Eq, Structural)]
pub enum AudioEncoder {
    Aac,
    Vorbis,
}

/// The logical video codecs a destination may encode with.
#[derive(Clone, Copy, Debug, PartialEq, Eq, Structural)]
pub enum VideoEncoder {
    H264,
    Vp9,
}

/// The logical containers a destination may mux into.
#[derive(Clone, Copy, Debug, PartialEq, Eq, Structural)]
pub enum Mux {
    Flv,
    Mkv,
    Mp4,
}

/// Audio-encoder selection for one destination.
#[derive(Clone, Copy, Debug, PartialEq, Eq, Structural)]
pub struct AudioEncoderConfig {
    pub encoder: AudioEncoder,
}

/// Video-encoder selection for one destination. `speed` is the optional
/// encoder speed preset.
#[derive(Clone, Copy, Debug, PartialEq, Eq, Structural)]
pub struct VideoEncoderConfig {
    pub encoder: VideoEncoder,
    pub speed: Option<u32>,
}

impl Default for AudioEncoderConfig {
    /// The codec used when a destination does not choose one.
    fn default() -> (r: Self)
        ensures
            r == (AudioEncoderConfig { encoder: AudioEncoder::Aac }),
    {
        AudioEncoderConfig { encoder: AudioEncoder::Aac }
    }
}

impl Default for VideoEncoderConfig {
    /// The codec used when a destination does not choose one.
    fn default() -> (r: Self)
        ensures
            r == (VideoEncoderConfig { encoder: VideoEncoder::H264, speed: None }),
    {
        VideoEncoderConfig { encoder: VideoEncoder::H264, speed: None }
    }
}

impl VideoConfig {
    /// An exact copy, spelled out field by field so that callers know the
    /// two records are equal.
    pub fn dup(&self) -> (r: VideoConfig)
        ensures
            r == *self,
    {
        VideoConfig {
            width: self.width,
            height: self.height,
            framerate: self.framerate,
            format: self.format.clone(),
            zorder: self.zorder,
            alpha: self.alpha,
            xpos: self.xpos,
            ypos: self.ypos,
            repeat: self.repeat,
        }
    }
}

impl AudioConfig {
    /// An exact copy.
    pub fn dup(&self) -> (r: AudioConfig)
        ensures
            r == *self,
    {
        AudioConfig { volume: self.volume }
    }
}

impl Config {
    /// An exact copy, cloned out on read so the caller never aliases the
    /// stored record.
    pub fn dup(&self) -> (r: Config)
        ensures
            r == *self,
    {
        Config {
            name: self.name.clone(),
            video: self.video.dup(),
            audio: self.audio.dup(),
            record: self.record,
        }
    }
}

} // verus!
