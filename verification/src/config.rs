//! Immutable stream configuration, resolved once at startup.

use vstd::prelude::*;

use crate::transcode::MAX_DECODE_BYTES;
use crate::transcode::MAX_JPEG_DIMENSION;

verus! {

/// Default capture framerate, frames per second.
pub const DEFAULT_FRAMERATE: u32 = 10;
/// Default capture resolution width.
pub const DEFAULT_INPUT_WIDTH: u32 = 640;
/// Default capture resolution height.
pub const DEFAULT_INPUT_HEIGHT: u32 = 480;
/// Default output resolution width.
pub const DEFAULT_OUTPUT_WIDTH: u32 = 256;
/// Default output resolution height.
pub const DEFAULT_OUTPUT_HEIGHT: u32 = 144;
/// Default output JPEG quality.
pub const DEFAULT_OUTPUT_QUALITY: u8 = 50;

/// Configuration of the whole pipeline, resolved once at startup and never
/// mutated afterwards.
#[derive(Clone, Copy, Debug)]
pub struct StreamConfig {
    /// Capture resolution, width then height.
    pub input_width: u32,
    pub input_height: u32,
    /// Target capture framerate, frames per second.
    pub framerate: u32,
    /// Output resolution after transcoding, width then height.
    pub output_width: u32,
    pub output_height: u32,
    /// JPEG quality of transcoded frames, `0..=100`.
    pub output_quality: u8,
    /// Whether frames are transcoded before transmission.
    pub reencode: bool,
    /// Whether verbose diagnostics are wanted.
    pub debug: bool,
}

impl StreamConfig {
    /// A configuration is well formed when the quality lies in `0..=100`
    /// and the output resolution is nonempty, fits the JPEG frame header,
    /// and stays within the decoder's allocation limit.
    pub open spec fn well_formed(self) -> bool {
        &&& self.output_quality <= 100
        &&& 1 <= self.output_width && self.output_width <= MAX_JPEG_DIMENSION
        &&& 1 <= self.output_height && self.output_height <= MAX_JPEG_DIMENSION
        &&& self.output_width * self.output_height * 3 <= MAX_DECODE_BYTES
    }

    /// Resolves the configuration from optional command-line values, applying
    /// the documented defaults where a value was not given.
    pub fn resolve(
        input_resolution: Option<(u32, u32)>,
        framerate: Option<u32>,
        output_resolution: Option<(u32, u32)>,
        output_quality: Option<u8>,
        reencode: bool,
        debug: bool,
    ) -> (cfg: StreamConfig)
        requires
            output_quality matches Some(q) ==> q <= 100,
            output_resolution matches Some(r) ==> 1 <= r.0 && r.0 <= MAX_JPEG_DIMENSION && 1
                <= r.1 && r.1 <= MAX_JPEG_DIMENSION && r.0 * r.1 * 3 <= MAX_DECODE_BYTES,
        ensures
            cfg.well_formed(),
            input_resolution matches Some(r) ==> cfg.input_width == r.0 && cfg.input_height == r.1,
            input_resolution is None ==> cfg.input_width == DEFAULT_INPUT_WIDTH
                && cfg.input_height == DEFAULT_INPUT_HEIGHT,
            framerate matches Some(f) ==> cfg.framerate == f,
            framerate is None ==> cfg.framerate == DEFAULT_FRAMERATE,
            output_resolution matches Some(r) ==> cfg.output_width == r.0 && cfg.output_height == r.1,
            output_resolution is None ==> cfg.output_width == DEFAULT_OUTPUT_WIDTH
                && cfg.output_height == DEFAULT_OUTPUT_HEIGHT,
            output_quality matches Some(q) ==> cfg.output_quality == q,
            output_quality is None ==> cfg.output_quality == DEFAULT_OUTPUT_QUALITY,
            cfg.reencode == reencode,
            cfg.debug == debug,
    {
        let (input_width, input_height) = match input_resolution {
            Some(r) => r,
            None => (DEFAULT_INPUT_WIDTH, DEFAULT_INPUT_HEIGHT),
        };
        let (output_width, output_height) = match output_resolution {
            Some(r) => r,
            None => (DEFAULT_OUTPUT_WIDTH, DEFAULT_OUTPUT_HEIGHT),
        };
        StreamConfig {
            input_width,
            input_height,
            framerate: match framerate {
                Some(f) => f,
                None => DEFAULT_FRAMERATE,
            },
            output_width,
            output_height,
            output_quality: match output_quality {
                Some(q) => q,
                None => DEFAULT_OUTPUT_QUALITY,
            },
            reencode,
            debug,
        }
    }
}

} // verus!
