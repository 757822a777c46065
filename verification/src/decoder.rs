//! Audio decoder state.
//!
//! The sample decoding itself produces floating-point PCM and therefore runs
//! in the embedding application; what the pipeline observes of a decoder is
//! tracked here: the stream parameters it detected and how many frames it
//! has decoded.

use vstd::prelude::*;

use crate::errors::RemuxError;

verus! {

/// State of the MPEG-1 layer II decoder: detected stream parameters and a
/// frame counter.  The application updates it as it decodes.
#[derive(Debug)]
pub struct Mp2Decoder {
    /// Detected sample rate in Hz.
    pub sample_rate: u32,
    /// Detected channel count.
    pub channels: u16,
    /// Frames decoded so far.
    pub frames_decoded: u64,
}

impl Mp2Decoder {
    /// Create a decoder assuming broadcast defaults (48 kHz stereo) until
    /// the stream reports otherwise.
    pub fn new() -> (r: Result<Mp2Decoder, RemuxError>)
        ensures
            r matches Ok(d) && d.sample_rate == 48000 && d.channels == 2 && d.frames_decoded
                == 0,
    {
        Ok(Mp2Decoder { sample_rate: 48000, channels: 2, frames_decoded: 0 })
    }

    /// The sample rate last observed on the stream.
    pub fn sample_rate(&self) -> (r: u32)
        ensures
            r == self.sample_rate,
    {
        self.sample_rate
    }

    /// The channel count last observed on the stream.
    pub fn channels(&self) -> (r: u16)
        ensures
            r == self.channels,
    {
        self.channels
    }

    /// Record the stream parameters found by probing the elementary stream.
    pub fn set_stream_params(&mut self, sample_rate: u32, channels: u16)
        ensures
            final(self).sample_rate == sample_rate,
            final(self).channels == channels,
            final(self).frames_decoded == old(self).frames_decoded,
    {
        self.sample_rate = sample_rate;
        self.channels = channels;
    }

    /// Count one successfully decoded frame.
    pub fn note_frame_decoded(&mut self)
        ensures
            final(self).frames_decoded == crate::util::spec_inc_u64(old(self).frames_decoded),
            final(self).sample_rate == old(self).sample_rate,
            final(self).channels == old(self).channels,
    {
        self.frames_decoded = crate::util::inc_u64(self.frames_decoded);
    }

    /// Discard decoding state, as required on a continuity break or PID
    /// change; the detected stream parameters are kept.
    pub fn reset(&mut self)
        ensures
            final(self).frames_decoded == 0,
            final(self).sample_rate == old(self).sample_rate,
            final(self).channels == old(self).channels,
    {
        self.frames_decoded = 0;
    }

    /// Decoder name for logging.
    pub fn name(&self) -> (r: &'static str)
        ensures
            r@ == "MP2 (Symphonia)"@,
    {
        "MP2 (Symphonia)"
    }
}

impl Default for Mp2Decoder {
    /// Same as `Mp2Decoder::new`.
    fn default() -> (d: Self)
        ensures
            d.sample_rate == 48000,
            d.channels == 2,
            d.frames_decoded == 0,
    {
        Mp2Decoder { sample_rate: 48000, channels: 2, frames_decoded: 0 }
    }
}

} // verus!
