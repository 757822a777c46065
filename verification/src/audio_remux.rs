//! Pipeline coordinator.
//!
//! Owns the demultiplexer, the multiplexer, the presentation-timestamp
//! counter and the statistics.  The embedding application feeds TS packets
//! in, decodes the PES packets that come back into PCM, encodes PCM into AAC
//! frames, and hands each frame back to be multiplexed; the coordinator
//! keeps the timestamps and counters consistent throughout.

use vstd::prelude::*;

use crate::demux::{spec_demux_transition, AudioCodec, TsDemuxer};
use crate::encoder::{spec_config_valid, spec_sample_rate_index, AacEncoderConfig, AacProfile, AdtsHeader};
use crate::errors::RemuxError;
use crate::muxer::{spec_mux_audio_ok, TsMuxer, TsMuxerConfig};
use crate::util::{inc_u64, spec_inc_u64, spec_wrap_add_u64, wrap_add_u64};

verus! {

/// Audio remuxing configuration.
#[derive(Debug, Clone)]
pub struct AudioRemuxConfig {
    /// Target AAC bitrate in bits per second.
    pub aac_bitrate: u32,
    /// Number of audio channels.
    pub channels: u16,
    /// Sample rate in Hz.
    pub sample_rate: u32,
    /// AAC profile.
    pub aac_profile: AacProfile,
}

/// The encoder configuration a remuxing configuration asks for.
pub open spec fn spec_encoder_config(c: AudioRemuxConfig) -> AacEncoderConfig {
    AacEncoderConfig {
        sample_rate: c.sample_rate,
        channels: c.channels,
        bitrate: c.aac_bitrate,
        profile: c.aac_profile,
    }
}

impl Default for AudioRemuxConfig {
    /// Broadcast defaults: 192 kbps stereo AAC-LC at 48 kHz.
    fn default() -> (c: Self)
        ensures
            c.aac_bitrate == 192000,
            c.channels == 2,
            c.sample_rate == 48000,
            c.aac_profile == AacProfile::AacLc,
    {
        AudioRemuxConfig {
            aac_bitrate: 192000,
            channels: 2,
            sample_rate: 48000,
            aac_profile: AacProfile::AacLc,
        }
    }
}

/// Pipeline statistics.
#[derive(Debug, Clone, Copy, PartialEq, Eq, Structural)]
pub struct AudioRemuxStats {
    /// TS packets fed in.
    pub packets_processed: u64,
    /// Complete audio PES packets assembled.
    pub audio_packets: u64,
    /// PES payloads decoded into at least one PCM frame.
    pub frames_decoded: u64,
    /// AAC frames multiplexed.
    pub frames_encoded: u64,
    /// TS packets emitted.
    pub packets_output: u64,
    /// Bytes fed in.
    pub bytes_input: u64,
    /// Bytes emitted.
    pub bytes_output: u64,
    /// Recoverable errors: bad packets, continuity breaks, codec failures.
    pub errors: u64,
}

impl Default for AudioRemuxStats {
    /// All counters at zero.
    fn default() -> (s: Self)
        ensures
            s == spec_zero_stats(),
    {
        AudioRemuxStats {
            packets_processed: 0,
            audio_packets: 0,
            frames_decoded: 0,
            frames_encoded: 0,
            packets_output: 0,
            bytes_input: 0,
            bytes_output: 0,
            errors: 0,
        }
    }
}

/// Statistics with every counter at zero.
pub open spec fn spec_zero_stats() -> AudioRemuxStats {
    AudioRemuxStats {
        packets_processed: 0,
        audio_packets: 0,
        frames_decoded: 0,
        frames_encoded: 0,
        packets_output: 0,
        bytes_input: 0,
        bytes_output: 0,
        errors: 0,
    }
}

/// The 90 kHz PTS step per AAC frame of 1024 samples at `sample_rate`.
pub open spec fn spec_pts_increment(sample_rate: u32) -> u64 {
    ((1024 * 90000int) / (sample_rate as int)) as u64
}

/// The PTS carried by the `n`-th frame when the first frame is stamped
/// `start` and each frame advances the stamp by `incr`.
pub open spec fn spec_pts_after(start: u64, incr: u64, n: nat) -> u64
    decreases n,
{
    if n == 0 {
        start
    } else {
        spec_wrap_add_u64(spec_pts_after(start, incr, (n - 1) as nat), incr)
    }
}

/// Law (PTS progression): as long as the counter does not wrap, the stamps
/// of successively muxed frames form an arithmetic progression: the `n`-th
/// frame carries `start + n * incr`.  With `start == 0`, as the coordinator
/// begins, the `n`-th frame carries exactly `n * incr`.
pub proof fn lemma_pts_progression(start: u64, incr: u64, n: nat)
    requires
        start + n * incr <= u64::MAX,
    ensures
        spec_pts_after(start, incr, n) == start + n * incr,
    decreases n,
{
    if n > 0 {
        assert((n - 1) * incr <= n * incr && n * incr == (n - 1) * incr + incr)
            by (nonlinear_arith)
            requires
                n >= 1,
                incr >= 0,
        ;
        lemma_pts_progression(start, incr, (n - 1) as nat);
        assert(spec_pts_after(start, incr, n) == spec_wrap_add_u64(
            spec_pts_after(start, incr, (n - 1) as nat),
            incr,
        ));
    } else {
        assert(n * incr == 0) by (nonlinear_arith)
            requires
                n == 0,
        ;
    }
}

/// The audio remuxing coordinator.
///
/// `process_packet` runs the demultiplexer and hands back any complete PES
/// packet for the application to decode; `mux_aac_frame` wraps an encoded
/// AAC frame into TS packets, stamping it with the current PTS and advancing
/// the PTS by `pts_increment`.
#[derive(Debug)]
pub struct AudioRemuxer {
    /// Configuration.
    pub config: AudioRemuxConfig,
    /// TS demultiplexer.
    pub demuxer: TsDemuxer,
    /// TS multiplexer.
    pub muxer: TsMuxer,
    /// PTS of the next frame to be muxed, in 90 kHz units.
    pub current_pts: u64,
    /// PTS step per AAC frame.
    pub pts_increment: u64,
    /// Statistics.
    pub stats: AudioRemuxStats,
}

impl AudioRemuxer {
    /// The coordinator's internal invariant.
    pub open spec fn wf(&self) -> bool {
        &&& self.demuxer.wf()
        &&& self.muxer.wf()
    }

    /// Create a coordinator.
    ///
    /// Fails with `BadConfig` when the sample rate, channel count or bitrate
    /// is out of range, and also when the sample rate has no entry in the
    /// ADTS table, since no ADTS stream could be framed at that rate.
    pub fn new(config: AudioRemuxConfig) -> (r: Result<AudioRemuxer, RemuxError>)
        ensures
            r is Ok <==> spec_config_valid(spec_encoder_config(config)) && spec_sample_rate_index(
                config.sample_rate,
            ) is Some,
            r is Err ==> r == Err::<AudioRemuxer, RemuxError>(RemuxError::BadConfig),
            r matches Ok(m) ==> ({
                &&& m.wf()
                &&& m.config == config
                &&& m.current_pts == 0
                &&& m.pts_increment == spec_pts_increment(config.sample_rate)
                &&& m.stats == spec_zero_stats()
                &&& m.demuxer.audio_pid is None
                &&& m.demuxer.audio_codec == AudioCodec::Unknown
                &&& m.demuxer.pmt_pid is None
                &&& m.demuxer.packets_processed == 0
                &&& m.muxer.packets_muxed == 0
                &&& m.muxer.audio_continuity == 0
                &&& m.muxer.pat_continuity == 0
                &&& m.muxer.pmt_continuity == 0
            }),
    {
        let encoder_config = AacEncoderConfig {
            sample_rate: config.sample_rate,
            channels: config.channels,
            bitrate: config.aac_bitrate,
            profile: config.aac_profile,
        };
        if let Err(_) = encoder_config.validate() {
            return Err(RemuxError::BadConfig);
        }
        if let Err(_) = AdtsHeader::sample_rate_to_index(config.sample_rate) {
            return Err(RemuxError::BadConfig);
        }

        let pts_increment: u64 = (1024u64 * 90000u64) / (config.sample_rate as u64);

        Ok(AudioRemuxer {
            config,
            demuxer: TsDemuxer::new(),
            muxer: TsMuxer::new(TsMuxerConfig::default()),
            current_pts: 0,
            pts_increment,
            stats: AudioRemuxStats::default(),
        })
    }

    /// Feed one TS packet through the demultiplexer.
    ///
    /// Returns the assembled bytes when a complete audio PES packet becomes
    /// ready.  Parse failures and PES violations are returned and counted in
    /// `errors`, as are continuity breaks (which yield `Ok(None)`); the
    /// caller may keep feeding packets after any of them.
    pub fn process_packet(&mut self, data: &[u8]) -> (r: Result<Option<Vec<u8>>, RemuxError>)
        requires
            old(self).wf(),
        ensures
            final(self).wf(),
            spec_demux_transition(old(self).demuxer, data@, final(self).demuxer, r),
            final(self).config == old(self).config,
            final(self).muxer == old(self).muxer,
            final(self).current_pts == old(self).current_pts,
            final(self).pts_increment == old(self).pts_increment,
            final(self).stats.packets_processed == spec_inc_u64(
                old(self).stats.packets_processed,
            ),
            final(self).stats.bytes_input == spec_wrap_add_u64(
                old(self).stats.bytes_input,
                data@.len() as u64,
            ),
            final(self).stats.audio_packets == (if r matches Ok(Some(_)) {
                spec_inc_u64(old(self).stats.audio_packets)
            } else {
                old(self).stats.audio_packets
            }),
            final(self).stats.errors == ({
                let cdelta: u64 = if final(self).demuxer.continuity_errors != old(
                    self,
                ).demuxer.continuity_errors {
                    1
                } else {
                    0
                };
                let edelta: u64 = if r is Err {
                    1
                } else {
                    0
                };
                spec_wrap_add_u64(spec_wrap_add_u64(old(self).stats.errors, cdelta), edelta)
            }),
            final(self).stats.frames_decoded == old(self).stats.frames_decoded,
            final(self).stats.frames_encoded == old(self).stats.frames_encoded,
            final(self).stats.packets_output == old(self).stats.packets_output,
            final(self).stats.bytes_output == old(self).stats.bytes_output,
    {
        self.stats.packets_processed = inc_u64(self.stats.packets_processed);
        self.stats.bytes_input = wrap_add_u64(self.stats.bytes_input, data.len() as u64);

        let e0 = self.demuxer.continuity_errors();
        let result = self.demuxer.process_packet(data);
        let e1 = self.demuxer.continuity_errors();
        if e1 != e0 {
            self.stats.errors = wrap_add_u64(self.stats.errors, 1);
        }

        match result {
            Ok(Some(pes)) => {
                self.stats.audio_packets = inc_u64(self.stats.audio_packets);
                Ok(Some(pes))
            },
            Ok(None) => Ok(None),
            Err(e) => {
                self.stats.errors = wrap_add_u64(self.stats.errors, 1);
                Err(e)
            },
        }
    }

    /// Multiplex one AAC frame (with its ADTS header) into TS packets.
    ///
    /// The frame is stamped with the current PTS (DTS equal, as for audio)
    /// and the PTS advances by `pts_increment` for the next frame.  Fails
    /// only when the frame cannot fit the 16-bit PES length field, in which
    /// case nothing changes.
    pub fn mux_aac_frame(&mut self, aac_data: &[u8]) -> (r: Result<Vec<Vec<u8>>, RemuxError>)
        requires
            old(self).wf(),
        ensures
            final(self).wf(),
            r is Ok <==> aac_data@.len() + 7 <= 65535,
            r is Err ==> r == Err::<Vec<Vec<u8>>, RemuxError>(RemuxError::FrameTooLarge)
                && *final(self) == *old(self),
            r matches Ok(pkts) ==> ({
                &&& spec_mux_audio_ok(
                    old(self).muxer,
                    aac_data@,
                    old(self).current_pts,
                    old(self).current_pts,
                    final(self).muxer,
                    pkts@,
                )
                &&& final(self).current_pts == spec_wrap_add_u64(
                    old(self).current_pts,
                    old(self).pts_increment,
                )
                &&& final(self).pts_increment == old(self).pts_increment
                &&& final(self).config == old(self).config
                &&& final(self).demuxer == old(self).demuxer
                &&& final(self).stats.frames_encoded == spec_inc_u64(
                    old(self).stats.frames_encoded,
                )
                &&& final(self).stats.packets_output == spec_wrap_add_u64(
                    old(self).stats.packets_output,
                    pkts@.len() as u64,
                )
                &&& final(self).stats.bytes_output == spec_wrap_add_u64(
                    old(self).stats.bytes_output,
                    (pkts@.len() * 188) as u64,
                )
                &&& final(self).stats.packets_processed == old(self).stats.packets_processed
                &&& final(self).stats.audio_packets == old(self).stats.audio_packets
                &&& final(self).stats.frames_decoded == old(self).stats.frames_decoded
                &&& final(self).stats.bytes_input == old(self).stats.bytes_input
                &&& final(self).stats.errors == old(self).stats.errors
            }),
    {
        let pts = self.current_pts;
        let packets = match self.muxer.mux_audio(aac_data, pts, pts) {
            Ok(p) => p,
            Err(e) => {
                return Err(e);
            },
        };

        self.current_pts = wrap_add_u64(self.current_pts, self.pts_increment);
        self.stats.frames_encoded = inc_u64(self.stats.frames_encoded);
        self.stats.packets_output = wrap_add_u64(
            self.stats.packets_output,
            packets.len() as u64,
        );
        proof {
            assert(packets@.len() * 188 <= usize::MAX) by (nonlinear_arith)
                requires
                    packets@.len() <= 360,
            ;
        }
        let out_bytes: usize = packets.len() * 188;
        self.stats.bytes_output = wrap_add_u64(self.stats.bytes_output, out_bytes as u64);

        Ok(packets)
    }

    /// Record one decoded frame and the sample rate observed on it.
    ///
    /// The first observed rate drives timestamping: until a frame has been
    /// muxed, a positive observed rate replaces the configured one in the
    /// PTS step.  Later changes leave the progression untouched.
    pub fn note_frame_decoded(&mut self, sample_rate: u32)
        ensures
            final(self).stats.frames_decoded == spec_inc_u64(old(self).stats.frames_decoded),
            final(self).pts_increment == (if old(self).stats.frames_encoded == 0 && sample_rate
                > 0 {
                spec_pts_increment(sample_rate)
            } else {
                old(self).pts_increment
            }),
            final(self).config == old(self).config,
            final(self).demuxer == old(self).demuxer,
            final(self).muxer == old(self).muxer,
            final(self).current_pts == old(self).current_pts,
            final(self).stats.packets_processed == old(self).stats.packets_processed,
            final(self).stats.audio_packets == old(self).stats.audio_packets,
            final(self).stats.frames_encoded == old(self).stats.frames_encoded,
            final(self).stats.packets_output == old(self).stats.packets_output,
            final(self).stats.bytes_input == old(self).stats.bytes_input,
            final(self).stats.bytes_output == old(self).stats.bytes_output,
            final(self).stats.errors == old(self).stats.errors,
    {
        self.stats.frames_decoded = inc_u64(self.stats.frames_decoded);
        if self.stats.frames_encoded == 0 && sample_rate > 0 {
            self.pts_increment = (1024u64 * 90000u64) / (sample_rate as u64);
        }
    }

    /// Count one frame-level decoder or encoder failure; the pipeline goes
    /// on with the next frame.
    pub fn note_codec_error(&mut self)
        ensures
            final(self).stats.errors == spec_wrap_add_u64(old(self).stats.errors, 1),
            final(self).config == old(self).config,
            final(self).demuxer == old(self).demuxer,
            final(self).muxer == old(self).muxer,
            final(self).current_pts == old(self).current_pts,
            final(self).pts_increment == old(self).pts_increment,
            final(self).stats.packets_processed == old(self).stats.packets_processed,
            final(self).stats.audio_packets == old(self).stats.audio_packets,
            final(self).stats.frames_decoded == old(self).stats.frames_decoded,
            final(self).stats.frames_encoded == old(self).stats.frames_encoded,
            final(self).stats.packets_output == old(self).stats.packets_output,
            final(self).stats.bytes_input == old(self).stats.bytes_input,
            final(self).stats.bytes_output == old(self).stats.bytes_output,
    {
        self.stats.errors = wrap_add_u64(self.stats.errors, 1);
    }

    /// A copy of the statistics counters.
    pub fn stats(&self) -> (r: &AudioRemuxStats)
        ensures
            r == self.stats,
    {
        &self.stats
    }

    /// The configuration this coordinator was created with.
    pub fn config(&self) -> (r: &AudioRemuxConfig)
        ensures
            r == self.config,
    {
        &self.config
    }

    /// Whether the pipeline has discovered the audio codec and is ready to
    /// decode.
    pub fn is_initialized(&self) -> (r: bool)
        ensures
            r == (self.demuxer.audio_codec != AudioCodec::Unknown),
    {
        let codec = self.demuxer.audio_codec();
        codec != AudioCodec::Unknown
    }
}

} // verus!
