//! AAC-LC encoder configuration and ADTS framing.
//!
//! The encoder itself runs outside this library; here live the validated
//! configuration, the profile table, and the 7-byte ADTS header that is
//! prepended to every AAC access unit carried in a transport stream.

use vstd::prelude::*;

use crate::errors::RemuxError;

verus! {

/// AAC profile selected for encoding.
#[derive(Debug, Clone, Copy, PartialEq, Eq, Structural)]
pub enum AacProfile {
    /// AAC low complexity: the baseline that iOS Safari accepts.
    AacLc,
    /// High-efficiency AAC.
    HeAac,
    /// High-efficiency AAC v2.
    HeAacV2,
}

/// The MPEG-4 audio object type signalled by each profile; the ADTS profile
/// field carries this value minus one.
pub open spec fn spec_adts_profile(p: AacProfile) -> u8 {
    match p {
        AacProfile::AacLc => 1,
        AacProfile::HeAac => 4,
        AacProfile::HeAacV2 => 28,
    }
}

impl AacProfile {
    /// The profile name FFmpeg knows this profile by.
    pub fn ffmpeg_name(&self) -> (r: &'static str)
        ensures
            *self is AacLc ==> r@ == "aac_low"@,
            *self is HeAac ==> r@ == "aac_he"@,
            *self is HeAacV2 ==> r@ == "aac_he_v2"@,
    {
        match self {
            Self::AacLc => "aac_low",
            Self::HeAac => "aac_he",
            Self::HeAacV2 => "aac_he_v2",
        }
    }

    /// The audio object type for the ADTS header.
    pub fn adts_profile(&self) -> (r: u8)
        ensures
            r == spec_adts_profile(*self),
    {
        match self {
            Self::AacLc => 1,
            Self::HeAac => 4,
            Self::HeAacV2 => 28,
        }
    }
}

/// AAC encoder configuration.
#[derive(Debug, Clone)]
pub struct AacEncoderConfig {
    /// Sample rate in Hz (8000-96000).
    pub sample_rate: u32,
    /// Number of channels (1-8).
    pub channels: u16,
    /// Bitrate in bits per second (32000-512000).
    pub bitrate: u32,
    /// AAC profile.
    pub profile: AacProfile,
}

/// The ranges a configuration must sit in to be accepted.
pub open spec fn spec_config_valid(c: AacEncoderConfig) -> bool {
    &&& 8000 <= c.sample_rate <= 96000
    &&& 1 <= c.channels <= 8
    &&& 32000 <= c.bitrate <= 512000
}

impl Default for AacEncoderConfig {
    /// Broadcast defaults: 48 kHz stereo AAC-LC at 192 kbps.
    fn default() -> (c: Self)
        ensures
            c.sample_rate == 48000,
            c.channels == 2,
            c.bitrate == 192000,
            c.profile == AacProfile::AacLc,
    {
        AacEncoderConfig { sample_rate: 48000, channels: 2, bitrate: 192000, profile: AacProfile::AacLc }
    }
}

impl AacEncoderConfig {
    /// Accept exactly the configurations whose sample rate, channel count
    /// and bitrate sit in the supported ranges.
    pub fn validate(&self) -> (r: Result<(), RemuxError>)
        ensures
            r is Ok <==> spec_config_valid(*self),
            !spec_config_valid(*self) ==> r == Err::<(), RemuxError>(RemuxError::BadConfig),
    {
        if self.sample_rate < 8000 || self.sample_rate > 96000 {
            return Err(RemuxError::BadConfig);
        }
        if self.channels < 1 || self.channels > 8 {
            return Err(RemuxError::BadConfig);
        }
        if self.bitrate < 32000 || self.bitrate > 512000 {
            return Err(RemuxError::BadConfig);
        }
        Ok(())
    }
}

/// The ADTS sampling-frequency index of a sample rate, when the rate has an
/// entry in the table.
pub open spec fn spec_sample_rate_index(sample_rate: u32) -> Option<u8> {
    if sample_rate == 96000 {
        Some(0)
    } else if sample_rate == 88200 {
        Some(1)
    } else if sample_rate == 64000 {
        Some(2)
    } else if sample_rate == 48000 {
        Some(3)
    } else if sample_rate == 44100 {
        Some(4)
    } else if sample_rate == 32000 {
        Some(5)
    } else if sample_rate == 24000 {
        Some(6)
    } else if sample_rate == 22050 {
        Some(7)
    } else if sample_rate == 16000 {
        Some(8)
    } else if sample_rate == 12000 {
        Some(9)
    } else if sample_rate == 11025 {
        Some(10)
    } else if sample_rate == 8000 {
        Some(11)
    } else if sample_rate == 7350 {
        Some(12)
    } else {
        None
    }
}

/// The seven ADTS header bytes for a frame of `total` bytes (header
/// included): sync word 0xFFF, MPEG-4, layer 0, no CRC, then profile,
/// sampling-frequency index, channel configuration, the 13-bit frame length,
/// a VBR buffer-fullness of 0x7FF, and a single raw data block.
pub open spec fn spec_adts_header(
    profile: AacProfile,
    idx: u8,
    channels: u16,
    total: usize,
) -> Seq<u8> {
    let cc = channels as u8;
    seq![
        0xFF,
        0xF1,
        (((spec_adts_profile(profile) - 1) as u8) << 6) | (idx << 2) | (cc >> 2),
        ((cc & 0x03) << 6) | ((total >> 11) as u8),
        ((total >> 3) & 0xFF) as u8,
        (((total & 0x07) << 5) | 0x1F) as u8,
        0xFC,
    ]
}

/// Builder for ADTS (Audio Data Transport Stream) headers.
pub struct AdtsHeader;

impl AdtsHeader {
    /// The ADTS sampling-frequency index for `sample_rate`, or
    /// `BadSampleRate` when the rate has no table entry.
    pub fn sample_rate_to_index(sample_rate: u32) -> (r: Result<u8, RemuxError>)
        ensures
            r is Ok <==> spec_sample_rate_index(sample_rate) is Some,
            r matches Ok(i) ==> spec_sample_rate_index(sample_rate) == Some(i),
            r is Err ==> r == Err::<u8, RemuxError>(RemuxError::BadSampleRate),
    {
        match sample_rate {
            96000 => Ok(0),
            88200 => Ok(1),
            64000 => Ok(2),
            48000 => Ok(3),
            44100 => Ok(4),
            32000 => Ok(5),
            24000 => Ok(6),
            22050 => Ok(7),
            16000 => Ok(8),
            12000 => Ok(9),
            11025 => Ok(10),
            8000 => Ok(11),
            7350 => Ok(12),
            _ => Err(RemuxError::BadSampleRate),
        }
    }

    /// Build the 7-byte ADTS header for an AAC frame of `frame_length`
    /// payload bytes.
    ///
    /// Succeeds exactly when the sample rate is in the ADTS table, the
    /// channel count fits the 3-bit configuration field (1-7), and the full
    /// frame (payload plus this header) fits the 13-bit length field.
    pub fn generate(
        profile: AacProfile,
        sample_rate: u32,
        channels: u16,
        frame_length: usize,
    ) -> (r: Result<Vec<u8>, RemuxError>)
        ensures
            r is Ok <==> spec_sample_rate_index(sample_rate) is Some && 1 <= channels <= 7
                && frame_length + 7 <= 0x1FFF,
            r matches Ok(h) ==> h@ == spec_adts_header(
                profile,
                spec_sample_rate_index(sample_rate).unwrap(),
                channels,
                (frame_length + 7) as usize,
            ),
            spec_sample_rate_index(sample_rate) is None ==> r == Err::<Vec<u8>, RemuxError>(
                RemuxError::BadSampleRate,
            ),
            spec_sample_rate_index(sample_rate) is Some && !(1 <= channels <= 7) ==> r == Err::<
                Vec<u8>,
                RemuxError,
            >(RemuxError::BadConfig),
            spec_sample_rate_index(sample_rate) is Some && 1 <= channels <= 7 && frame_length + 7
                > 0x1FFF ==> r == Err::<Vec<u8>, RemuxError>(RemuxError::FrameTooLarge),
    {
        let sample_rate_index = match Self::sample_rate_to_index(sample_rate) {
            Ok(i) => i,
            Err(e) => {
                return Err(e);
            },
        };

        if channels < 1 || channels > 7 {
            return Err(RemuxError::BadConfig);
        }
        let channel_config = channels as u8;

        let adts_profile = profile.adts_profile();

        if frame_length > 0x1FF8 {
            return Err(RemuxError::FrameTooLarge);
        }
        let total_length = frame_length + 7;

        let mut header: Vec<u8> = Vec::new();
        header.push(0xFF);
        header.push(0xF1);
        header.push(((adts_profile - 1) << 6) | (sample_rate_index << 2) | (channel_config >> 2));
        header.push(((channel_config & 0x03) << 6) | ((total_length >> 11) as u8));
        header.push(((total_length >> 3) & 0xFF) as u8);
        header.push((((total_length & 0x07) << 5) | 0x1F) as u8);
        header.push(0xFC);

        proof {
            assert(header@ =~= spec_adts_header(
                profile,
                spec_sample_rate_index(sample_rate).unwrap(),
                channels,
                (frame_length + 7) as usize,
            ));
        }
        Ok(header)
    }
}

/// Law: every ADTS header is 7 bytes; its first 12 bits are the sync word
/// 0xFFF and the next four fix version 0, layer 0 and protection_absent 1
/// (together bytes 0xFF 0xF1); and the 13-bit frame-length field recovers
/// exactly the full byte count `total`, the 7 header bytes included.
pub proof fn lemma_adts_header_fields(profile: AacProfile, idx: u8, channels: u16, total: usize)
    requires
        total <= 0x1FFF,
    ensures
        spec_adts_header(profile, idx, channels, total).len() == 7,
        spec_adts_header(profile, idx, channels, total)[0] == 0xFF,
        spec_adts_header(profile, idx, channels, total)[1] == 0xF1,
        ((spec_adts_header(profile, idx, channels, total)[3] & 0x03) as int) * 2048 + (
        spec_adts_header(profile, idx, channels, total)[4] as int) * 8 + ((spec_adts_header(
            profile,
            idx,
            channels,
            total,
        )[5] >> 5) as int) == total,
{
    let cc = channels as u8;
    let h3 = ((cc & 0x03) << 6) | ((total >> 11) as u8);
    let h4 = ((total >> 3) & 0xFF) as u8;
    let h5 = (((total & 0x07) << 5) | 0x1F) as u8;
    assert(((h3 & 0x03) as int) * 2048 + (h4 as int) * 8 + ((h5 >> 5) as int) == total)
        by (bit_vector)
        requires
            total <= 0x1FFF,
            h3 == ((cc & 0x03) << 6) | ((total >> 11) as u8),
            h4 == ((total >> 3) & 0xFF) as u8,
            h5 == (((total & 0x07) << 5) | 0x1F) as u8,
    ;
}

} // verus!
