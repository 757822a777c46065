use xg2g_transcoder::encoder::{AacEncoderConfig, AacProfile, AdtsHeader};
use xg2g_transcoder::errors::RemuxError;

#[test]
fn test_aac_profile() {
    assert_eq!(AacProfile::AacLc.ffmpeg_name(), "aac_low");
    assert_eq!(AacProfile::AacLc.adts_profile(), 1);
    assert_eq!(AacProfile::HeAac.adts_profile(), 4);
}

#[test]
fn test_config_validation() {
    let config = AacEncoderConfig::default();
    assert!(config.validate().is_ok());

    // Invalid sample rate
    let mut bad_config = config.clone();
    bad_config.sample_rate = 1000;
    assert!(bad_config.validate().is_err());

    // Invalid channels
    let mut bad_config = config.clone();
    bad_config.channels = 0;
    assert!(bad_config.validate().is_err());

    // Invalid bitrate
    let mut bad_config = config.clone();
    bad_config.bitrate = 10000;
    assert!(bad_config.validate().is_err());
}

#[test]
fn test_sample_rate_index() {
    assert_eq!(AdtsHeader::sample_rate_to_index(48000).unwrap(), 3);
    assert_eq!(AdtsHeader::sample_rate_to_index(44100).unwrap(), 4);
    assert_eq!(AdtsHeader::sample_rate_to_index(32000).unwrap(), 5);

    // Invalid sample rate
    assert!(AdtsHeader::sample_rate_to_index(99999).is_err());
}

#[test]
fn test_adts_header_generation() {
    let header = AdtsHeader::generate(AacProfile::AacLc, 48000, 2, 100);
    assert!(header.is_ok());

    let header = header.unwrap();
    assert_eq!(header[0], 0xFF); // Sync word
    assert_eq!(header[1] & 0xF0, 0xF0); // Sync word + MPEG-4
}

#[test]
fn adts_header_for_stereo_48khz_aac_lc() {
    // The header framing a 48 kHz stereo AAC-LC frame, as for encoded
    // silence: sync 0xFF 0xF1, then profile 0, frequency index 3 and the
    // channel configuration 2 split across bytes 2 and 3.
    let len = 256usize;
    let header = AdtsHeader::generate(AacProfile::AacLc, 48000, 2, len).unwrap();
    assert_eq!(header.len(), 7);
    assert_eq!(header[0], 0xFF);
    assert_eq!(header[1], 0xF1);
    assert_eq!(header[2], (0 << 6) | (3 << 2) | 0); // 0x0C
    assert_eq!(header[3] >> 6, 2); // channel configuration
    // The 13-bit length field holds the frame plus the 7 header bytes.
    let total = (((header[3] & 0x03) as usize) << 11) | ((header[4] as usize) << 3)
        | ((header[5] >> 5) as usize);
    assert_eq!(total, len + 7);
    assert_eq!(header[5] & 0x1F, 0x1F); // buffer fullness high bits
    assert_eq!(header[6], 0xFC); // buffer fullness low bits, one frame
}

#[test]
fn adts_rejects_out_of_table_and_oversize() {
    assert_eq!(
        AdtsHeader::generate(AacProfile::AacLc, 47000, 2, 100).unwrap_err(),
        RemuxError::BadSampleRate
    );
    assert_eq!(
        AdtsHeader::generate(AacProfile::AacLc, 48000, 9, 100).unwrap_err(),
        RemuxError::BadConfig
    );
    // The 3-bit channel-configuration field carries counts 1-7 only.
    assert_eq!(
        AdtsHeader::generate(AacProfile::AacLc, 48000, 0, 100).unwrap_err(),
        RemuxError::BadConfig
    );
    assert_eq!(
        AdtsHeader::generate(AacProfile::AacLc, 48000, 8, 100).unwrap_err(),
        RemuxError::BadConfig
    );
    assert_eq!(
        AdtsHeader::generate(AacProfile::AacLc, 48000, 2, 0x1FF9).unwrap_err(),
        RemuxError::FrameTooLarge
    );
}

#[test]
fn encoder_config_default_matches_broadcast_profile() {
    let c = AacEncoderConfig::default();
    assert_eq!(c.sample_rate, 48000);
    assert_eq!(c.channels, 2);
    assert_eq!(c.bitrate, 192000);
    assert_eq!(c.profile, AacProfile::AacLc);
    assert_eq!(AacProfile::HeAac.ffmpeg_name(), "aac_he");
    assert_eq!(AacProfile::HeAacV2.ffmpeg_name(), "aac_he_v2");
    assert_eq!(AacProfile::HeAacV2.adts_profile(), 28);
}
