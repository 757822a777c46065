use xg2g_transcoder::audio_remux::{AudioRemuxConfig, AudioRemuxStats, AudioRemuxer};
use xg2g_transcoder::decoder::Mp2Decoder;
use xg2g_transcoder::errors::RemuxError;

#[test]
fn test_config_default() {
    let config = AudioRemuxConfig::default();
    assert_eq!(config.aac_bitrate, 192_000);
    assert_eq!(config.channels, 2);
    assert_eq!(config.sample_rate, 48_000);
}

#[test]
fn test_remuxer_creation() {
    let config = AudioRemuxConfig::default();
    let remuxer = AudioRemuxer::new(config);
    assert!(remuxer.is_ok());

    let remuxer = remuxer.unwrap();
    assert!(!remuxer.is_initialized());
    assert_eq!(remuxer.stats().packets_processed, 0);
}

#[test]
fn test_pts_increment_calculation() {
    let config = AudioRemuxConfig { sample_rate: 48000, ..Default::default() };

    let remuxer = AudioRemuxer::new(config).unwrap();

    // PTS increment = (1024 * 90000) / 48000 = 1920
    assert_eq!(remuxer.pts_increment, 1920);
}

#[test]
fn test_stats_default() {
    let stats = AudioRemuxStats::default();
    assert_eq!(stats.packets_processed, 0);
    assert_eq!(stats.frames_decoded, 0);
    assert_eq!(stats.errors, 0);
}

#[test]
fn test_mp2_decoder_creation() {
    let decoder = Mp2Decoder::new();
    assert!(decoder.is_ok());

    let decoder = decoder.unwrap();
    assert_eq!(decoder.name(), "MP2 (Symphonia)");
    assert_eq!(decoder.sample_rate(), 48000); // Default
    assert_eq!(decoder.channels(), 2); // Default
}

#[test]
fn mp2_decoder_tracks_stream_state() {
    let mut decoder = Mp2Decoder::new().unwrap();
    decoder.set_stream_params(44100, 1);
    assert_eq!(decoder.sample_rate(), 44100);
    assert_eq!(decoder.channels(), 1);
    decoder.note_frame_decoded();
    decoder.note_frame_decoded();
    assert_eq!(decoder.frames_decoded, 2);
    decoder.reset();
    assert_eq!(decoder.frames_decoded, 0);
    assert_eq!(decoder.sample_rate(), 44100);
}

#[test]
fn construction_rejects_out_of_range_config() {
    let bad_rate = AudioRemuxConfig { sample_rate: 1000, ..Default::default() };
    assert_eq!(AudioRemuxer::new(bad_rate).unwrap_err(), RemuxError::BadConfig);

    let bad_channels = AudioRemuxConfig { channels: 0, ..Default::default() };
    assert_eq!(AudioRemuxer::new(bad_channels).unwrap_err(), RemuxError::BadConfig);

    let bad_bitrate = AudioRemuxConfig { aac_bitrate: 1_000_000, ..Default::default() };
    assert_eq!(AudioRemuxer::new(bad_bitrate).unwrap_err(), RemuxError::BadConfig);
}

#[test]
fn construction_rejects_rate_outside_adts_table() {
    // 47000 Hz sits inside the validated range but has no entry in the ADTS
    // sampling-frequency table, so no ADTS stream could be framed.
    let config = AudioRemuxConfig { sample_rate: 47000, ..Default::default() };
    assert_eq!(AudioRemuxer::new(config).unwrap_err(), RemuxError::BadConfig);
}

#[test]
fn bad_sync_is_counted_and_yields_nothing() {
    let mut remuxer = AudioRemuxer::new(AudioRemuxConfig::default()).unwrap();
    let packet = [0xFFu8; 188];
    let r = remuxer.process_packet(&packet);
    assert_eq!(r.unwrap_err(), RemuxError::BadSync);
    assert_eq!(remuxer.stats().errors, 1);
    assert_eq!(remuxer.stats().packets_processed, 1);
    assert_eq!(remuxer.stats().packets_output, 0);
}

#[test]
fn observed_sample_rate_drives_timestamping_until_first_frame() {
    let mut remuxer = AudioRemuxer::new(AudioRemuxConfig::default()).unwrap();
    assert_eq!(remuxer.pts_increment, 1920);
    // The first decoded frame reports 44.1 kHz: the step follows it.
    remuxer.note_frame_decoded(44100);
    assert_eq!(remuxer.pts_increment, (1024u64 * 90000) / 44100);
    assert_eq!(remuxer.stats().frames_decoded, 1);
    // Once a frame has been muxed the progression is locked.
    remuxer.mux_aac_frame(&[0u8; 32]).unwrap();
    remuxer.note_frame_decoded(48000);
    assert_eq!(remuxer.pts_increment, (1024u64 * 90000) / 44100);
}

#[test]
fn codec_errors_are_counted_and_recoverable() {
    let mut remuxer = AudioRemuxer::new(AudioRemuxConfig::default()).unwrap();
    remuxer.note_codec_error();
    assert_eq!(remuxer.stats().errors, 1);
    // The pipeline still runs.
    assert!(remuxer.mux_aac_frame(&[0u8; 16]).is_ok());
}
