use xg2g_transcoder::demux::TS_PACKET_SIZE;
use xg2g_transcoder::errors::RemuxError;
use xg2g_transcoder::muxer::{crc32_mpeg2, TsMuxer, TsMuxerConfig};

#[test]
fn test_muxer_creation() {
    let config = TsMuxerConfig::default();
    let muxer = TsMuxer::new(config);

    assert_eq!(muxer.audio_continuity, 0);
    assert_eq!(muxer.video_continuity, 0);
}

#[test]
fn test_pat_generation() {
    let mut muxer = TsMuxer::default();
    let pat = muxer.generate_pat();

    assert_eq!(pat[0], 0x47); // Sync byte
    assert_eq!(pat[1] & 0x40, 0x40); // PUSI set
    assert_eq!(pat[5], 0x00); // Table ID = PAT
}

#[test]
fn test_pmt_generation() {
    let mut muxer = TsMuxer::default();
    let pmt = muxer.generate_pmt();

    assert_eq!(pmt[0], 0x47); // Sync byte
    assert_eq!(pmt[1] & 0x40, 0x40); // PUSI set
    assert_eq!(pmt[5], 0x02); // Table ID = PMT
}

#[test]
fn test_continuity_counter() {
    let mut muxer = TsMuxer::default();

    // Mux some dummy data
    let aac_data = vec![0xFF; 100];
    let packets = muxer.mux_audio(&aac_data, 0, 0).unwrap();

    // Check that continuity counters increment
    assert!(packets.len() > 2); // Should have PAT, PMT, and data packets

    // Continuity should have incremented
    assert_eq!(muxer.pat_continuity, 1);
    assert_eq!(muxer.pmt_continuity, 1);
    assert!(muxer.audio_continuity > 0);
}

#[test]
fn test_ts_packet_size() {
    let mut muxer = TsMuxer::default();
    let aac_data = vec![0xFF; 500];
    let packets = muxer.mux_audio(&aac_data, 90000, 90000).unwrap();

    // All packets must be exactly 188 bytes
    for packet in packets {
        assert_eq!(packet.len(), TS_PACKET_SIZE);
    }
}

#[test]
fn crc32_mpeg2_known_value() {
    // The CRC-32/MPEG-2 check value for the bytes "123456789".
    let data = [0x31u8, 0x32, 0x33, 0x34, 0x35, 0x36, 0x37, 0x38, 0x39];
    assert_eq!(crc32_mpeg2(&data), 0x0376E6E7);
}

#[test]
fn pat_carries_its_own_crc32() {
    let mut muxer = TsMuxer::default();
    let pat = muxer.generate_pat();
    let crc = crc32_mpeg2(&pat[5..17]);
    assert_eq!(pat[17], (crc >> 24) as u8);
    assert_eq!(pat[18], ((crc >> 16) & 0xFF) as u8);
    assert_eq!(pat[19], ((crc >> 8) & 0xFF) as u8);
    assert_eq!(pat[20], (crc & 0xFF) as u8);
}

#[test]
fn psi_regeneration_is_idempotent_modulo_continuity() {
    let mut muxer = TsMuxer::default();
    let pat1 = muxer.generate_pat();
    let pat2 = muxer.generate_pat();
    let pmt1 = muxer.generate_pmt();
    let pmt2 = muxer.generate_pmt();
    for i in 0..188 {
        if i != 3 {
            assert_eq!(pat1[i], pat2[i], "PAT byte {} differs", i);
            assert_eq!(pmt1[i], pmt2[i], "PMT byte {} differs", i);
        }
    }
    // Only the continuity nibble moved.
    assert_eq!(pat1[3] & 0xF0, pat2[3] & 0xF0);
    assert_eq!(pat2[3] & 0x0F, (pat1[3] & 0x0F) + 1);
}

#[test]
fn continuity_advances_by_one_per_audio_packet() {
    let mut muxer = TsMuxer::default();
    let audio_pid = 0x0101u16;
    let mut seen: Vec<u8> = Vec::new();
    for frame in 0..3 {
        let aac_data = vec![frame as u8; 400];
        let packets = muxer.mux_audio(&aac_data, 0, 0).unwrap();
        for p in packets {
            let pid = (((p[1] & 0x1F) as u16) << 8) | (p[2] as u16);
            if pid == audio_pid {
                seen.push(p[3] & 0x0F);
            }
        }
    }
    assert!(seen.len() >= 6);
    for w in seen.windows(2) {
        assert_eq!(w[1], (w[0] + 1) % 16);
    }
    assert_eq!(seen[0], 0);
}

#[test]
fn exactly_one_unit_start_per_frame() {
    let mut muxer = TsMuxer::default();
    let aac_data = vec![0xABu8; 600];
    let packets = muxer.mux_audio(&aac_data, 0, 0).unwrap();
    let audio_pid = 0x0101u16;
    let mut starts = 0;
    let mut audio_packets = 0;
    for p in &packets {
        let pid = (((p[1] & 0x1F) as u16) << 8) | (p[2] as u16);
        if pid == audio_pid {
            audio_packets += 1;
            if p[1] & 0x40 != 0 {
                starts += 1;
            }
        }
    }
    // 600 + 19 PES bytes need 4 packets of 184 payload bytes.
    assert_eq!(audio_packets, 4);
    assert_eq!(starts, 1);
}

#[test]
fn oversized_frame_is_rejected() {
    let mut muxer = TsMuxer::default();
    let aac_data = vec![0u8; 65529];
    assert_eq!(muxer.mux_audio(&aac_data, 0, 0).unwrap_err(), RemuxError::FrameTooLarge);
    // Nothing moved.
    assert_eq!(muxer.packets_muxed, 0);
    assert_eq!(muxer.audio_continuity, 0);
}

#[test]
fn video_passthrough_rewrites_continuity_only() {
    let mut muxer = TsMuxer::default();
    let mut packet = [0xAAu8; 188];
    packet[0] = 0x47;
    packet[3] = 0x1F; // incoming counter 15
    let out1 = muxer.passthrough_video(&packet).unwrap();
    assert_eq!(out1[3], 0x10); // counter rewritten to 0
    let out2 = muxer.passthrough_video(&packet).unwrap();
    assert_eq!(out2[3], 0x11); // counter rewritten to 1
    for i in 0..188 {
        if i != 3 {
            assert_eq!(out1[i], packet[i]);
            assert_eq!(out2[i], packet[i]);
        }
    }
}
