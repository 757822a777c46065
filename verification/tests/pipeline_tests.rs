use xg2g_transcoder::audio_remux::{AudioRemuxConfig, AudioRemuxer};
use xg2g_transcoder::demux::AudioCodec;

/// One 188-byte PAT packet announcing program 1 on PMT PID 0x0100.
fn pat_packet() -> [u8; 188] {
    let mut p = [0xFFu8; 188];
    p[0] = 0x47;
    p[1] = 0x40;
    p[2] = 0x00;
    p[3] = 0x10;
    p[4] = 0x00; // pointer
    p[5] = 0x00; // table_id: PAT
    p[6] = 0xB0;
    p[7] = 0x0D; // section_length 13
    p[8] = 0x00;
    p[9] = 0x01; // transport stream id
    p[10] = 0xC1;
    p[11] = 0x00;
    p[12] = 0x00;
    p[13] = 0x00;
    p[14] = 0x01; // program number 1
    p[15] = 0xE1;
    p[16] = 0x00; // PMT PID 0x0100
    p[17] = 0x00;
    p[18] = 0x00;
    p[19] = 0x00;
    p[20] = 0x00; // CRC stub
    p
}

/// One 188-byte PMT packet on PID 0x0100 declaring an MP2 stream on 0x0101.
fn pmt_packet_mp2() -> [u8; 188] {
    let mut p = [0xFFu8; 188];
    p[0] = 0x47;
    p[1] = 0x40 | 0x01; // PUSI, PID 0x0100
    p[2] = 0x00;
    p[3] = 0x10;
    p[4] = 0x00; // pointer
    p[5] = 0x02; // table_id: PMT
    p[6] = 0xB0;
    p[7] = 0x12; // section_length 18
    p[8] = 0x00;
    p[9] = 0x01; // program number
    p[10] = 0xC1;
    p[11] = 0x00;
    p[12] = 0x00;
    p[13] = 0xE1;
    p[14] = 0x00; // PCR PID
    p[15] = 0xF0;
    p[16] = 0x00; // program info length 0
    p[17] = 0x03; // stream_type MP2
    p[18] = 0xE1;
    p[19] = 0x01; // elementary PID 0x0101
    p[20] = 0xF0;
    p[21] = 0x00; // ES info length 0
    p[22] = 0x00;
    p[23] = 0x00;
    p[24] = 0x00;
    p[25] = 0x00; // CRC stub
    p
}

/// One 188-byte audio TS packet on PID 0x0101 whose payload is exactly the
/// given bytes; the rest of the packet is adaptation-field stuffing.
fn audio_ts_packet(pusi: bool, cc: u8, payload: &[u8]) -> [u8; 188] {
    assert!(payload.len() <= 183);
    let mut p = [0xFFu8; 188];
    p[0] = 0x47;
    p[1] = if pusi { 0x40 } else { 0x00 } | 0x01;
    p[2] = 0x01;
    p[3] = 0x30 | (cc & 0x0F); // adaptation field + payload
    let stuffing = 183 - payload.len();
    p[4] = stuffing as u8; // adaptation field length
    if stuffing > 0 {
        p[5] = 0x00; // no adaptation flags
    }
    let offset = 5 + stuffing;
    p[offset..offset + payload.len()].copy_from_slice(payload);
    p
}

#[test]
fn pat_discovery_adopts_pmt_pid() {
    let mut remuxer = AudioRemuxer::new(AudioRemuxConfig::default()).unwrap();
    let r = remuxer.process_packet(&pat_packet());
    assert_eq!(r.unwrap(), None);
    assert_eq!(remuxer.demuxer.pmt_pid, Some(0x0100));
    assert_eq!(remuxer.demuxer.audio_pid, None);
}

#[test]
fn pmt_discovery_adopts_mp2_audio_stream() {
    let mut remuxer = AudioRemuxer::new(AudioRemuxConfig::default()).unwrap();
    remuxer.process_packet(&pat_packet()).unwrap();
    let r = remuxer.process_packet(&pmt_packet_mp2());
    assert_eq!(r.unwrap(), None);
    assert_eq!(remuxer.demuxer.audio_pid, Some(0x0101));
    assert_eq!(remuxer.demuxer.audio_codec, AudioCodec::Mp2);
    assert!(remuxer.is_initialized());
}

#[test]
fn complete_pes_is_handed_to_the_caller() {
    let mut remuxer = AudioRemuxer::new(AudioRemuxConfig::default()).unwrap();
    remuxer.process_packet(&pat_packet()).unwrap();
    remuxer.process_packet(&pmt_packet_mp2()).unwrap();

    // PES of declared length 0x20 + 6 = 38 bytes, complete in one packet.
    let mut payload = vec![0x00, 0x00, 0x01, 0xC0, 0x00, 0x20];
    payload.extend(std::iter::repeat(0x42u8).take(32));
    let r = remuxer.process_packet(&audio_ts_packet(true, 0, &payload));
    let pes = r.unwrap().expect("a complete PES packet");
    assert_eq!(pes.len(), 38);
    assert_eq!(&pes[0..4], &[0x00, 0x00, 0x01, 0xC0]);
    assert_eq!(remuxer.stats().audio_packets, 1);
}

#[test]
fn continuity_jump_counts_one_error_and_resets() {
    let mut remuxer = AudioRemuxer::new(AudioRemuxConfig::default()).unwrap();
    remuxer.process_packet(&pat_packet()).unwrap();
    remuxer.process_packet(&pmt_packet_mp2()).unwrap();

    // Start a PES that stays incomplete (declared length 200).
    let start = [0x00, 0x00, 0x01, 0xC0, 0x00, 0xC2, 0x01, 0x02];
    let r1 = remuxer.process_packet(&audio_ts_packet(true, 5, &start));
    assert_eq!(r1.unwrap(), None);
    let errors_before = remuxer.stats().errors;

    // Counters 5 then 7: a break.
    let r2 = remuxer.process_packet(&audio_ts_packet(false, 7, &[0x03, 0x04]));
    assert_eq!(r2.unwrap(), None);
    assert_eq!(remuxer.stats().errors, errors_before + 1);

    // The next unit start resumes cleanly.
    let mut fresh = vec![0x00, 0x00, 0x01, 0xC0, 0x00, 0x02];
    fresh.extend([0xAAu8, 0xBB]);
    let r3 = remuxer.process_packet(&audio_ts_packet(true, 9, &fresh));
    assert_eq!(r3.unwrap().expect("resumed PES").len(), 8);
}

/// Decode the 33-bit stamp out of the 5 PES stamp bytes.
fn decode_stamp(b: &[u8]) -> u64 {
    let high = ((b[0] >> 1) & 0x07) as u64;
    let mid = (((b[1] as u64) << 7) | ((b[2] as u64) >> 1)) & 0x7FFF;
    let low = (((b[3] as u64) << 7) | ((b[4] as u64) >> 1)) & 0x7FFF;
    (high << 30) | (mid << 15) | low
}

#[test]
fn pts_progression_at_48khz() {
    let mut remuxer = AudioRemuxer::new(AudioRemuxConfig::default()).unwrap();
    let mut pts_values: Vec<u64> = Vec::new();
    for frame in 0..3 {
        let aac = vec![frame as u8; 64];
        let packets = remuxer.mux_aac_frame(&aac).unwrap();
        for p in &packets {
            let pid = (((p[1] & 0x1F) as u16) << 8) | (p[2] as u16);
            if pid == 0x0101 && p[1] & 0x40 != 0 {
                // PES header starts right after the 4-byte TS header.
                assert_eq!(&p[4..8], &[0x00, 0x00, 0x01, 0xC0]);
                let pts = decode_stamp(&p[13..18]);
                let dts = decode_stamp(&p[18..23]);
                assert_eq!(pts, dts);
                pts_values.push(pts);
            }
        }
    }
    assert_eq!(pts_values, vec![0, 1920, 3840]);
}

#[test]
fn scrambled_packets_are_skipped() {
    let mut remuxer = AudioRemuxer::new(AudioRemuxConfig::default()).unwrap();
    let mut p = pat_packet();
    p[3] |= 0x80; // scrambling control nonzero
    assert_eq!(remuxer.process_packet(&p).unwrap(), None);
    assert_eq!(remuxer.demuxer.pmt_pid, None);
    assert_eq!(remuxer.stats().packets_processed, 1);
}

#[test]
fn fallback_scan_adopts_common_audio_pid() {
    let mut remuxer = AudioRemuxer::new(AudioRemuxConfig::default()).unwrap();
    // Feed 1000 uninteresting packets to arm the fallback scan.
    let mut filler = [0xFFu8; 188];
    filler[0] = 0x47;
    filler[1] = 0x1F; // PID 0x1FFF (null packet), no payload flag
    filler[2] = 0xFF;
    filler[3] = 0x00;
    for _ in 0..1000 {
        remuxer.process_packet(&filler).unwrap();
    }
    // A PES start with an MPEG audio stream id on PID 256 is adopted.
    let mut p = [0xFFu8; 188];
    p[0] = 0x47;
    p[1] = 0x41; // PUSI, PID 0x0100
    p[2] = 0x00;
    p[3] = 0x10;
    p[4..10].copy_from_slice(&[0x00, 0x00, 0x01, 0xC0, 0x00, 0x04]);
    let r = remuxer.process_packet(&p);
    assert!(r.unwrap().is_some());
    assert_eq!(remuxer.demuxer.audio_pid, Some(0x0100));
    assert_eq!(remuxer.demuxer.audio_codec, AudioCodec::Unknown);
}
