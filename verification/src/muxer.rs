//! MPEG-TS multiplexer.
//!
//! Wraps AAC frames into PES packets carrying PTS/DTS, fragments them into
//! 188-byte TS packets on the audio PID, and periodically emits the PAT and
//! PMT tables with correct CRC-32 and per-PID continuity counters.

use vstd::prelude::*;
use vstd::pervasive::VecAdditionalExecFns;

use crate::demux::{spec_next_cc, TS_PACKET_SIZE};
use crate::errors::RemuxError;
use crate::util::{append_bytes, spec_wrap_add_u64, wrap_add_u64};

verus! {

/// Generator polynomial of the MPEG-2 CRC-32.
pub const CRC32_MPEG2_POLY: u32 = 0x04C11DB7;

/// One shift-and-conditionally-subtract round of the MPEG-2 CRC-32.
pub open spec fn spec_crc32_round(crc: u32) -> u32 {
    if crc & 0x80000000 != 0 {
        (crc << 1) ^ CRC32_MPEG2_POLY
    } else {
        crc << 1
    }
}

/// `n` rounds of the MPEG-2 CRC-32.
pub open spec fn spec_crc32_rounds(crc: u32, n: nat) -> u32
    decreases n,
{
    if n == 0 {
        crc
    } else {
        spec_crc32_round(spec_crc32_rounds(crc, (n - 1) as nat))
    }
}

/// Absorb one byte into the MPEG-2 CRC-32 state.
pub open spec fn spec_crc32_byte(crc: u32, b: u8) -> u32 {
    spec_crc32_rounds(crc ^ ((b as u32) << 24), 8)
}

/// The MPEG-2 CRC-32 state after the first `i` bytes of `d`, starting from
/// the initial value 0xFFFFFFFF.
pub open spec fn spec_crc32_seq(d: Seq<u8>, i: int) -> u32
    decreases i,
{
    if i <= 0 {
        0xFFFFFFFFu32
    } else {
        spec_crc32_byte(spec_crc32_seq(d, i - 1), d[i - 1])
    }
}

/// The MPEG-2 CRC-32 of `d`: polynomial 0x04C11DB7, initial value
/// 0xFFFFFFFF, no final complement.
pub open spec fn spec_psi_crc32(d: Seq<u8>) -> u32 {
    spec_crc32_seq(d, d.len() as int)
}

/// Compute the MPEG-2 CRC-32 of a byte slice.
#[verifier::loop_isolation(false)]
pub fn crc32_mpeg2(data: &[u8]) -> (r: u32)
    ensures
        r == spec_psi_crc32(data@),
{
    let mut crc: u32 = 0xFFFFFFFF;
    let mut i: usize = 0;
    while i < data.len()
        invariant
            i <= data@.len(),
            crc == spec_crc32_seq(data@, i as int),
        decreases data@.len() - i,
    {
        crc = crc ^ ((data[i] as u32) << 24);
        let ghost entry = crc;
        let mut bit: usize = 0;
        while bit < 8
            invariant
                bit <= 8,
                crc == spec_crc32_rounds(entry, bit as nat),
            decreases 8 - bit,
        {
            if crc & 0x80000000 != 0 {
                crc = (crc << 1) ^ CRC32_MPEG2_POLY;
            } else {
                crc = crc << 1;
            }
            bit = bit + 1;
        }
        i = i + 1;
    }
    crc
}

/// The canonical 5-byte PES timestamp: a prefix nibble (0x3 for PTS, 0x1 for
/// DTS), bits 32..30, 29..15 and 14..0 of the 90 kHz stamp, each group
/// closed by a marker bit of 1.
pub open spec fn spec_ts_stamp(prefix: u8, ts: u64) -> Seq<u8> {
    seq![
        (prefix << 4) | (((ts >> 29) as u8) & 0x0E) | 0x01,
        ((ts >> 22) & 0xFF) as u8,
        (((ts >> 14) & 0xFE) | 0x01) as u8,
        ((ts >> 7) & 0xFF) as u8,
        (((ts << 1) & 0xFE) | 0x01) as u8,
    ]
}

/// The PES packet wrapping one audio access unit: start code 0x000001,
/// stream_id 0xC0, a length field counting everything after itself
/// (13 header bytes beyond the first 6, then the data), the flag bytes 0x84
/// and 0xC0 (data aligned; PTS and DTS present), a 10-byte stamp area, and
/// the data.
pub open spec fn spec_pes_packet(data: Seq<u8>, pts: u64, dts: u64) -> Seq<u8> {
    seq![
        0x00u8,
        0x00,
        0x01,
        0xC0,
        ((((data.len() + 7) as u16) >> 8) as u8),
        (((data.len() + 7) as u16) & 0xFF) as u8,
        0x84,
        0xC0,
        10,
    ] + spec_ts_stamp(0x03, pts) + spec_ts_stamp(0x01, dts) + data
}

/// Number of 188-byte TS packets needed to carry `n` bytes of PES data at
/// 184 payload bytes each.
pub open spec fn spec_frag_count(n: int) -> int {
    (n + 183) / 184
}

/// Byte `i` of the `k`-th TS packet carrying the PES bytes `pes` on `pid`,
/// where the continuity counter was `cc0` before the first packet: the
/// 4-byte TS header (payload unit start on the first packet only), then 184
/// payload bytes, with 0xFF stuffing after the data runs out.
pub open spec fn spec_ts_fragment(pes: Seq<u8>, pid: u16, cc0: u8, k: int) -> Seq<u8> {
    Seq::new(
        188,
        |i: int|
            if i == 0 {
                0x47u8
            } else if i == 1 {
                (if k == 0 {
                    0x40u8
                } else {
                    0x00u8
                }) | (((pid >> 8) as u8) & 0x1F)
            } else if i == 2 {
                (pid & 0xFF) as u8
            } else if i == 3 {
                0x10 | (((cc0 + k) % 16) as u8)
            } else if k * 184 + (i - 4) < pes.len() {
                pes[k * 184 + (i - 4)]
            } else {
                0xFFu8
            },
    )
}

/// MPEG-TS multiplexer configuration.
#[derive(Debug, Clone)]
pub struct TsMuxerConfig {
    /// PID carrying the AAC audio stream.
    pub audio_pid: u16,
    /// PID of the passthrough video stream.
    pub video_pid: u16,
    /// PID carrying the program clock reference.
    pub pcr_pid: u16,
    /// PID of the Program Map Table.
    pub pmt_pid: u16,
    /// Transport stream identifier written into the PAT.
    pub transport_stream_id: u16,
    /// Program number mapped by the PAT.
    pub program_number: u16,
}

impl Default for TsMuxerConfig {
    /// Defaults: audio on 0x0101, video on 0x0100 (which also carries the
    /// PCR), PMT on 0x1000, transport stream 1, program 1.
    fn default() -> (c: Self)
        ensures
            c.audio_pid == 0x0101,
            c.video_pid == 0x0100,
            c.pcr_pid == 0x0100,
            c.pmt_pid == 0x1000,
            c.transport_stream_id == 1,
            c.program_number == 1,
    {
        TsMuxerConfig {
            audio_pid: 0x0101,
            video_pid: 0x0100,
            pcr_pid: 0x0100,
            pmt_pid: 0x1000,
            transport_stream_id: 1,
            program_number: 1,
        }
    }
}

/// The 12 bytes of the PAT section before its CRC: table_id 0, section
/// syntax set, section_length 13, the transport stream id, version 0
/// (current), section 0 of 0, and one program entry mapping the program
/// number to the PMT PID.
pub open spec fn spec_pat_section(c: TsMuxerConfig) -> Seq<u8> {
    seq![
        0x00u8,
        0xB0,
        0x0D,
        (c.transport_stream_id >> 8) as u8,
        (c.transport_stream_id & 0xFF) as u8,
        0xC1,
        0x00,
        0x00,
        (c.program_number >> 8) as u8,
        (c.program_number & 0xFF) as u8,
        0xE0 | ((c.pmt_pid >> 8) as u8),
        (c.pmt_pid & 0xFF) as u8,
    ]
}

/// The 22 bytes of the PMT section before its CRC: table_id 2, section
/// syntax set, section_length 23, the program number, version 0 (current),
/// section 0 of 0, the PCR PID, no program descriptors, and two stream
/// entries: H.264 video (0x1B) and ADTS AAC audio (0x0F).
pub open spec fn spec_pmt_section(c: TsMuxerConfig) -> Seq<u8> {
    seq![
        0x02u8,
        0xB0,
        0x17,
        (c.program_number >> 8) as u8,
        (c.program_number & 0xFF) as u8,
        0xC1,
        0x00,
        0x00,
        0xE0 | ((c.pcr_pid >> 8) as u8),
        (c.pcr_pid & 0xFF) as u8,
        0xF0,
        0x00,
        0x1B,
        0xE0 | ((c.video_pid >> 8) as u8),
        (c.video_pid & 0xFF) as u8,
        0xF0,
        0x00,
        0x0F,
        0xE0 | ((c.audio_pid >> 8) as u8),
        (c.audio_pid & 0xFF) as u8,
        0xF0,
        0x00,
    ]
}

/// The full 188-byte PAT packet: TS header on PID 0 with payload unit start
/// and continuity counter `cc`, a zero pointer field, the PAT section, its
/// CRC-32 (big-endian), and 0xFF stuffing.
pub open spec fn spec_pat_packet(c: TsMuxerConfig, cc: u8) -> Seq<u8> {
    let s = spec_pat_section(c);
    let crc = spec_psi_crc32(s);
    Seq::new(
        188,
        |i: int|
            if i == 0 {
                0x47u8
            } else if i == 1 {
                0x40
            } else if i == 2 {
                0x00
            } else if i == 3 {
                0x10 | cc
            } else if i == 4 {
                0x00
            } else if 5 <= i < 17 {
                s[i - 5]
            } else if i == 17 {
                (crc >> 24) as u8
            } else if i == 18 {
                ((crc >> 16) & 0xFF) as u8
            } else if i == 19 {
                ((crc >> 8) & 0xFF) as u8
            } else if i == 20 {
                (crc & 0xFF) as u8
            } else {
                0xFFu8
            },
    )
}

/// The full 188-byte PMT packet: TS header on the PMT PID with payload unit
/// start and continuity counter `cc`, a zero pointer field, the PMT section,
/// its CRC-32 (big-endian), and 0xFF stuffing.
pub open spec fn spec_pmt_packet(c: TsMuxerConfig, cc: u8) -> Seq<u8> {
    let s = spec_pmt_section(c);
    let crc = spec_psi_crc32(s);
    Seq::new(
        188,
        |i: int|
            if i == 0 {
                0x47u8
            } else if i == 1 {
                0x40 | (((c.pmt_pid >> 8) as u8) & 0x1F)
            } else if i == 2 {
                (c.pmt_pid & 0xFF) as u8
            } else if i == 3 {
                0x10 | cc
            } else if i == 4 {
                0x00
            } else if 5 <= i < 27 {
                s[i - 5]
            } else if i == 27 {
                (crc >> 24) as u8
            } else if i == 28 {
                ((crc >> 16) & 0xFF) as u8
            } else if i == 29 {
                ((crc >> 8) & 0xFF) as u8
            } else if i == 30 {
                (crc & 0xFF) as u8
            } else {
                0xFFu8
            },
    )
}

/// The step a successful `mux_audio` call makes from muxer state `m0` to
/// `m1`, emitting `pkts`: when the packet count sits on the PSI interval the
/// output opens with fresh PAT and PMT packets (each advancing its PID's
/// continuity counter), followed by the fragments of the PES packet wrapping
/// `aac` with the stamps `pts` and `dts`; the audio continuity counter
/// advances once per fragment and the packet count by the total emitted.
pub open spec fn spec_mux_audio_ok(
    m0: TsMuxer,
    aac: Seq<u8>,
    pts: u64,
    dts: u64,
    m1: TsMuxer,
    pkts: Seq<Vec<u8>>,
) -> bool {
    let psi = m0.packets_muxed % m0.psi_interval == 0;
    let pes = spec_pes_packet(aac, pts, dts);
    let n = spec_frag_count(pes.len() as int);
    let base: int = if psi {
        2
    } else {
        0
    };
    &&& pkts.len() == base + n
    &&& (psi ==> pkts[0]@ == spec_pat_packet(m0.config, m0.pat_continuity) && pkts[1]@
        == spec_pmt_packet(m0.config, m0.pmt_continuity) && m1.pat_continuity == spec_next_cc(
        m0.pat_continuity,
    ) && m1.pmt_continuity == spec_next_cc(m0.pmt_continuity))
    &&& (!psi ==> m1.pat_continuity == m0.pat_continuity && m1.pmt_continuity
        == m0.pmt_continuity)
    &&& forall|i: int|
        base <= i < pkts.len() ==> #[trigger] pkts[i]@ == spec_ts_fragment(
            pes,
            m0.config.audio_pid,
            m0.audio_continuity,
            i - base,
        )
    &&& m1.audio_continuity == ((m0.audio_continuity + n) % 16) as u8
    &&& m1.video_continuity == m0.video_continuity
    &&& m1.config == m0.config
    &&& m1.psi_interval == m0.psi_interval
    &&& m1.packets_muxed == spec_wrap_add_u64(m0.packets_muxed, pkts.len() as u64)
}

/// Multiplexer state: per-PID continuity counters, the count of packets
/// emitted, and the PSI regeneration cadence.
#[derive(Debug)]
pub struct TsMuxer {
    /// Configuration.
    pub config: TsMuxerConfig,
    /// Continuity counter of the audio PID.
    pub audio_continuity: u8,
    /// Continuity counter of the video PID.
    pub video_continuity: u8,
    /// Continuity counter of the PAT PID.
    pub pat_continuity: u8,
    /// Continuity counter of the PMT PID.
    pub pmt_continuity: u8,
    /// Packets emitted so far.
    pub packets_muxed: u64,
    /// PAT and PMT are regenerated whenever `packets_muxed` is a multiple of
    /// this interval when an audio frame arrives.
    pub psi_interval: u64,
}

impl TsMuxer {
    /// The multiplexer's internal invariant: 4-bit continuity counters and a
    /// positive PSI interval.
    pub open spec fn wf(&self) -> bool {
        &&& self.audio_continuity < 16
        &&& self.video_continuity < 16
        &&& self.pat_continuity < 16
        &&& self.pmt_continuity < 16
        &&& self.psi_interval > 0
    }

    /// Create a multiplexer with all counters at zero and the default PSI
    /// interval of 40 packets.
    pub fn new(config: TsMuxerConfig) -> (m: TsMuxer)
        ensures
            m.wf(),
            m.config == config,
            m.audio_continuity == 0,
            m.video_continuity == 0,
            m.pat_continuity == 0,
            m.pmt_continuity == 0,
            m.packets_muxed == 0,
            m.psi_interval == 40,
    {
        TsMuxer {
            config,
            audio_continuity: 0,
            video_continuity: 0,
            pat_continuity: 0,
            pmt_continuity: 0,
            packets_muxed: 0,
            psi_interval: 40,
        }
    }

    /// Append the canonical 5-byte stamp for `ts` with the given prefix
    /// nibble.
    fn write_timestamp(buffer: &mut Vec<u8>, prefix: u8, ts: u64)
        ensures
            final(buffer)@ == old(buffer)@ + spec_ts_stamp(prefix, ts),
    {
        buffer.push((prefix << 4) | (((ts >> 29) as u8) & 0x0E) | 0x01);
        buffer.push(((ts >> 22) & 0xFF) as u8);
        buffer.push((((ts >> 14) & 0xFE) | 0x01) as u8);
        buffer.push(((ts >> 7) & 0xFF) as u8);
        buffer.push((((ts << 1) & 0xFE) | 0x01) as u8);
        proof {
            assert(final(buffer)@ =~= old(buffer)@ + spec_ts_stamp(prefix, ts));
        }
    }

    /// Build the PES packet wrapping `data` with equal PTS and DTS stamps.
    fn create_pes_packet(data: &[u8], pts: u64, dts: u64) -> (r: Vec<u8>)
        requires
            data@.len() + 7 <= 65535,
        ensures
            r@ == spec_pes_packet(data@, pts, dts),
            r@.len() == data@.len() + 19,
    {
        let mut pes: Vec<u8> = Vec::new();
        pes.push(0x00);
        pes.push(0x00);
        pes.push(0x01);
        pes.push(0xC0);
        let pes_length: u16 = (data.len() + 7) as u16;
        pes.push((pes_length >> 8) as u8);
        pes.push((pes_length & 0xFF) as u8);
        pes.push(0x84);
        pes.push(0xC0);
        pes.push(10);
        Self::write_timestamp(&mut pes, 0x03, pts);
        Self::write_timestamp(&mut pes, 0x01, dts);
        append_bytes(&mut pes, data);
        proof {
            assert(pes@ =~= spec_pes_packet(data@, pts, dts));
        }
        pes
    }

    /// Fragment a PES packet into TS packets on `pid`, advancing the audio
    /// continuity counter once per packet, and push them onto `out`.
    #[verifier::loop_isolation(false)]
    fn create_ts_packets(&mut self, pes_data: &Vec<u8>, pid: u16, out: &mut Vec<Vec<u8>>)
        requires
            old(self).wf(),
        ensures
            final(self).wf(),
            ({
                let n = spec_frag_count(pes_data@.len() as int);
                &&& final(out)@.len() == old(out)@.len() + n
                &&& forall|j: int|
                    0 <= j < old(out)@.len() ==> final(out)@[j] == old(out)@[j]
                &&& forall|j: int|
                    old(out)@.len() <= j < final(out)@.len() ==> #[trigger] final(out)@[j]@
                        == spec_ts_fragment(
                        pes_data@,
                        pid,
                        old(self).audio_continuity,
                        j - old(out)@.len(),
                    )
                &&& final(self).audio_continuity == ((old(self).audio_continuity + n) % 16) as u8
            }),
            final(self).config == old(self).config,
            final(self).video_continuity == old(self).video_continuity,
            final(self).pat_continuity == old(self).pat_continuity,
            final(self).pmt_continuity == old(self).pmt_continuity,
            final(self).packets_muxed == old(self).packets_muxed,
            final(self).psi_interval == old(self).psi_interval,
    {
        let ghost cc0 = self.audio_continuity;
        let ghost out0 = out@;
        let ghost n = spec_frag_count(pes_data@.len() as int);
        let mut offset: usize = 0;
        let mut k: usize = 0;
        while offset < pes_data.len()
            invariant
                0 <= k,
                offset <= pes_data@.len(),
                k < n ==> offset == 184 * k,
                k >= n ==> offset == pes_data@.len() && k == n,
                self.audio_continuity == ((cc0 + k) % 16) as u8,
                self.config == old(self).config,
                self.video_continuity == old(self).video_continuity,
                self.pat_continuity == old(self).pat_continuity,
                self.pmt_continuity == old(self).pmt_continuity,
                self.packets_muxed == old(self).packets_muxed,
                self.psi_interval == old(self).psi_interval,
                out@.len() == out0.len() + k,
                forall|j: int| 0 <= j < out0.len() ==> out@[j] == out0[j],
                forall|j: int|
                    out0.len() <= j < out@.len() ==> #[trigger] out@[j]@ == spec_ts_fragment(
                        pes_data@,
                        pid,
                        cc0,
                        j - out0.len(),
                    ),
            decreases pes_data@.len() - offset,
        {
            proof {
                assert(k < n) by {
                    if k >= n {
                        assert(offset == pes_data@.len());
                    }
                };
            }
            let cc = self.audio_continuity;
            let mut pkt: Vec<u8> = Vec::new();
            pkt.push(0x47);
            pkt.push(
                (if k == 0 {
                    0x40u8
                } else {
                    0x00u8
                }) | (((pid >> 8) as u8) & 0x1F),
            );
            pkt.push((pid & 0xFF) as u8);
            pkt.push(0x10 | cc);

            let remaining = pes_data.len() - offset;
            let to_copy = if remaining < 184 {
                remaining
            } else {
                184
            };
            let mut j: usize = 0;
            while j < to_copy
                invariant
                    j <= to_copy,
                    offset + to_copy <= pes_data@.len(),
                    pkt@.len() == 4 + j,
                    pkt@[0] == 0x47u8,
                    pkt@[1] == (if k == 0 {
                        0x40u8
                    } else {
                        0x00u8
                    }) | (((pid >> 8) as u8) & 0x1F),
                    pkt@[2] == (pid & 0xFF) as u8,
                    pkt@[3] == 0x10 | cc,
                    forall|i: int|
                        4 <= i < 4 + j ==> #[trigger] pkt@[i] == pes_data@[offset + i - 4],
                decreases to_copy - j,
            {
                pkt.push(pes_data[offset + j]);
                j = j + 1;
            }

            while pkt.len() < TS_PACKET_SIZE
                invariant
                    4 + to_copy <= pkt@.len() <= 188,
                    pkt@[0] == 0x47u8,
                    pkt@[1] == (if k == 0 {
                        0x40u8
                    } else {
                        0x00u8
                    }) | (((pid >> 8) as u8) & 0x1F),
                    pkt@[2] == (pid & 0xFF) as u8,
                    pkt@[3] == 0x10 | cc,
                    forall|i: int|
                        4 <= i < 4 + to_copy ==> #[trigger] pkt@[i] == pes_data@[offset + i - 4],
                    forall|i: int| 4 + to_copy <= i < pkt@.len() ==> #[trigger] pkt@[i] == 0xFFu8,
                decreases 188 - pkt@.len(),
            {
                pkt.push(0xFF);
            }

            proof {
                assert(pkt@ =~= spec_ts_fragment(pes_data@, pid, cc0, k as int));
            }
            out.push(pkt);

            let next = cc + 1;
            self.audio_continuity = next & 0x0F;
            proof {
                assert(next & 0x0F == ((cc + 1) as int % 16) as u8) by (bit_vector)
                    requires
                        cc < 16,
                        next == cc + 1,
                ;
                vstd::arithmetic::div_mod::lemma_add_mod_noop(cc0 + k, 1, 16);
                assert((cc0 + k + 1) % 16 == ((cc0 + k) % 16 + 1) % 16);
            }
            offset = offset + to_copy;
            k = k + 1;
        }
        proof {
            assert(k == n) by {
                if k < n {
                    assert(offset == 184 * k);
                }
            };
        }
    }

    /// Wrap one AAC frame (with its ADTS header) into a PES packet and
    /// fragment it into TS packets on the audio PID, preceded by fresh PAT
    /// and PMT packets whenever the packet count sits on the PSI interval.
    ///
    /// Fails only when the frame cannot fit the 16-bit PES length field.
    pub fn mux_audio(&mut self, aac_data: &[u8], pts: u64, dts: u64) -> (r: Result<
        Vec<Vec<u8>>,
        RemuxError,
    >)
        requires
            old(self).wf(),
        ensures
            final(self).wf(),
            r is Ok <==> aac_data@.len() + 7 <= 65535,
            aac_data@.len() + 7 > 65535 ==> r == Err::<Vec<Vec<u8>>, RemuxError>(
                RemuxError::FrameTooLarge,
            ) && *final(self) == *old(self),
            r matches Ok(pkts) ==> spec_mux_audio_ok(
                *old(self),
                aac_data@,
                pts,
                dts,
                *final(self),
                pkts@,
            ),
    {
        if aac_data.len() > 65528 {
            return Err(RemuxError::FrameTooLarge);
        }

        let mut packets: Vec<Vec<u8>> = Vec::new();

        if self.packets_muxed % self.psi_interval == 0 {
            let pat = self.generate_pat();
            packets.push(pat);
            let pmt = self.generate_pmt();
            packets.push(pmt);
        }

        let pes = Self::create_pes_packet(aac_data, pts, dts);
        let audio_pid = self.config.audio_pid;
        self.create_ts_packets(&pes, audio_pid, &mut packets);

        self.packets_muxed = wrap_add_u64(self.packets_muxed, packets.len() as u64);

        Ok(packets)
    }

    /// Pass a 188-byte video TS packet through, rewriting only its
    /// continuity counter to this multiplexer's video counter.
    pub fn passthrough_video(&mut self, packet: &[u8]) -> (r: Result<Vec<u8>, RemuxError>)
        requires
            old(self).wf(),
            packet@.len() == 188,
        ensures
            final(self).wf(),
            r matches Ok(o) ==> o@ == packet@.update(
                3,
                (packet@[3] & 0xF0) | old(self).video_continuity,
            ),
            r is Ok,
            final(self).video_continuity == spec_next_cc(old(self).video_continuity),
            final(self).packets_muxed == spec_wrap_add_u64(old(self).packets_muxed, 1),
            final(self).audio_continuity == old(self).audio_continuity,
            final(self).pat_continuity == old(self).pat_continuity,
            final(self).pmt_continuity == old(self).pmt_continuity,
            final(self).config == old(self).config,
            final(self).psi_interval == old(self).psi_interval,
    {
        let mut output = vstd::slice::slice_to_vec(packet);
        let b = (output[3] & 0xF0) | self.video_continuity;
        output.set(3, b);

        let next = self.video_continuity + 1;
        self.video_continuity = next & 0x0F;
        proof {
            assert(next & 0x0F < 16) by (bit_vector);
        }
        self.packets_muxed = wrap_add_u64(self.packets_muxed, 1);

        Ok(output)
    }

    /// Generate one 188-byte PAT packet and advance the PAT continuity
    /// counter.
    #[verifier::loop_isolation(false)]
    pub fn generate_pat(&mut self) -> (r: Vec<u8>)
        requires
            old(self).wf(),
        ensures
            final(self).wf(),
            r@ == spec_pat_packet(old(self).config, old(self).pat_continuity),
            final(self).pat_continuity == spec_next_cc(old(self).pat_continuity),
            final(self).config == old(self).config,
            final(self).audio_continuity == old(self).audio_continuity,
            final(self).video_continuity == old(self).video_continuity,
            final(self).pmt_continuity == old(self).pmt_continuity,
            final(self).packets_muxed == old(self).packets_muxed,
            final(self).psi_interval == old(self).psi_interval,
    {
        let mut p: Vec<u8> = Vec::new();
        p.push(0x47);
        p.push(0x40);
        p.push(0x00);
        p.push(0x10 | self.pat_continuity);
        p.push(0x00);

        p.push(0x00);
        p.push(0xB0);
        p.push(0x0D);
        p.push((self.config.transport_stream_id >> 8) as u8);
        p.push((self.config.transport_stream_id & 0xFF) as u8);
        p.push(0xC1);
        p.push(0x00);
        p.push(0x00);
        p.push((self.config.program_number >> 8) as u8);
        p.push((self.config.program_number & 0xFF) as u8);
        p.push(0xE0 | ((self.config.pmt_pid >> 8) as u8));
        p.push((self.config.pmt_pid & 0xFF) as u8);

        proof {
            assert(p@.subrange(5, 17) =~= spec_pat_section(self.config));
        }
        let crc = crc32_mpeg2(&p[5..17]);
        p.push((crc >> 24) as u8);
        p.push(((crc >> 16) & 0xFF) as u8);
        p.push(((crc >> 8) & 0xFF) as u8);
        p.push((crc & 0xFF) as u8);

        let ghost head = p@;
        while p.len() < TS_PACKET_SIZE
            invariant
                21 <= p@.len() <= 188,
                forall|i: int| 0 <= i < 21 ==> #[trigger] p@[i] == head[i],
                forall|i: int| 21 <= i < p@.len() ==> #[trigger] p@[i] == 0xFFu8,
            decreases 188 - p@.len(),
        {
            p.push(0xFF);
        }

        proof {
            assert(p@ =~= spec_pat_packet(old(self).config, old(self).pat_continuity));
        }

        let next = self.pat_continuity + 1;
        self.pat_continuity = next & 0x0F;
        proof {
            assert(next & 0x0F < 16) by (bit_vector);
        }
        p
    }

    /// Generate one 188-byte PMT packet and advance the PMT continuity
    /// counter.
    #[verifier::loop_isolation(false)]
    pub fn generate_pmt(&mut self) -> (r: Vec<u8>)
        requires
            old(self).wf(),
        ensures
            final(self).wf(),
            r@ == spec_pmt_packet(old(self).config, old(self).pmt_continuity),
            final(self).pmt_continuity == spec_next_cc(old(self).pmt_continuity),
            final(self).config == old(self).config,
            final(self).audio_continuity == old(self).audio_continuity,
            final(self).video_continuity == old(self).video_continuity,
            final(self).pat_continuity == old(self).pat_continuity,
            final(self).packets_muxed == old(self).packets_muxed,
            final(self).psi_interval == old(self).psi_interval,
    {
        let mut p: Vec<u8> = Vec::new();
        p.push(0x47);
        p.push(0x40 | (((self.config.pmt_pid >> 8) as u8) & 0x1F));
        p.push((self.config.pmt_pid & 0xFF) as u8);
        p.push(0x10 | self.pmt_continuity);
        p.push(0x00);

        p.push(0x02);
        p.push(0xB0);
        p.push(0x17);
        p.push((self.config.program_number >> 8) as u8);
        p.push((self.config.program_number & 0xFF) as u8);
        p.push(0xC1);
        p.push(0x00);
        p.push(0x00);
        p.push(0xE0 | ((self.config.pcr_pid >> 8) as u8));
        p.push((self.config.pcr_pid & 0xFF) as u8);
        p.push(0xF0);
        p.push(0x00);
        p.push(0x1B);
        p.push(0xE0 | ((self.config.video_pid >> 8) as u8));
        p.push((self.config.video_pid & 0xFF) as u8);
        p.push(0xF0);
        p.push(0x00);
        p.push(0x0F);
        p.push(0xE0 | ((self.config.audio_pid >> 8) as u8));
        p.push((self.config.audio_pid & 0xFF) as u8);
        p.push(0xF0);
        p.push(0x00);

        proof {
            assert(p@.subrange(5, 27) =~= spec_pmt_section(self.config));
        }
        let crc = crc32_mpeg2(&p[5..27]);
        p.push((crc >> 24) as u8);
        p.push(((crc >> 16) & 0xFF) as u8);
        p.push(((crc >> 8) & 0xFF) as u8);
        p.push((crc & 0xFF) as u8);

        let ghost head = p@;
        while p.len() < TS_PACKET_SIZE
            invariant
                31 <= p@.len() <= 188,
                forall|i: int| 0 <= i < 31 ==> #[trigger] p@[i] == head[i],
                forall|i: int| 31 <= i < p@.len() ==> #[trigger] p@[i] == 0xFFu8,
            decreases 188 - p@.len(),
        {
            p.push(0xFF);
        }

        proof {
            assert(p@ =~= spec_pmt_packet(old(self).config, old(self).pmt_continuity));
        }

        let next = self.pmt_continuity + 1;
        self.pmt_continuity = next & 0x0F;
        proof {
            assert(next & 0x0F < 16) by (bit_vector);
        }
        p
    }

    /// Packets emitted, audio continuity counter, video continuity counter.
    pub fn stats(&self) -> (r: (u64, u8, u8))
        ensures
            r.0 == self.packets_muxed,
            r.1 == self.audio_continuity,
            r.2 == self.video_continuity,
    {
        (self.packets_muxed, self.audio_continuity, self.video_continuity)
    }
}

/// The continuity counter carried in byte 3 of a TS packet.
pub open spec fn spec_cc_of(pkt: Seq<u8>) -> u8 {
    pkt[3] & 0x0F
}

/// Law (continuity): among the TS packets carrying one PES packet on a PID,
/// each packet's continuity counter is exactly one more (mod 16) than the
/// previous packet's.  Together with `spec_mux_audio_ok` - which starts each
/// PES at the muxer's stored counter and leaves the counter one past the
/// last packet - every packet emitted on the audio PID advances the counter
/// by exactly 1 (mod 16).
pub proof fn lemma_continuity_advances(pes: Seq<u8>, pid: u16, cc0: u8, k: int)
    requires
        cc0 < 16,
        0 <= k,
        k + 1 < spec_frag_count(pes.len() as int),
    ensures
        spec_cc_of(spec_ts_fragment(pes, pid, cc0, k)) < 16,
        spec_cc_of(spec_ts_fragment(pes, pid, cc0, k + 1)) == spec_next_cc(
            spec_cc_of(spec_ts_fragment(pes, pid, cc0, k)),
        ),
{
    let c1 = ((cc0 + k) % 16) as u8;
    let c2 = ((cc0 + k + 1) % 16) as u8;
    assert(spec_ts_fragment(pes, pid, cc0, k)[3] == 0x10 | c1);
    assert(spec_ts_fragment(pes, pid, cc0, k + 1)[3] == 0x10 | c2);
    vstd::arithmetic::div_mod::lemma_add_mod_noop(cc0 + k, 1, 16);
    assert((0x10 | c1) & 0x0F == c1 && (0x10 | c2) & 0x0F == c2 && c2 == ((c1 + 1) as u8) & 0x0F)
        by (bit_vector)
        requires
            c1 < 16,
            c2 < 16,
            c2 == ((c1 + 1) as int % 16) as u8,
    ;
}

/// Law (one PES per frame): among the TS packets carrying one PES packet on
/// the audio PID, exactly the first has the payload_unit_start flag set, so
/// each muxed AAC frame yields exactly one PES packet on that PID.
pub proof fn lemma_one_pes_per_frame(pes: Seq<u8>, pid: u16, cc0: u8, k: int)
    requires
        0 <= k < spec_frag_count(pes.len() as int),
    ensures
        (spec_ts_fragment(pes, pid, cc0, k)[1] & 0x40 != 0) <==> k == 0,
{
    let hi = ((pid >> 8) as u8) & 0x1F;
    assert((0x40u8 | hi) & 0x40 != 0 && (0x00u8 | hi) & 0x40 == 0) by (bit_vector)
        requires
            hi == ((pid >> 8) as u8) & 0x1F,
    ;
}

/// Law (PSI idempotence): two PAT packets generated from the same
/// configuration, and likewise two PMT packets, are byte-identical except
/// for the continuity counter nibble in byte 3.
pub proof fn lemma_psi_idempotent(c: TsMuxerConfig, cc1: u8, cc2: u8)
    ensures
        forall|i: int|
            0 <= i < 188 && i != 3 ==> spec_pat_packet(c, cc1)[i] == spec_pat_packet(c, cc2)[i],
        forall|i: int|
            0 <= i < 188 && i != 3 ==> spec_pmt_packet(c, cc1)[i] == spec_pmt_packet(c, cc2)[i],
{
}

impl Default for TsMuxer {
    /// Same as `TsMuxer::new` with the default configuration.
    fn default() -> (m: Self)
        ensures
            m.wf(),
            m.config.audio_pid == 0x0101,
            m.config.video_pid == 0x0100,
            m.config.pcr_pid == 0x0100,
            m.config.pmt_pid == 0x1000,
            m.config.transport_stream_id == 1,
            m.config.program_number == 1,
            m.audio_continuity == 0,
            m.video_continuity == 0,
            m.pat_continuity == 0,
            m.pmt_continuity == 0,
            m.packets_muxed == 0,
            m.psi_interval == 40,
    {
        Self::new(TsMuxerConfig::default())
    }
}

} // verus!
