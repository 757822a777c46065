//! MPEG-TS demultiplexer.
//!
//! Parses 188-byte Transport Stream packets, discovers the audio elementary
//! stream through the PAT and PMT tables (with a heuristic fallback), and
//! reassembles complete PES packets from the payloads of consecutive TS
//! packets on the audio PID.

use vstd::prelude::*;

use crate::errors::RemuxError;

verus! {

/// MPEG-TS packet size in bytes.
pub const TS_PACKET_SIZE: usize = 188;

/// The sync byte that opens every TS packet.
pub const TS_SYNC_BYTE: u8 = 0x47;

/// PID of the Program Association Table.
pub const PAT_PID: u16 = 0x0000;

/// Upper bound on an assembled PES packet (1 MiB); also the declared length
/// adopted when the PES length field is zero (unbounded).
pub const MAX_PES_SIZE: usize = 1048576;

/// Audio codec carried by the elementary stream, as signalled by the PMT.
#[derive(Debug, Clone, Copy, PartialEq, Eq, Structural)]
pub enum AudioCodec {
    /// MPEG-1 layer II audio.
    Mp2,
    /// Dolby Digital audio.
    Ac3,
    /// AAC audio, already in the target format.
    Aac,
    /// Not yet known.
    Unknown,
}

/// Codec assigned to each PMT stream_type value.
pub open spec fn spec_codec_of_stream_type(stream_type: u8) -> AudioCodec {
    if stream_type == 0x03 || stream_type == 0x04 {
        AudioCodec::Mp2
    } else if stream_type == 0x81 {
        AudioCodec::Ac3
    } else if stream_type == 0x0F {
        AudioCodec::Aac
    } else {
        AudioCodec::Unknown
    }
}

impl AudioCodec {
    /// Detect the codec from a PMT stream_type byte.
    pub fn from_stream_type(stream_type: u8) -> (c: Self)
        ensures
            c == spec_codec_of_stream_type(stream_type),
    {
        match stream_type {
            0x03 | 0x04 => Self::Mp2,
            0x81 => Self::Ac3,
            0x0F => Self::Aac,
            _ => Self::Unknown,
        }
    }
}

/// The 13-bit PID of a TS packet, from header bytes 1 and 2.
pub open spec fn spec_ts_pid(d: Seq<u8>) -> u16 {
    (((d[1] & 0x1F) as u16) << 8) | (d[2] as u16)
}

/// The payload_unit_start flag of a TS packet.
pub open spec fn spec_ts_pusi(d: Seq<u8>) -> bool {
    d[1] & 0x40 != 0
}

/// The transport_error flag of a TS packet.
pub open spec fn spec_ts_transport_error(d: Seq<u8>) -> bool {
    d[1] & 0x80 != 0
}

/// The transport_priority flag of a TS packet.
pub open spec fn spec_ts_priority(d: Seq<u8>) -> bool {
    d[1] & 0x20 != 0
}

/// The 2-bit scrambling control field of a TS packet.
pub open spec fn spec_ts_scrambling(d: Seq<u8>) -> u8 {
    (d[3] & 0xC0) >> 6
}

/// Whether the adaptation_field_control bits announce an adaptation field.
pub open spec fn spec_ts_has_adaptation(d: Seq<u8>) -> bool {
    d[3] & 0x20 != 0
}

/// Whether the adaptation_field_control bits announce a payload.
pub open spec fn spec_ts_has_payload(d: Seq<u8>) -> bool {
    d[3] & 0x10 != 0
}

/// The 4-bit continuity counter of a TS packet.
pub open spec fn spec_ts_continuity(d: Seq<u8>) -> u8 {
    d[3] & 0x0F
}

/// Offset of the payload: 4 header bytes, plus the adaptation field and its
/// length byte when present.
pub open spec fn spec_ts_payload_offset(d: Seq<u8>) -> int {
    if spec_ts_has_adaptation(d) {
        5 + d[4]
    } else {
        4
    }
}

/// The payload bytes of a 188-byte TS packet: everything after the header
/// and adaptation field, or empty when absent or out of range.
pub open spec fn spec_ts_payload(d: Seq<u8>) -> Seq<u8> {
    if spec_ts_has_payload(d) && spec_ts_payload_offset(d) < 188 {
        d.subrange(spec_ts_payload_offset(d), 188)
    } else {
        Seq::empty()
    }
}

/// A parsed view of one 188-byte Transport Stream packet.
#[derive(Debug)]
pub struct TsPacket {
    /// Packet identifier (13 bits).
    pub pid: u16,
    /// Payload unit start indicator: set on the first packet of a PES packet
    /// or PSI section.
    pub payload_start: bool,
    /// Transport error indicator.
    pub transport_error: bool,
    /// Transport priority flag.
    pub priority: bool,
    /// Scrambling control (0 means not scrambled).
    pub scrambling: u8,
    /// Whether an adaptation field is present.
    pub has_adaptation: bool,
    /// Whether a payload is present.
    pub has_payload: bool,
    /// Continuity counter (4 bits, wraps 0-15).
    pub continuity: u8,
    /// Payload bytes.
    pub payload: Vec<u8>,
}

/// The fields a parsed packet must carry for the 188-byte input `d`.
pub open spec fn spec_packet_matches(p: TsPacket, d: Seq<u8>) -> bool {
    &&& p.pid == spec_ts_pid(d)
    &&& p.payload_start == spec_ts_pusi(d)
    &&& p.transport_error == spec_ts_transport_error(d)
    &&& p.priority == spec_ts_priority(d)
    &&& p.scrambling == spec_ts_scrambling(d)
    &&& p.has_adaptation == spec_ts_has_adaptation(d)
    &&& p.has_payload == spec_ts_has_payload(d)
    &&& p.continuity == spec_ts_continuity(d)
    &&& p.payload@ == spec_ts_payload(d)
}

impl TsPacket {
    /// Parse one 188-byte MPEG-TS packet.
    ///
    /// Accepts exactly the slices of length 188 whose first byte is the sync
    /// byte 0x47; every header field of the result is the one encoded in the
    /// input, and the payload is the byte range after the adaptation field.
    pub fn parse(data: &[u8]) -> (r: Result<TsPacket, RemuxError>)
        ensures
            r is Ok <==> data@.len() == 188 && data@[0] == 0x47,
            data@.len() != 188 ==> r == Err::<TsPacket, RemuxError>(RemuxError::BadSize),
            data@.len() == 188 && data@[0] != 0x47 ==> r == Err::<TsPacket, RemuxError>(
                RemuxError::BadSync,
            ),
            r matches Ok(p) ==> spec_packet_matches(p, data@),
    {
        if data.len() != TS_PACKET_SIZE {
            return Err(RemuxError::BadSize);
        }
        if data[0] != TS_SYNC_BYTE {
            return Err(RemuxError::BadSync);
        }

        let transport_error = (data[1] & 0x80) != 0;
        let payload_start = (data[1] & 0x40) != 0;
        let priority = (data[1] & 0x20) != 0;
        let pid = (((data[1] & 0x1F) as u16) << 8) | (data[2] as u16);

        let scrambling = (data[3] & 0xC0) >> 6;
        let has_adaptation = (data[3] & 0x20) != 0;
        let has_payload = (data[3] & 0x10) != 0;
        let continuity = data[3] & 0x0F;

        let mut payload_offset: usize = 4;
        if has_adaptation {
            let adaptation_length = data[4] as usize;
            payload_offset = 5 + adaptation_length;
        }

        let payload: Vec<u8> = if has_payload && payload_offset < TS_PACKET_SIZE {
            vstd::slice::slice_to_vec(&data[payload_offset..TS_PACKET_SIZE])
        } else {
            Vec::new()
        };

        Ok(TsPacket {
            pid,
            payload_start,
            transport_error,
            priority,
            scrambling,
            has_adaptation,
            has_payload,
            continuity,
            payload,
        })
    }

    /// Whether the scrambling control field marks this packet as scrambled.
    pub fn is_scrambled(&self) -> (r: bool)
        ensures
            r == (self.scrambling != 0),
    {
        self.scrambling != 0
    }
}

/// Whether a PES payload opens with a full 6-byte PES header: the start
/// code 0x000001 followed by an audio stream_id (0xC0-0xDF for MPEG audio,
/// 0xBD for private stream 1).
pub open spec fn spec_pes_header_ok(pl: Seq<u8>) -> bool {
    &&& pl.len() >= 6
    &&& pl[0] == 0x00
    &&& pl[1] == 0x00
    &&& pl[2] == 0x01
    &&& (0xC0 <= pl[3] <= 0xDF || pl[3] == 0xBD)
}

/// The length a PES packet declares for itself: the 16-bit length field plus
/// the 6 header bytes it does not count, or `MAX_PES_SIZE` when the field is
/// zero (unbounded).
pub open spec fn spec_pes_declared_len(pl: Seq<u8>) -> int {
    let f = ((pl[4] as usize) << 8) | (pl[5] as usize);
    if f == 0 {
        MAX_PES_SIZE as int
    } else {
        f + 6
    }
}

/// The continuity counter expected after seeing counter `cc`.
pub open spec fn spec_next_cc(cc: u8) -> u8 {
    ((cc + 1) as u8) & 0x0F
}

/// A reassembly buffer holding no partial PES packet.
pub open spec fn spec_pes_idle(b: PesBuffer) -> bool {
    &&& b.data@.len() == 0
    &&& !b.started
    &&& b.pes_length == 0
}

/// The transition a reassembly buffer makes on one TS payload.
///
/// `b0` is the buffer before the packet, `b1` after; `pusi`, `cc` and `pl`
/// are the packet's payload_unit_start flag, continuity counter and payload;
/// `r` is what the step hands back.  On a continuity break the buffer resets
/// and nothing is produced.  On a packet that starts a unit, the payload must
/// open with a valid PES header - start code and an audio stream_id - whose
/// length field bounds the assembly.
/// Bytes accumulate until the declared length is reached, at which point the
/// whole accumulation is yielded; an assembly past `MAX_PES_SIZE` is dropped.
pub open spec fn spec_pes_transition(
    b0: PesBuffer,
    pusi: bool,
    cc: u8,
    pl: Seq<u8>,
    b1: PesBuffer,
    r: Result<Option<Vec<u8>>, RemuxError>,
) -> bool {
    if b0.started && cc != b0.expected_continuity {
        &&& r matches Ok(None)
        &&& spec_pes_idle(b1)
        &&& b1.expected_continuity == b0.expected_continuity
    } else {
        &&& b1.expected_continuity == spec_next_cc(cc)
        &&& if pusi {
            if !spec_pes_header_ok(pl) {
                &&& r == Err::<Option<Vec<u8>>, RemuxError>(RemuxError::BadStream)
                &&& spec_pes_idle(b1)
            } else {
                let dl = spec_pes_declared_len(pl);
                if pl.len() > MAX_PES_SIZE {
                    &&& r matches Ok(None)
                    &&& spec_pes_idle(b1)
                } else if pl.len() >= dl {
                    &&& r matches Ok(Some(v)) && v@ == pl
                    &&& spec_pes_idle(b1)
                } else {
                    &&& r matches Ok(None)
                    &&& b1.started
                    &&& b1.pes_length == dl
                    &&& b1.data@ == pl
                }
            }
        } else if b0.started && pl.len() > 0 {
            let d2 = b0.data@ + pl;
            if d2.len() > MAX_PES_SIZE {
                &&& r matches Ok(None)
                &&& spec_pes_idle(b1)
            } else if d2.len() >= b0.pes_length {
                &&& r matches Ok(Some(v)) && v@ == d2
                &&& spec_pes_idle(b1)
            } else {
                &&& r matches Ok(None)
                &&& b1.started
                &&& b1.pes_length == b0.pes_length
                &&& b1.data@ == d2
            }
        } else {
            &&& r matches Ok(None)
            &&& b1.started == b0.started
            &&& b1.pes_length == b0.pes_length
            &&& b1.data@ == b0.data@
        }
    }
}

/// Accumulates TS packet payloads until a complete PES packet is assembled.
#[derive(Debug)]
pub struct PesBuffer {
    /// Accumulated PES bytes.
    pub data: Vec<u8>,
    /// Continuity counter expected on the next packet while assembling.
    pub expected_continuity: u8,
    /// Declared PES length adopted from the header of the unit in progress.
    pub pes_length: usize,
    /// Whether a PES start was seen and bytes are accumulating.
    pub started: bool,
}

impl PesBuffer {
    /// The buffer's internal invariant: the expected counter is a 4-bit
    /// value; an idle buffer holds nothing; an assembling buffer holds fewer
    /// bytes than its declared length, which is capped at `MAX_PES_SIZE`.
    pub open spec fn wf(&self) -> bool {
        &&& self.expected_continuity < 16
        &&& (!self.started ==> self.data@.len() == 0 && self.pes_length == 0)
        &&& (self.started ==> 7 <= self.pes_length <= MAX_PES_SIZE && self.data@.len()
            < self.pes_length)
    }

    /// Create an idle reassembly buffer.
    pub fn new() -> (b: PesBuffer)
        ensures
            b.wf(),
            spec_pes_idle(b),
            b.expected_continuity == 0,
    {
        PesBuffer { data: Vec::new(), expected_continuity: 0, pes_length: 0, started: false }
    }

    /// Drop any partial assembly; the expected continuity counter is kept.
    pub fn reset(&mut self)
        ensures
            spec_pes_idle(*final(self)),
            final(self).expected_continuity == old(self).expected_continuity,
    {
        self.data.clear();
        self.started = false;
        self.pes_length = 0;
    }

    /// Feed one TS packet's payload into the buffer.
    ///
    /// Returns the complete PES packet once the accumulated bytes reach the
    /// declared length, `Ok(None)` while assembly is in progress or after a
    /// reset, and `BadStream` when a unit-start payload lacks a valid PES
    /// header (start code 0x000001 and an audio stream_id).  The exact step
    /// is `spec_pes_transition`.
    pub fn add_payload(&mut self, packet: &TsPacket) -> (r: Result<Option<Vec<u8>>, RemuxError>)
        requires
            old(self).wf(),
            packet.continuity < 16,
        ensures
            final(self).wf(),
            spec_pes_transition(
                *old(self),
                packet.payload_start,
                packet.continuity,
                packet.payload@,
                *final(self),
                r,
            ),
    {
        if self.started && packet.continuity != self.expected_continuity {
            self.reset();
            return Ok(None);
        }

        let next = packet.continuity + 1;
        self.expected_continuity = next & 0x0F;
        proof {
            assert(next & 0x0F < 16) by (bit_vector);
        }

        if packet.payload_start {
            self.reset();
            if packet.payload.len() < 6 {
                return Err(RemuxError::BadStream);
            }
            if packet.payload[0] != 0x00 || packet.payload[1] != 0x00 || packet.payload[2] != 0x01
            {
                return Err(RemuxError::BadStream);
            }
            let stream_id = packet.payload[3];
            if !((0xC0 <= stream_id && stream_id <= 0xDF) || stream_id == 0xBD) {
                return Err(RemuxError::BadStream);
            }
            let hi = packet.payload[4];
            let lo = packet.payload[5];
            let len_field: usize = ((hi as usize) << 8) | (lo as usize);
            proof {
                assert(((hi as usize) << 8) | (lo as usize) <= 0xFFFF) by (bit_vector);
            }
            self.pes_length = if len_field == 0 {
                MAX_PES_SIZE
            } else {
                len_field + 6
            };
            self.started = true;
        }

        if self.started && packet.payload.len() > 0 {
            crate::util::append_bytes(&mut self.data, packet.payload.as_slice());
            if self.data.len() > MAX_PES_SIZE {
                self.reset();
                return Ok(None);
            }
            if self.data.len() >= self.pes_length {
                let mut out: Vec<u8> = Vec::new();
                core::mem::swap(&mut self.data, &mut out);
                self.reset();
                return Ok(Some(out));
            }
        }

        Ok(None)
    }
}

/// Law (unbounded PES is capped): a unit-start payload with a valid PES
/// header whose length field is zero is accepted - assembly begins - and the
/// declared length adopted for it is `MAX_PES_SIZE`, so even an unbounded
/// PES packet is cut off at 1 MiB.
pub proof fn lemma_unbounded_pes_capped(
    b0: PesBuffer,
    cc: u8,
    pl: Seq<u8>,
    b1: PesBuffer,
    r: Result<Option<Vec<u8>>, RemuxError>,
)
    requires
        spec_pes_transition(b0, true, cc, pl, b1, r),
        !(b0.started && cc != b0.expected_continuity),
        spec_pes_header_ok(pl),
        pl[4] == 0,
        pl[5] == 0,
        pl.len() < MAX_PES_SIZE,
    ensures
        r matches Ok(None),
        b1.started,
        b1.pes_length == MAX_PES_SIZE,
{
    assert(((0u8 as usize) << 8) | (0u8 as usize) == 0) by (bit_vector);
}

/// Law (accumulation bound): in every well-formed buffer state the
/// accumulated bytes never exceed `MAX_PES_SIZE`; together with
/// `add_payload`'s contract, which establishes and preserves `wf`, the
/// assembly never holds more than 1 MiB between calls.
pub proof fn lemma_pes_accumulation_bounded(b: PesBuffer)
    requires
        b.wf(),
    ensures
        b.data@.len() <= MAX_PES_SIZE,
{
}

/// Scan the program entries of a PAT section for the first program with a
/// non-zero program_number; its PID is the PMT PID.
pub open spec fn spec_pat_scan(d: Seq<u8>, off: int, end: int) -> Option<u16>
    decreases (if off <= end { end - off } else { 0 }),
{
    if 0 <= off && off + 4 <= end && off + 4 <= d.len() {
        let prog = ((d[off] as u16) << 8) | (d[off + 1] as u16);
        if prog != 0 {
            Some((((d[off + 2] & 0x1F) as u16) << 8) | (d[off + 3] as u16))
        } else {
            spec_pat_scan(d, off + 4, end)
        }
    } else {
        None
    }
}

/// The PMT PID announced by a PAT payload, if the payload carries a
/// well-formed PAT section with a non-zero program entry.
pub open spec fn spec_parse_pat(pl: Seq<u8>) -> Option<u16> {
    if pl.len() == 0 {
        None
    } else {
        let pointer = pl[0] as int;
        if pl.len() < 1 + pointer {
            None
        } else {
            let d = pl.subrange(1 + pointer, pl.len() as int);
            if d.len() < 8 {
                None
            } else if d[0] != 0x00 {
                None
            } else {
                let section_length = (((d[1] & 0x0F) as usize) << 8) | (d[2] as usize);
                if d.len() < 8 + section_length {
                    None
                } else {
                    spec_pat_scan(d, 8, section_length + 3)
                }
            }
        }
    }
}

/// Whether the descriptor run `d[off..end)` holds an AC-3 descriptor
/// (tag 0x6A, 0x7A or 0x81).
pub open spec fn spec_desc_scan_ac3(d: Seq<u8>, off: int, end: int) -> bool
    decreases (if off <= end { end - off } else { 0 }),
{
    if 0 <= off && off + 2 <= end {
        let tag = d[off];
        let dlen = d[off + 1] as int;
        if tag == 0x6A || tag == 0x7A || tag == 0x81 {
            true
        } else {
            spec_desc_scan_ac3(d, off + 2 + dlen, end)
        }
    } else {
        false
    }
}

/// The codec of the elementary-stream entry at `off` in a PMT section:
/// the stream_type's codec, except that a private-data stream (0x06) counts
/// as AC-3 when an AC-3 descriptor is present in its descriptor run.
pub open spec fn spec_pmt_entry_codec(d: Seq<u8>, off: int) -> AudioCodec {
    let stream_type = d[off];
    let es_len = (((d[off + 3] & 0x0F) as usize) << 8) | (d[off + 4] as usize);
    if stream_type == 0x06 && es_len > 0 && off + 5 + es_len <= d.len() && spec_desc_scan_ac3(
        d,
        off + 5,
        off + 5 + es_len,
    ) {
        AudioCodec::Ac3
    } else {
        spec_codec_of_stream_type(stream_type)
    }
}

/// Scan the elementary-stream entries of a PMT section for the first entry
/// with a recognised audio codec; yields its PID and codec.
pub open spec fn spec_pmt_scan(d: Seq<u8>, off: int, end: int) -> Option<(u16, AudioCodec)>
    decreases (if off <= end { end - off } else { 0 }),
{
    if 0 <= off && off + 5 <= end && off + 5 <= d.len() {
        let pid = (((d[off + 1] & 0x1F) as u16) << 8) | (d[off + 2] as u16);
        let es_len = (((d[off + 3] & 0x0F) as usize) << 8) | (d[off + 4] as usize);
        let codec = spec_pmt_entry_codec(d, off);
        if codec != AudioCodec::Unknown {
            Some((pid, codec))
        } else {
            spec_pmt_scan(d, off + 5 + es_len, end)
        }
    } else {
        None
    }
}

/// The audio PID and codec announced by a PMT payload, if the payload
/// carries a well-formed PMT section with an audio stream entry.
pub open spec fn spec_parse_pmt(pl: Seq<u8>) -> Option<(u16, AudioCodec)> {
    if pl.len() == 0 {
        None
    } else {
        let pointer = pl[0] as int;
        if pl.len() < 1 + pointer {
            None
        } else {
            let d = pl.subrange(1 + pointer, pl.len() as int);
            if d.len() < 12 {
                None
            } else if d[0] != 0x02 {
                None
            } else {
                let section_length = (((d[1] & 0x0F) as usize) << 8) | (d[2] as usize);
                let program_info_length = (((d[10] & 0x0F) as usize) << 8) | (d[11] as usize);
                spec_pmt_scan(d, 12 + program_info_length, section_length + 3)
            }
        }
    }
}

/// Read a 12-bit big-endian length: the low nibble of `hi` and all of `lo`.
fn len12(hi: u8, lo: u8) -> (r: usize)
    ensures
        r == (((hi & 0x0F) as usize) << 8) | (lo as usize),
        r <= 0x0FFF,
{
    let r = (((hi & 0x0F) as usize) << 8) | (lo as usize);
    proof {
        assert((((hi & 0x0F) as usize) << 8) | (lo as usize) <= 0x0FFF) by (bit_vector);
    }
    r
}

/// Whether `d[start..end)`, read as a descriptor run, holds an AC-3
/// descriptor.
#[verifier::loop_isolation(false)]
fn has_ac3_descriptor(d: &[u8], start: usize, end: usize) -> (r: bool)
    requires
        start <= end,
        end <= d@.len(),
        end <= 0x2100,
    ensures
        r == spec_desc_scan_ac3(d@, start as int, end as int),
{
    let mut off = start;
    while off + 2 <= end
        invariant
            off <= 0x2400,
            end <= 0x2100,
            end <= d@.len(),
            spec_desc_scan_ac3(d@, off as int, end as int) == spec_desc_scan_ac3(
                d@,
                start as int,
                end as int,
            ),
        decreases (if off <= end { end - off } else { 0 }),
    {
        let tag = d[off];
        let dlen = d[off + 1] as usize;
        if tag == 0x6A || tag == 0x7A || tag == 0x81 {
            return true;
        }
        off = off + 2 + dlen;
    }
    false
}

/// PIDs commonly carrying audio, tried by the fallback scan when no PMT has
/// announced an audio stream.
pub open spec fn spec_fallback_pid(pid: u16) -> bool {
    pid == 68 || pid == 128 || pid == 256 || pid == 257 || pid == 258
}

/// Whether a packet on a fallback PID looks like the start of an audio PES
/// packet: unit start, PES start code, and an audio stream_id (0xC0-0xDF for
/// MPEG audio, 0xBD for private stream 1).
pub open spec fn spec_fallback_hit(pid: u16, pusi: bool, pl: Seq<u8>) -> bool {
    &&& spec_fallback_pid(pid)
    &&& pusi
    &&& pl.len() >= 4
    &&& pl[0] == 0x00
    &&& pl[1] == 0x00
    &&& pl[2] == 0x01
    &&& (0xC0 <= pl[3] <= 0xDF || pl[3] == 0xBD)
}

/// Demultiplexer state machine: discovers the audio PID through PAT and PMT
/// (or the fallback scan) and reassembles PES packets on that PID.
#[derive(Debug)]
pub struct TsDemuxer {
    /// Audio PID, once discovered.
    pub audio_pid: Option<u16>,
    /// Codec of the audio stream, once discovered.
    pub audio_codec: AudioCodec,
    /// Reassembly buffer for the audio PID.
    pub pes_buffer: PesBuffer,
    /// PMT PID announced by the PAT, once seen.
    pub pmt_pid: Option<u16>,
    /// Packets to wait before the fallback scan starts.
    pub fallback_threshold: u64,
    /// Whether the fallback scan is active.
    pub fallback_active: bool,
    /// Packets fed in so far.
    pub packets_processed: u64,
    /// Packets seen on the audio PID so far.
    pub audio_packets: u64,
    /// Continuity breaks seen on the audio PID so far.
    pub continuity_errors: u64,
}

/// Fields of the demultiplexer that a packet outside the audio path leaves
/// untouched.
pub open spec fn spec_demux_same_tables(s0: TsDemuxer, s1: TsDemuxer) -> bool {
    &&& s1.audio_pid == s0.audio_pid
    &&& s1.audio_codec == s0.audio_codec
    &&& s1.pmt_pid == s0.pmt_pid
    &&& s1.fallback_active == s0.fallback_active
    &&& s1.audio_packets == s0.audio_packets
    &&& s1.continuity_errors == s0.continuity_errors
    &&& s1.pes_buffer == s0.pes_buffer
}

/// The transition the demultiplexer makes on one 188-byte input.
///
/// A slice that does not parse leaves the state untouched and reports the
/// parse error.  A scrambled packet is skipped.  Otherwise the packet may,
/// in order: update the PMT PID (PAT), update the audio PID and codec (PMT),
/// arm the fallback scan once `fallback_threshold` packets have passed
/// without a discovery, and finally feed the audio reassembly buffer when it
/// lands on the audio PID or triggers fallback adoption.
pub open spec fn spec_demux_transition(
    s0: TsDemuxer,
    d: Seq<u8>,
    s1: TsDemuxer,
    r: Result<Option<Vec<u8>>, RemuxError>,
) -> bool {
    if d.len() != 188 {
        r == Err::<Option<Vec<u8>>, RemuxError>(RemuxError::BadSize) && s1 == s0
    } else if d[0] != 0x47 {
        r == Err::<Option<Vec<u8>>, RemuxError>(RemuxError::BadSync) && s1 == s0
    } else {
        let pid = spec_ts_pid(d);
        let pusi = spec_ts_pusi(d);
        let pl = spec_ts_payload(d);
        let cc = spec_ts_continuity(d);
        let pp1 = crate::util::spec_inc_u64(s0.packets_processed);
        &&& s1.packets_processed == pp1
        &&& s1.fallback_threshold == s0.fallback_threshold
        &&& if spec_ts_scrambling(d) != 0 {
            r matches Ok(None) && spec_demux_same_tables(s0, s1)
        } else {
            let pmt1 = if pid == PAT_PID && pusi {
                match spec_parse_pat(pl) {
                    Some(p) => Some(p),
                    None => s0.pmt_pid,
                }
            } else {
                s0.pmt_pid
            };
            let audio1 = if pmt1 is Some && pid == pmt1.unwrap() && pusi {
                match spec_parse_pmt(pl) {
                    Some(pc) => (Some(pc.0), pc.1),
                    None => (s0.audio_pid, s0.audio_codec),
                }
            } else {
                (s0.audio_pid, s0.audio_codec)
            };
            let fb1 = s0.fallback_active || (audio1.0 is None && pp1 >= s0.fallback_threshold);
            let brk = s0.pes_buffer.started && cc != s0.pes_buffer.expected_continuity;
            &&& s1.pmt_pid == pmt1
            &&& s1.fallback_active == fb1
            &&& if audio1.0 is Some && pid == audio1.0.unwrap() {
                &&& s1.audio_pid == audio1.0
                &&& s1.audio_codec == audio1.1
                &&& s1.audio_packets == crate::util::spec_inc_u64(s0.audio_packets)
                &&& s1.continuity_errors == (if brk {
                    crate::util::spec_inc_u64(s0.continuity_errors)
                } else {
                    s0.continuity_errors
                })
                &&& spec_pes_transition(s0.pes_buffer, pusi, cc, pl, s1.pes_buffer, r)
            } else if audio1.0 is None && fb1 && spec_fallback_hit(pid, pusi, pl) {
                &&& s1.audio_pid == Some(pid)
                &&& s1.audio_codec == AudioCodec::Unknown
                &&& s1.audio_packets == crate::util::spec_inc_u64(s0.audio_packets)
                &&& s1.continuity_errors == (if brk {
                    crate::util::spec_inc_u64(s0.continuity_errors)
                } else {
                    s0.continuity_errors
                })
                &&& spec_pes_transition(s0.pes_buffer, pusi, cc, pl, s1.pes_buffer, r)
            } else {
                &&& r matches Ok(None)
                &&& s1.audio_pid == audio1.0
                &&& s1.audio_codec == audio1.1
                &&& s1.audio_packets == s0.audio_packets
                &&& s1.continuity_errors == s0.continuity_errors
                &&& s1.pes_buffer == s0.pes_buffer
            }
        }
    }
}

impl TsDemuxer {
    /// The demultiplexer's internal invariant.
    pub open spec fn wf(&self) -> bool {
        self.pes_buffer.wf()
    }

    /// Create a demultiplexer with nothing discovered yet and the default
    /// fallback threshold of 1000 packets.
    pub fn new() -> (s: TsDemuxer)
        ensures
            s.wf(),
            s.audio_pid is None,
            s.audio_codec == AudioCodec::Unknown,
            s.pmt_pid is None,
            s.fallback_threshold == 1000,
            !s.fallback_active,
            s.packets_processed == 0,
            s.audio_packets == 0,
            s.continuity_errors == 0,
            spec_pes_idle(s.pes_buffer),
            s.pes_buffer.expected_continuity == 0,
    {
        TsDemuxer {
            audio_pid: None,
            audio_codec: AudioCodec::Unknown,
            pes_buffer: PesBuffer::new(),
            pmt_pid: None,
            fallback_threshold: 1000,
            fallback_active: false,
            packets_processed: 0,
            audio_packets: 0,
            continuity_errors: 0,
        }
    }

    /// The PMT PID a PAT payload announces, if any.
    #[verifier::loop_isolation(false)]
    fn parse_pat(payload: &Vec<u8>) -> (r: Option<u16>)
        ensures
            r == spec_parse_pat(payload@),
    {
        if payload.len() == 0 {
            return None;
        }
        let pointer = payload[0] as usize;
        if payload.len() < 1 + pointer {
            return None;
        }
        let d: &[u8] = &payload[1 + pointer..payload.len()];
        if d.len() < 8 {
            return None;
        }
        if d[0] != 0x00 {
            return None;
        }
        let section_length = len12(d[1], d[2]);
        if d.len() < 8 + section_length {
            return None;
        }
        proof {
            assert(d@ == payload@.subrange((1 + pointer) as int, payload@.len() as int));
        }
        let end: usize = section_length + 3;
        let mut offset: usize = 8;
        while offset + 4 <= end
            invariant
                8 <= offset <= 0x1010,
                end == section_length + 3,
                section_length <= 0x0FFF,
                d@.len() >= 8 + section_length,
                spec_pat_scan(d@, offset as int, end as int) == spec_pat_scan(
                    d@,
                    8,
                    end as int,
                ),
            decreases end - offset,
        {
            let program_number = ((d[offset] as u16) << 8) | (d[offset + 1] as u16);
            let pid = (((d[offset + 2] & 0x1F) as u16) << 8) | (d[offset + 3] as u16);
            if program_number != 0 {
                proof {
                    assert(spec_pat_scan(d@, offset as int, end as int) == Some(pid));
                }
                return Some(pid);
            }
            offset = offset + 4;
        }
        None
    }

    /// The audio PID and codec a PMT payload announces, if any.
    #[verifier::loop_isolation(false)]
    fn parse_pmt(payload: &Vec<u8>) -> (r: Option<(u16, AudioCodec)>)
        ensures
            r == spec_parse_pmt(payload@),
    {
        if payload.len() == 0 {
            return None;
        }
        let pointer = payload[0] as usize;
        if payload.len() < 1 + pointer {
            return None;
        }
        let d: &[u8] = &payload[1 + pointer..payload.len()];
        if d.len() < 12 {
            return None;
        }
        if d[0] != 0x02 {
            return None;
        }
        let section_length = len12(d[1], d[2]);
        let program_info_length = len12(d[10], d[11]);
        let end: usize = section_length + 3;
        let mut offset: usize = 12 + program_info_length;
        while offset + 5 <= end && offset + 5 <= d.len()
            invariant
                offset <= 0x2100,
                end == section_length + 3,
                section_length <= 0x0FFF,
                spec_pmt_scan(d@, offset as int, end as int) == spec_pmt_scan(
                    d@,
                    (12 + program_info_length) as int,
                    end as int,
                ),
            decreases (if offset <= end { end - offset } else { 0 }),
        {
            let stream_type = d[offset];
            let pid = (((d[offset + 1] & 0x1F) as u16) << 8) | (d[offset + 2] as u16);
            let es_info_length = len12(d[offset + 3], d[offset + 4]);
            let mut codec = AudioCodec::from_stream_type(stream_type);
            if stream_type == 0x06 && es_info_length > 0 {
                let desc_start = offset + 5;
                let desc_end = desc_start + es_info_length;
                if desc_end <= d.len() {
                    if has_ac3_descriptor(d, desc_start, desc_end) {
                        codec = AudioCodec::Ac3;
                    }
                }
            }
            if codec != AudioCodec::Unknown {
                return Some((pid, codec));
            }
            offset = offset + 5 + es_info_length;
        }
        None
    }

    /// Count a packet on the audio PID, count a continuity break if this
    /// packet causes one, and feed the payload into the reassembly buffer.
    fn feed_audio(&mut self, packet: &TsPacket) -> (r: Result<Option<Vec<u8>>, RemuxError>)
        requires
            old(self).pes_buffer.wf(),
            packet.continuity < 16,
        ensures
            final(self).pes_buffer.wf(),
            final(self).audio_packets == crate::util::spec_inc_u64(old(self).audio_packets),
            final(self).continuity_errors == (if old(self).pes_buffer.started
                && packet.continuity != old(self).pes_buffer.expected_continuity {
                crate::util::spec_inc_u64(old(self).continuity_errors)
            } else {
                old(self).continuity_errors
            }),
            spec_pes_transition(
                old(self).pes_buffer,
                packet.payload_start,
                packet.continuity,
                packet.payload@,
                final(self).pes_buffer,
                r,
            ),
            final(self).audio_pid == old(self).audio_pid,
            final(self).audio_codec == old(self).audio_codec,
            final(self).pmt_pid == old(self).pmt_pid,
            final(self).fallback_active == old(self).fallback_active,
            final(self).fallback_threshold == old(self).fallback_threshold,
            final(self).packets_processed == old(self).packets_processed,
    {
        self.audio_packets = crate::util::inc_u64(self.audio_packets);
        if self.pes_buffer.started && packet.continuity != self.pes_buffer.expected_continuity {
            self.continuity_errors = crate::util::inc_u64(self.continuity_errors);
        }
        self.pes_buffer.add_payload(packet)
    }

    /// Process a single TS packet.
    ///
    /// Returns the assembled bytes when a complete audio PES packet becomes
    /// ready, `Ok(None)` otherwise; parse failures and PES header violations
    /// are reported as errors.  The exact step is `spec_demux_transition`.
    pub fn process_packet(&mut self, data: &[u8]) -> (r: Result<Option<Vec<u8>>, RemuxError>)
        requires
            old(self).wf(),
        ensures
            final(self).wf(),
            spec_demux_transition(*old(self), data@, *final(self), r),
    {
        let packet = match TsPacket::parse(data) {
            Ok(p) => p,
            Err(e) => {
                return Err(e);
            },
        };
        self.packets_processed = crate::util::inc_u64(self.packets_processed);

        if packet.is_scrambled() {
            return Ok(None);
        }

        if packet.pid == PAT_PID && packet.payload_start {
            if let Some(p) = Self::parse_pat(&packet.payload) {
                self.pmt_pid = Some(p);
            }
        }

        let mut is_pmt = false;
        if let Some(mp) = self.pmt_pid {
            if packet.pid == mp && packet.payload_start {
                is_pmt = true;
            }
        }
        if is_pmt {
            if let Some((apid, codec)) = Self::parse_pmt(&packet.payload) {
                self.audio_pid = Some(apid);
                self.audio_codec = codec;
            }
        }

        if self.audio_pid.is_none() && !self.fallback_active && self.packets_processed
            >= self.fallback_threshold {
            self.fallback_active = true;
        }

        proof {
            let ghost b3 = data@[3];
            assert(b3 & 0x0F < 16) by (bit_vector);
        }

        let mut is_audio = false;
        if let Some(ap) = self.audio_pid {
            if packet.pid == ap {
                is_audio = true;
            }
        }
        if is_audio {
            return self.feed_audio(&packet);
        }

        if self.audio_pid.is_none() && self.fallback_active {
            let pid = packet.pid;
            if (pid == 68 || pid == 128 || pid == 256 || pid == 257 || pid == 258)
                && packet.payload_start && packet.payload.len() >= 4 {
                if packet.payload[0] == 0x00 && packet.payload[1] == 0x00 && packet.payload[2]
                    == 0x01 {
                    let stream_id = packet.payload[3];
                    if (0xC0 <= stream_id && stream_id <= 0xDF) || stream_id == 0xBD {
                        self.audio_pid = Some(pid);
                        self.audio_codec = AudioCodec::Unknown;
                        return self.feed_audio(&packet);
                    }
                }
            }
        }

        Ok(None)
    }

    /// The audio PID, once discovered.
    pub fn audio_pid(&self) -> (r: Option<u16>)
        ensures
            r == self.audio_pid,
    {
        self.audio_pid
    }

    /// The audio codec, once discovered.
    pub fn audio_codec(&self) -> (r: AudioCodec)
        ensures
            r == self.audio_codec,
    {
        self.audio_codec
    }

    /// Packets processed and audio packets seen so far.
    pub fn stats(&self) -> (r: (u64, u64))
        ensures
            r.0 == self.packets_processed,
            r.1 == self.audio_packets,
    {
        (self.packets_processed, self.audio_packets)
    }

    /// Continuity breaks seen on the audio PID so far.
    pub fn continuity_errors(&self) -> (r: u64)
        ensures
            r == self.continuity_errors,
    {
        self.continuity_errors
    }
}

impl Default for TsDemuxer {
    /// Same as `TsDemuxer::new`.
    fn default() -> (s: Self)
        ensures
            s.wf(),
            s.audio_pid is None,
            s.audio_codec == AudioCodec::Unknown,
            s.pmt_pid is None,
            s.fallback_threshold == 1000,
            !s.fallback_active,
            s.packets_processed == 0,
            s.audio_packets == 0,
            s.continuity_errors == 0,
            spec_pes_idle(s.pes_buffer),
            s.pes_buffer.expected_continuity == 0,
    {
        Self::new()
    }
}

} // verus!
