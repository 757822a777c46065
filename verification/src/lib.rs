//! Real-time MPEG-TS audio remuxing core.
//!
//! The library receives an MPEG-2 Transport Stream whose audio elementary
//! stream carries MP2 or AC-3 audio and re-emits a stream whose audio is
//! AAC-LC in ADTS framing.  It holds the binary-format state machines of the
//! pipeline: the 188-byte TS packet parser, the PAT/PMT-driven demultiplexer
//! with PES reassembly, the ADTS header builder, the TS multiplexer with
//! PSI generation and continuity counters, and the coordinator that manages
//! timestamps and statistics.  Decoding and encoding of PCM samples is left
//! to the embedding application, which drives this core packet by packet.

pub mod audio_remux;
pub mod decoder;
pub mod demux;
pub mod encoder;
pub mod errors;
pub mod muxer;
pub mod util;
