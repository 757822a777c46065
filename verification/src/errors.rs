use vstd::prelude::*;

verus! {

/// Errors surfaced by the remuxing core.
///
/// Per-packet errors (`BadSize`, `BadSync`, `BadStream`) are recoverable: the
/// caller counts them and keeps feeding packets.  `BadConfig` and
/// `BadSampleRate` are fatal at construction time.  `CodecError` stands for a
/// frame-level decoder or encoder failure reported by the embedding
/// application.
#[derive(Clone, Copy, Debug, PartialEq, Eq, Structural)]
pub enum RemuxError {
    /// A TS packet slice was not exactly 188 bytes long.
    BadSize,
    /// Byte 0 of a TS packet was not the sync byte 0x47.
    BadSync,
    /// A PES invariant was violated: a header too short, a missing start
    /// code, or a stream_id that is not an audio stream.
    BadStream,
    /// A configuration value was rejected at construction time.
    BadConfig,
    /// A sample rate that has no entry in the ADTS sampling-frequency table.
    BadSampleRate,
    /// A frame whose size does not fit the 13-bit ADTS length field or the
    /// 16-bit PES length field.
    FrameTooLarge,
    /// A decoder or encoder reported a frame-level failure.
    CodecError,
}

} // verus!
