//! The frame envelope: one delivered unit of video data with its metadata.

use vstd::prelude::*;

verus! {

/// One emitted unit of video data.
///
/// Created once per decoded frame or per pass-through packet, immediately
/// enqueued or dropped, and never mutated after creation.
#[derive(Debug)]
pub struct VideoFrameEnvelope {
    /// Name of the stream's native codec, or the raw-pixel marker when the
    /// payload was decoded and converted.
    pub codec: String,
    /// Positive frame width: decoder-reported after a decode, stream-declared
    /// on pass-through.
    pub frame_width: i64,
    /// Positive frame height, on the same terms as the width.
    pub frame_height: i64,
    /// True iff the source packet was marked as a sync point.
    pub key_frame: bool,
    /// The stream's timestamp unit as a rational; the denominator is never 0.
    pub time_base: (i64, i64),
    /// Presentation timestamp in `time_base` units, when the packet had one.
    pub pts: Option<i64>,
    /// Decoding timestamp in `time_base` units, when the packet had one.
    pub dts: Option<i64>,
    /// True iff the native library flagged the source packet as damaged.
    pub corrupted: bool,
    /// Textual instantaneous frame rate as reported by the stream.
    pub fps: String,
    /// Textual average frame rate as reported by the stream.
    pub avg_fps: String,
    /// Textual name of the raw pixel layout of `payload`.
    pub pixel_format: String,
    /// Millisecond epoch timestamp taken at packet receipt.
    pub frame_received_ts: i64,
    /// Millisecond epoch timestamp taken at envelope completion; never
    /// precedes `frame_received_ts`.
    pub frame_processed_ts: i64,
    /// Queue occupancy observed at send time; advisory only.
    pub queue_len: i64,
    /// Session-scoped count of frames dropped under the skip policy before
    /// this envelope was sent; non-decreasing along the emission order.
    pub queue_full_skipped_count: i64,
    /// Raw bytes: one plane-packed converted image, or the original
    /// (possibly transformed) packet bytes.
    pub payload: Vec<u8>,
}

impl VideoFrameEnvelope {
    /// The envelope's structural invariants.
    pub open spec fn well_formed(self) -> bool {
        &&& self.frame_width >= 1
        &&& self.frame_height >= 1
        &&& self.time_base.1 != 0
        &&& self.frame_processed_ts >= self.frame_received_ts
        &&& self.queue_len >= 0
        &&& self.queue_full_skipped_count >= 0
    }
}

} // verus!
