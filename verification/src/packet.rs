//! Plain-value models of what the demuxer hands the pipeline: one compressed
//! packet, and the discovered shape of the active video stream.

use vstd::prelude::*;
use crate::codec::CodecId;
use crate::codec::codec_recognized;

verus! {

/// One demultiplexed packet, reduced to the fields the pipeline reads.
#[derive(Debug)]
pub struct Packet {
    /// Index of the stream the packet belongs to.
    pub stream_index: i64,
    /// True iff the packet is marked as a sync point.
    pub key: bool,
    /// True iff the native library flagged the packet as damaged.
    pub corrupt: bool,
    /// Presentation timestamp in the stream's time base, if present.
    pub pts: Option<i64>,
    /// Decoding timestamp in the stream's time base, if present.
    pub dts: Option<i64>,
    /// Packet duration in the stream's time base.
    pub duration: i64,
    /// The compressed payload bytes.
    pub payload: Vec<u8>,
}

/// What stream discovery reports about the chosen video stream.
#[derive(Debug)]
pub struct StreamInfo {
    /// Index of the stream among the container's streams.
    pub index: i64,
    /// The stream's codec.
    pub codec: CodecId,
    /// The codec's name as the native library reports it; filter
    /// declarations are matched against this name.
    pub codec_name: String,
    /// Stream-declared frame width, positive.
    pub width: i64,
    /// Stream-declared frame height, positive.
    pub height: i64,
    /// Numerator of the stream's time base.
    pub time_base_num: i64,
    /// Denominator of the stream's time base, never 0.
    pub time_base_den: i64,
    /// Textual instantaneous frame rate.
    pub fps: String,
    /// Textual average frame rate.
    pub avg_fps: String,
    /// Textual name of the stream's pixel format.
    pub pixel_format: String,
}

impl StreamInfo {
    /// The shape a discovered stream must have before the pipeline accepts
    /// it: positive dimensions and a meaningful time base.
    pub open spec fn well_formed(self) -> bool {
        &&& self.width >= 1
        &&& self.height >= 1
        &&& self.time_base_den != 0
    }

    /// A stream the keyframe gate can work with.
    pub open spec fn supported(self) -> bool {
        codec_recognized(self.codec)
    }
}

} // verus!
