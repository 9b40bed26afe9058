//! The session: controller-facing lifecycle and the worker's per-packet
//! ingestion step.
//!
//! One session owns one exit signal, one single-slot log-level mailbox and
//! one bounded handoff queue. The worker's loop — demultiplex, gate,
//! transform, decode, envelope, enqueue — is driven from outside; every
//! decision it takes and every envelope it builds is a method here, so the
//! whole per-packet step is specified and checked. The shared ghost logs
//! `emitted` and `taken` record every envelope that entered the queue and
//! every envelope handed to a consumer, in order; the session invariant ties
//! them to the queue's contents, which is what makes delivery order and the
//! skip counter's behaviour provable.

use vstd::prelude::*;
use crate::bsf::BitStreamFilterContext;
use crate::bsf::BsfFilter;
use crate::bsf::matching_filter_names;
use crate::codec::CodecId;
use crate::codec::codec_key_framed;
use crate::codec::is_stream_key_framed;
use crate::envelope::VideoFrameEnvelope;
use crate::errors::Error;
use crate::packet::Packet;
use crate::packet::StreamInfo;
use crate::queue::FrameQueue;

verus! {

/// Diagnostic verbosity handed to the native library through the mailbox.
#[derive(Clone, Copy, Debug, PartialEq, Eq, Structural)]
pub enum FFmpegLogLevel {
    Debug,
    Info,
    Warn,
    Error,
    Trace,
    Quiet,
    Fatal,
    Panic,
}

/// What became of one envelope under the enqueue policy.
#[derive(Clone, Copy, Debug, PartialEq, Eq, Structural)]
pub enum SendOutcome {
    /// The envelope entered the handoff queue.
    Delivered,
    /// The queue was full under the skip policy; the envelope was dropped
    /// and the session's skip counter grew by one.
    Skipped,
}

/// The worker's per-stream state, built during initialization.
pub struct WorkerState {
    /// The discovered video stream.
    pub stream: StreamInfo,
    /// Whether the stream's codec is inter-frame coded.
    pub key_framed: bool,
    /// The active packet-transform chain, in declaration order.
    pub filters: Vec<BitStreamFilterContext>,
    /// The keyframe gate: while set, packets are discarded.
    pub skip_until_first_key_frame: bool,
    /// The raw-pixel codec marker placed on decoded envelopes.
    pub raw_codec_name: String,
    /// The pixel-format name placed on decoded envelopes.
    pub decoded_pixel_format: String,
}

impl WorkerState {
    /// The worker state's structural invariants.
    pub open spec fn well_formed(self) -> bool {
        &&& self.stream.well_formed()
        &&& self.stream.supported()
        &&& self.key_framed == codec_key_framed(self.stream.codec)
        &&& self.raw_codec_name@ == "rawvideo"@
        &&& self.decoded_pixel_format@ == "RGB24"@
    }
}

/// One ingestion session bound to one URI.
pub struct FFMpegSource {
    /// The input's location, handed verbatim to the demuxer.
    pub uri: String,
    /// Demuxer options, handed verbatim to the demuxer.
    pub params: Vec<(String, String)>,
    /// Whether packets are decoded into raw frames.
    pub decode: bool,
    /// Whether raw-video streams are decoded even when `decode` is off.
    pub autoconvert_raw_formats_to_rgb24: bool,
    /// The enqueue policy: block on a full queue, or drop and count.
    pub block_if_queue_full: bool,
    /// How long the open path waits for the worker's readiness signal.
    pub init_timeout_ms: u64,
    /// The exit signal: set by the controller or by the worker on a fatal
    /// error; once set it never reverts.
    pub exit_signal: bool,
    /// Single-slot log-level mailbox; a later set overwrites an undrained
    /// earlier one.
    pub log_level_mailbox: Option<FFmpegLogLevel>,
    /// The bounded handoff queue of frame envelopes.
    pub queue: FrameQueue,
    /// The configured packet-transform declarations.
    pub bsf_filters: Vec<BsfFilter>,
    /// The worker's stream state; `None` until initialization succeeds.
    pub worker: Option<WorkerState>,
    /// Frames dropped so far because the queue was full under the skip
    /// policy; non-decreasing for the session's life.
    pub queue_full_skipped_count: i64,
    /// Every envelope that entered the queue, in emission order.
    pub emitted: Ghost<Seq<VideoFrameEnvelope>>,
    /// Every envelope handed to a consumer, in delivery order.
    pub taken: Ghost<Seq<VideoFrameEnvelope>>,
}

/// A session with its exit signal set and everything else as it was.
pub open spec fn spec_stop(s: FFMpegSource) -> FFMpegSource {
    FFMpegSource { exit_signal: true, ..s }
}

/// The keyframe gate's next armed state: a key-framed codec disarms on the
/// first sync point; any other codec disarms on the very first packet.
pub open spec fn spec_gate_after(armed: bool, key_framed: bool, is_key: bool) -> bool {
    if key_framed {
        armed && !is_key
    } else {
        false
    }
}

/// The worker state after one step of the keyframe gate.
pub open spec fn gate_worker(s: FFMpegSource, is_key: bool) -> WorkerState
    recommends
        s.worker is Some,
{
    let w = s.worker.unwrap();
    WorkerState {
        skip_until_first_key_frame: spec_gate_after(
            w.skip_until_first_key_frame,
            w.key_framed,
            is_key,
        ),
        ..w
    }
}

/// Whether the packet that drove the last gate step passes through.
pub open spec fn gate_admits(s: FFMpegSource, is_key: bool) -> bool
    recommends
        s.worker is Some,
{
    !gate_worker(s, is_key).skip_until_first_key_frame
}

/// Whether the worker decodes packets: either decoding is on, or raw-video
/// auto-conversion is on and the stream's codec is raw video.
pub open spec fn spec_should_decode(s: FFMpegSource) -> bool
    recommends
        s.worker is Some,
{
    s.decode || (s.autoconvert_raw_formats_to_rgb24 && s.worker.unwrap().stream.codec
        == CodecId::RawVideo)
}

/// The processed timestamp actually stamped: never before the received one.
pub open spec fn clamp_processed(received_ts: i64, processed_ts: i64) -> i64 {
    if processed_ts >= received_ts {
        processed_ts
    } else {
        received_ts
    }
}

/// The envelope built for one frame: metadata from the worker's stream,
/// payload and dimensions from the frame, timestamps bracketed, queue
/// occupancy and skip count as observed at send time.
pub open spec fn spec_envelope(
    w: WorkerState,
    decoded: bool,
    payload: Vec<u8>,
    width: i64,
    height: i64,
    key: bool,
    pts: Option<i64>,
    dts: Option<i64>,
    corrupted: bool,
    received_ts: i64,
    processed_ts: i64,
    queue_len: i64,
    skipped: i64,
) -> VideoFrameEnvelope {
    VideoFrameEnvelope {
        codec: if decoded {
            w.raw_codec_name
        } else {
            w.stream.codec_name
        },
        frame_width: width,
        frame_height: height,
        key_frame: key,
        time_base: (w.stream.time_base_num, w.stream.time_base_den),
        pts,
        dts,
        corrupted,
        fps: w.stream.fps,
        avg_fps: w.stream.avg_fps,
        pixel_format: if decoded {
            w.decoded_pixel_format
        } else {
            w.stream.pixel_format
        },
        frame_received_ts: received_ts,
        frame_processed_ts: clamp_processed(received_ts, processed_ts),
        queue_len,
        queue_full_skipped_count: skipped,
        payload,
    }
}

/// How many of `n` envelopes the enqueue policy delivers when the queue
/// holds `len0` of `cap` slots: all of them under the block policy, and
/// only what spare capacity allows under the skip policy.
pub open spec fn deliver_count(block: bool, cap: int, len0: int, n: int) -> int {
    if block {
        n
    } else if cap - len0 >= n {
        n
    } else if cap - len0 >= 0 {
        cap - len0
    } else {
        0
    }
}

/// The frame tuples one admitted packet yields: the decoder's output when
/// decoding, else the packet's own bytes with the stream's dimensions.
pub open spec fn frames_of(
    packet: Packet,
    decoded_frames: Option<Vec<(Vec<u8>, i64, i64)>>,
    stream: StreamInfo,
) -> Seq<(Vec<u8>, i64, i64)> {
    match decoded_frames {
        Some(fs) => fs@,
        None => seq![(packet.payload, stream.width, stream.height)],
    }
}

/// How many frames one packet yields: the decoder's output count when
/// decoding, else one pass-through frame.
pub open spec fn frame_total(decoded_frames: Option<Vec<(Vec<u8>, i64, i64)>>) -> int {
    match decoded_frames {
        Some(fs) => fs@.len() as int,
        None => 1,
    }
}

/// The envelopes that reach the queue when `d` of the given frames are
/// delivered: the `j`-th carries the occupancy `len0 + j` and the skip
/// count `c0` observed at its send.
pub open spec fn emitted_delta(
    w: WorkerState,
    decoded: bool,
    frames: Seq<(Vec<u8>, i64, i64)>,
    key: bool,
    pts: Option<i64>,
    dts: Option<i64>,
    corrupted: bool,
    received_ts: i64,
    processed_ts: i64,
    len0: int,
    c0: i64,
    d: int,
) -> Seq<VideoFrameEnvelope>
    recommends
        0 <= d <= frames.len(),
{
    Seq::new(
        d as nat,
        |j: int|
            spec_envelope(
                w,
                decoded,
                frames[j].0,
                frames[j].1,
                frames[j].2,
                key,
                pts,
                dts,
                corrupted,
                received_ts,
                processed_ts,
                (len0 + j) as i64,
                c0,
            ),
    )
}

/// The per-frame outcomes when the first `d` of `n` frames are delivered
/// and the rest are skipped.
pub open spec fn outcome_seq(n: int, d: int) -> Seq<SendOutcome>
    recommends
        0 <= d <= n,
{
    Seq::new(
        n as nat,
        |j: int|
            if j < d {
                SendOutcome::Delivered
            } else {
                SendOutcome::Skipped
            },
    )
}

/// The loop-level state the streaming run threads from packet to packet:
/// the keyframe gate, the queue's contents, the skip counter, the emission
/// log, and whether a disconnected queue has halted the run.
pub struct RunState {
    /// The keyframe gate's armed flag.
    pub armed: bool,
    /// The handoff queue's contents.
    pub queue: Seq<VideoFrameEnvelope>,
    /// Frames dropped so far under the skip policy.
    pub skipped: int,
    /// The emission log.
    pub emitted: Seq<VideoFrameEnvelope>,
    /// Whether a send against a disconnected queue ended the run.
    pub halted: bool,
}

/// One packet's effect on the streaming run, in the pass-through
/// configuration: packets of other streams change nothing; a video packet
/// drives the keyframe gate; an admitted packet is enveloped and offered to the
/// queue under the enqueue policy; an admitted packet against a
/// disconnected queue halts the run.
pub open spec fn run_step(
    w: WorkerState,
    block: bool,
    cap: int,
    closed: bool,
    received_ts: i64,
    processed_ts: i64,
    st: RunState,
    p: Packet,
) -> RunState {
    if st.halted {
        st
    } else if p.stream_index != w.stream.index {
        st
    } else {
        let armed2 = spec_gate_after(st.armed, w.key_framed, p.key);
        if armed2 {
            RunState { armed: armed2, ..st }
        } else if closed {
            RunState { armed: armed2, halted: true, ..st }
        } else {
            let env = spec_envelope(
                w,
                false,
                p.payload,
                w.stream.width,
                w.stream.height,
                p.key,
                p.pts,
                p.dts,
                p.corrupt,
                received_ts,
                processed_ts,
                st.queue.len() as i64,
                st.skipped as i64,
            );
            if block || st.queue.len() < cap {
                RunState {
                    armed: armed2,
                    queue: st.queue.push(env),
                    emitted: st.emitted.push(env),
                    ..st
                }
            } else {
                RunState { armed: armed2, skipped: st.skipped + 1, ..st }
            }
        }
    }
}

/// The streaming run over a whole packet batch: the fold of `run_step`.
pub open spec fn run_fold(
    w: WorkerState,
    block: bool,
    cap: int,
    closed: bool,
    received_ts: i64,
    processed_ts: i64,
    st: RunState,
    packets: Seq<Packet>,
) -> RunState
    decreases packets.len(),
{
    if packets.len() == 0 {
        st
    } else {
        run_step(
            w,
            block,
            cap,
            closed,
            received_ts,
            processed_ts,
            run_fold(w, block, cap, closed, received_ts, processed_ts, st, packets.drop_last()),
            packets.last(),
        )
    }
}

/// The run over a concatenation is the run over the first part, continued
/// over the second.
pub proof fn lemma_run_fold_app(
    w: WorkerState,
    block: bool,
    cap: int,
    closed: bool,
    received_ts: i64,
    processed_ts: i64,
    st: RunState,
    a: Seq<Packet>,
    b: Seq<Packet>,
)
    ensures
        run_fold(w, block, cap, closed, received_ts, processed_ts, st, a + b) == run_fold(
            w,
            block,
            cap,
            closed,
            received_ts,
            processed_ts,
            run_fold(w, block, cap, closed, received_ts, processed_ts, st, a),
            b,
        ),
    decreases b.len(),
{
    if b.len() == 0 {
        assert(a + b =~= a);
    } else {
        lemma_run_fold_app(w, block, cap, closed, received_ts, processed_ts, st, a, b.drop_last());
        assert((a + b).drop_last() =~= a + b.drop_last());
        assert((a + b).last() == b.last());
    }
}

/// A halted run stays halted: the remaining packets change nothing.
pub proof fn lemma_run_fold_halted(
    w: WorkerState,
    block: bool,
    cap: int,
    closed: bool,
    received_ts: i64,
    processed_ts: i64,
    st: RunState,
    packets: Seq<Packet>,
)
    requires
        st.halted,
    ensures
        run_fold(w, block, cap, closed, received_ts, processed_ts, st, packets) == st,
    decreases packets.len(),
{
    if packets.len() > 0 {
        lemma_run_fold_halted(
            w,
            block,
            cap,
            closed,
            received_ts,
            processed_ts,
            st,
            packets.drop_last(),
        );
    }
}

impl FFMpegSource {
    /// The session invariant.
    ///
    /// Beyond per-field well-formedness it states the delivery discipline:
    /// the consumer's log followed by the queue's contents is exactly the
    /// emission log, every emitted envelope is well formed, and the skip
    /// counts embedded in emitted envelopes are non-decreasing and bounded
    /// by the session's counter.
    pub open spec fn well_formed(self) -> bool {
        &&& self.queue.well_formed()
        &&& self.queue.spec_capacity() <= i64::MAX
        &&& self.queue_full_skipped_count >= 0
        &&& (self.block_if_queue_full ==> self.queue_full_skipped_count == 0)
        &&& (!self.block_if_queue_full ==> self.queue@.len() <= self.queue.spec_capacity())
        &&& (self.worker matches Some(w) ==> w.well_formed())
        &&& self.taken@ + self.queue@ == self.emitted@
        &&& (forall|i: int, j: int|
            0 <= i <= j < self.emitted@.len() ==> (#[trigger] self.emitted@[i]).queue_full_skipped_count
                <= (#[trigger] self.emitted@[j]).queue_full_skipped_count)
        &&& (forall|i: int|
            0 <= i < self.emitted@.len() ==> (#[trigger] self.emitted@[i]).queue_full_skipped_count
                <= self.queue_full_skipped_count)
        &&& (forall|i: int|
            0 <= i < self.emitted@.len() ==> (#[trigger] self.emitted@[i]).well_formed())
    }

    /// A fresh session: running, worker not yet initialized, mailbox primed
    /// with the configured log level, queue empty.
    pub fn new(
        uri: String,
        params: Vec<(String, String)>,
        queue_len: i64,
        decode: bool,
        autoconvert_raw_formats_to_rgb24: bool,
        block_if_queue_full: bool,
        init_timeout_ms: u64,
        ffmpeg_log_level: FFmpegLogLevel,
        bsf_filters: Vec<BsfFilter>,
    ) -> (s: FFMpegSource)
        requires
            1 <= queue_len <= usize::MAX,
        ensures
            s.well_formed(),
            s.uri == uri,
            s.params == params,
            s.decode == decode,
            s.autoconvert_raw_formats_to_rgb24 == autoconvert_raw_formats_to_rgb24,
            s.block_if_queue_full == block_if_queue_full,
            s.init_timeout_ms == init_timeout_ms,
            !s.exit_signal,
            s.log_level_mailbox == Some(ffmpeg_log_level),
            s.queue@ == Seq::<VideoFrameEnvelope>::empty(),
            s.queue.spec_capacity() == queue_len,
            !s.queue.spec_closed(),
            s.bsf_filters == bsf_filters,
            s.worker is None,
            s.queue_full_skipped_count == 0,
            s.emitted@ == Seq::<VideoFrameEnvelope>::empty(),
            s.taken@ == Seq::<VideoFrameEnvelope>::empty(),
    {
        let cap: usize = queue_len as usize;
        FFMpegSource {
            uri,
            params,
            decode,
            autoconvert_raw_formats_to_rgb24,
            block_if_queue_full,
            init_timeout_ms,
            exit_signal: false,
            log_level_mailbox: Some(ffmpeg_log_level),
            queue: FrameQueue::new(cap),
            bsf_filters,
            worker: None,
            queue_full_skipped_count: 0,
            emitted: Ghost(Seq::empty()),
            taken: Ghost(Seq::empty()),
        }
    }

    /// Sets the exit signal; idempotent and never blocking. The worker
    /// observes it at the top of its next packet iteration.
    pub fn stop(&mut self)
        ensures
            *final(self) == spec_stop(*old(self)),
    {
        self.exit_signal = true;
    }

    /// The exit signal's negation; advisory, may be stale by one iteration.
    pub fn is_running(&self) -> (r: bool)
        ensures
            r == !self.exit_signal,
    {
        !self.exit_signal
    }

    /// Overwrites the log-level mailbox; an undrained earlier level is
    /// lost. Takes effect on the worker's next packet iteration.
    pub fn log_level(&mut self, ffmpeg_log_level: FFmpegLogLevel)
        ensures
            *final(self) == (FFMpegSource {
                log_level_mailbox: Some(ffmpeg_log_level),
                ..*old(self)
            }),
    {
        self.log_level_mailbox = Some(ffmpeg_log_level);
    }

    /// Drains the mailbox: returns the pending level, if any, and clears
    /// the slot. The worker calls this once per packet iteration.
    pub fn take_log_level(&mut self) -> (r: Option<FFmpegLogLevel>)
        ensures
            r == old(self).log_level_mailbox,
            *final(self) == (FFMpegSource { log_level_mailbox: None, ..*old(self) }),
    {
        let r = self.log_level_mailbox;
        self.log_level_mailbox = None;
        r
    }

    /// The worker's initialization step, after stream discovery.
    ///
    /// No stream means no video to work with; an unrecognized codec is
    /// unsupported. Either failure is fatal and sets the exit signal before
    /// any readiness is signalled. On success the keyframe gate is armed
    /// and the packet-transform chain holds one stage per declaration whose
    /// codec matches the stream's, in declaration order.
    pub fn init_worker(&mut self, stream: Option<StreamInfo>) -> (r: Result<(), Error>)
        requires
            old(self).well_formed(),
            old(self).worker is None,
            stream matches Some(info) ==> info.well_formed(),
        ensures
            final(self).well_formed(),
            final(self).uri == old(self).uri,
            final(self).params == old(self).params,
            final(self).decode == old(self).decode,
            final(self).autoconvert_raw_formats_to_rgb24 == old(self).autoconvert_raw_formats_to_rgb24,
            final(self).block_if_queue_full == old(self).block_if_queue_full,
            final(self).init_timeout_ms == old(self).init_timeout_ms,
            final(self).log_level_mailbox == old(self).log_level_mailbox,
            final(self).queue == old(self).queue,
            final(self).bsf_filters == old(self).bsf_filters,
            final(self).queue_full_skipped_count == old(self).queue_full_skipped_count,
            final(self).emitted == old(self).emitted,
            final(self).taken == old(self).taken,
            stream is None ==> (r matches Err(e) && e is NoVideoStream && final(self).exit_signal
                && final(self).worker is None),
            stream matches Some(info) ==> (!info.supported() ==> (r matches Err(e) && (
            e matches Error::UnsupportedCodec(c) && c@ == info.codec_name@) && final(self).exit_signal && final(self).worker is None)),
            stream matches Some(info) ==> (info.supported() ==> (r is Ok && final(self).exit_signal == old(self).exit_signal && (final(self).worker matches Some(w) && {
                &&& w.stream == info
                &&& w.key_framed == codec_key_framed(info.codec)
                &&& w.skip_until_first_key_frame
                &&& w.filters@.map_values(|c: BitStreamFilterContext| c.spec_name())
                    == matching_filter_names(old(self).bsf_filters@, info.codec_name@)
            }))),
    {
        match stream {
            None => {
                self.exit_signal = true;
                Err(Error::NoVideoStream)
            },
            Some(info) => {
                match is_stream_key_framed(info.codec) {
                    Err(_) => {
                        self.exit_signal = true;
                        Err(Error::UnsupportedCodec(info.codec_name.clone()))
                    },
                    Ok(key_framed) => {
                        let filters = crate::bsf::select_filters(
                            &self.bsf_filters,
                            &info.codec_name,
                        );
                        self.worker = Some(
                            WorkerState {
                                stream: info,
                                key_framed,
                                filters,
                                skip_until_first_key_frame: true,
                                raw_codec_name: "rawvideo".to_owned(),
                                decoded_pixel_format: "RGB24".to_owned(),
                            },
                        );
                        Ok(())
                    },
                }
            },
        }
    }

    /// The keyframe gate's step for one post-transform packet. On a
    /// key-framed stream, packets pass only from the first sync point on;
    /// on any other stream every packet passes, the first included. Once
    /// cleared, it is never re-armed for the life of the session.
    pub fn gate_admit(&mut self, is_key: bool) -> (admitted: bool)
        requires
            old(self).well_formed(),
            old(self).worker is Some,
        ensures
            final(self).well_formed(),
            *final(self) == (FFMpegSource {
                worker: Some(gate_worker(*old(self), is_key)),
                ..*old(self)
            }),
            admitted == gate_admits(*old(self), is_key),
    {
        let mut admitted = false;
        match &mut self.worker {
            Some(w) => {
                if w.key_framed {
                    if is_key {
                        w.skip_until_first_key_frame = false;
                    }
                } else {
                    w.skip_until_first_key_frame = false;
                }
                admitted = !w.skip_until_first_key_frame;
            },
            None => {},
        }
        admitted
    }

    /// Whether the worker decodes packets: decoding is on, or raw-video
    /// auto-conversion is on and the stream's codec is raw video.
    pub fn should_decode(&self) -> (r: bool)
        requires
            self.worker is Some,
        ensures
            r == spec_should_decode(*self),
    {
        let w = self.worker.as_ref().unwrap();
        self.decode || (self.autoconvert_raw_formats_to_rgb24 && w.stream.codec
            == CodecId::RawVideo)
    }

    /// Builds the envelope for one frame: codec and pixel-format names
    /// according to whether the payload was decoded, stream metadata from
    /// the worker's stream, the processed timestamp clamped so it never
    /// precedes the received one, and the queue occupancy and skip count
    /// observed now.
    pub fn make_envelope(
        &self,
        payload: Vec<u8>,
        frame_width: i64,
        frame_height: i64,
        key_frame: bool,
        pts: Option<i64>,
        dts: Option<i64>,
        corrupted: bool,
        frame_received_ts: i64,
        frame_processed_ts: i64,
    ) -> (e: VideoFrameEnvelope)
        requires
            self.well_formed(),
            self.worker is Some,
            self.queue@.len() <= i64::MAX,
        ensures
            e == spec_envelope(
                self.worker.unwrap(),
                spec_should_decode(*self),
                payload,
                frame_width,
                frame_height,
                key_frame,
                pts,
                dts,
                corrupted,
                frame_received_ts,
                frame_processed_ts,
                self.queue@.len() as i64,
                self.queue_full_skipped_count,
            ),
            frame_width >= 1 && frame_height >= 1 ==> e.well_formed(),
    {
        let decoded = self.should_decode();
        let qlen = self.queue.len();
        let w = self.worker.as_ref().unwrap();
        let codec = if decoded {
            w.raw_codec_name.clone()
        } else {
            w.stream.codec_name.clone()
        };
        let pixel_format = if decoded {
            w.decoded_pixel_format.clone()
        } else {
            w.stream.pixel_format.clone()
        };
        let processed = if frame_processed_ts >= frame_received_ts {
            frame_processed_ts
        } else {
            frame_received_ts
        };
        VideoFrameEnvelope {
            codec,
            frame_width,
            frame_height,
            key_frame,
            time_base: (w.stream.time_base_num, w.stream.time_base_den),
            pts,
            dts,
            corrupted,
            fps: w.stream.fps.clone(),
            avg_fps: w.stream.avg_fps.clone(),
            pixel_format,
            frame_received_ts,
            frame_processed_ts: processed,
            queue_len: qlen as i64,
            queue_full_skipped_count: self.queue_full_skipped_count,
            payload,
        }
    }

    /// Applies the enqueue policy to one envelope. A disconnected queue is
    /// fatal in either mode. Otherwise the block policy always delivers,
    /// and the skip policy delivers while there is spare capacity and else
    /// drops the envelope and counts it.
    pub fn send_envelope(&mut self, e: VideoFrameEnvelope) -> (r: Result<SendOutcome, Error>)
        requires
            old(self).well_formed(),
            e.well_formed(),
            e.queue_full_skipped_count == old(self).queue_full_skipped_count,
            old(self).queue_full_skipped_count < i64::MAX,
        ensures
            final(self).well_formed(),
            final(self).uri == old(self).uri,
            final(self).params == old(self).params,
            final(self).decode == old(self).decode,
            final(self).autoconvert_raw_formats_to_rgb24 == old(self).autoconvert_raw_formats_to_rgb24,
            final(self).block_if_queue_full == old(self).block_if_queue_full,
            final(self).init_timeout_ms == old(self).init_timeout_ms,
            final(self).log_level_mailbox == old(self).log_level_mailbox,
            final(self).bsf_filters == old(self).bsf_filters,
            final(self).worker == old(self).worker,
            final(self).taken == old(self).taken,
            final(self).queue.spec_capacity() == old(self).queue.spec_capacity(),
            final(self).queue.spec_closed() == old(self).queue.spec_closed(),
            old(self).queue.spec_closed() ==> (r matches Err(err) && err is Closed && final(self).exit_signal && final(self).queue@ == old(self).queue@ && final(self).emitted == old(self).emitted && final(self).queue_full_skipped_count == old(self).queue_full_skipped_count),
            (!old(self).queue.spec_closed() && (old(self).block_if_queue_full || !old(self).queue.spec_full())) ==> (r == Ok::<SendOutcome, Error>(SendOutcome::Delivered)
                && final(self).queue@ == old(self).queue@.push(e) && final(self).emitted@ == old(self).emitted@.push(e) && final(self).queue_full_skipped_count == old(self).queue_full_skipped_count && final(self).exit_signal == old(self).exit_signal),
            (!old(self).queue.spec_closed() && !old(self).block_if_queue_full && old(self).queue.spec_full()) ==> (r == Ok::<SendOutcome, Error>(SendOutcome::Skipped) && final(self).queue@ == old(self).queue@ && final(self).emitted == old(self).emitted && final(self).queue_full_skipped_count == old(self).queue_full_skipped_count + 1 && final(self).exit_signal == old(self).exit_signal),
    {
        if self.queue.is_closed() {
            self.exit_signal = true;
            return Err(Error::Closed);
        }
        if self.block_if_queue_full || !self.queue.is_full() {
            let ghost ge = e;
            self.queue.push(e);
            proof {
                self.emitted@ = self.emitted@.push(ge);
                assert(self.taken@ + self.queue@ =~= self.emitted@);
            }
            Ok(SendOutcome::Delivered)
        } else {
            self.queue_full_skipped_count = self.queue_full_skipped_count + 1;
            Ok(SendOutcome::Skipped)
        }
    }

    /// The worker's whole step for one post-transform packet.
    ///
    /// A packet of another stream yields nothing. A video packet first
    /// passes the keyframe gate; a gated packet is discarded undecoded.
    /// An admitted packet yields its frames — the decoder's output when
    /// the session decodes (the caller runs the native decode and hands
    /// the frames in), else the packet's own bytes with the stream's
    /// dimensions — and every frame is enveloped and offered to the queue
    /// in order under the enqueue policy. A disconnected queue is fatal.
    pub fn handle_packet(
        &mut self,
        packet: Packet,
        decoded_frames: Option<Vec<(Vec<u8>, i64, i64)>>,
        frame_received_ts: i64,
        frame_processed_ts: i64,
    ) -> (r: Result<Vec<SendOutcome>, Error>)
        requires
            old(self).well_formed(),
            old(self).worker is Some,
            decoded_frames is Some <==> spec_should_decode(*old(self)),
            decoded_frames matches Some(fs) ==> (forall|k: int|
                0 <= k < fs@.len() ==> (#[trigger] fs@[k]).1 >= 1 && fs@[k].2 >= 1),
            old(self).queue_full_skipped_count + frame_total(decoded_frames) <= i64::MAX,
            old(self).queue@.len() + frame_total(decoded_frames) <= i64::MAX,
        ensures
            final(self).well_formed(),
            final(self).uri == old(self).uri,
            final(self).params == old(self).params,
            final(self).decode == old(self).decode,
            final(self).autoconvert_raw_formats_to_rgb24 == old(
                self,
            ).autoconvert_raw_formats_to_rgb24,
            final(self).block_if_queue_full == old(self).block_if_queue_full,
            final(self).init_timeout_ms == old(self).init_timeout_ms,
            final(self).log_level_mailbox == old(self).log_level_mailbox,
            final(self).bsf_filters == old(self).bsf_filters,
            final(self).taken == old(self).taken,
            final(self).queue.spec_capacity() == old(self).queue.spec_capacity(),
            final(self).queue.spec_closed() == old(self).queue.spec_closed(),
            packet.stream_index != old(self).worker.unwrap().stream.index ==> (*final(self)
                == *old(self) && (r matches Ok(outs) && outs@ == Seq::<SendOutcome>::empty())),
            packet.stream_index == old(self).worker.unwrap().stream.index ==> final(self).worker
                == Some(gate_worker(*old(self), packet.key)),
            (packet.stream_index == old(self).worker.unwrap().stream.index && !gate_admits(
                *old(self),
                packet.key,
            )) ==> ((r matches Ok(outs) && outs@ == Seq::<SendOutcome>::empty()) && final(self).queue@ == old(self).queue@ && final(self).emitted == old(self).emitted && final(self).queue_full_skipped_count == old(self).queue_full_skipped_count && final(self).exit_signal == old(self).exit_signal),
            (packet.stream_index == old(self).worker.unwrap().stream.index && gate_admits(
                *old(self),
                packet.key,
            ) && old(self).queue.spec_closed()) ==> ((r matches Err(e) && e is Closed) && final(self).exit_signal && final(self).queue@ == old(self).queue@ && final(self).emitted == old(
                self,
            ).emitted && final(self).queue_full_skipped_count == old(
                self,
            ).queue_full_skipped_count),
            (packet.stream_index == old(self).worker.unwrap().stream.index && gate_admits(
                *old(self),
                packet.key,
            ) && !old(self).queue.spec_closed()) ==> (r matches Ok(outs) && ({
                let w2 = gate_worker(*old(self), packet.key);
                let dec = spec_should_decode(*old(self));
                let frames = frames_of(packet, decoded_frames, old(self).worker.unwrap().stream);
                let n = frames.len() as int;
                let len0 = old(self).queue@.len() as int;
                let cap = old(self).queue.spec_capacity();
                let c0 = old(self).queue_full_skipped_count;
                let d = deliver_count(old(self).block_if_queue_full, cap, len0, n);
                let delta = emitted_delta(
                    w2,
                    dec,
                    frames,
                    packet.key,
                    packet.pts,
                    packet.dts,
                    packet.corrupt,
                    frame_received_ts,
                    frame_processed_ts,
                    len0,
                    c0,
                    d,
                );
                &&& outs@ == outcome_seq(n, d)
                &&& final(self).queue@ == old(self).queue@ + delta
                &&& final(self).emitted@ == old(self).emitted@ + delta
                &&& final(self).queue_full_skipped_count == c0 + (n - d)
                &&& final(self).exit_signal == old(self).exit_signal
            })),
    {
        let ghost gpacket = packet;
        let ghost gdf = decoded_frames;
        let stream_index = self.worker.as_ref().unwrap().stream.index;
        if packet.stream_index != stream_index {
            return Ok(Vec::new());
        }
        let admitted = self.gate_admit(packet.key);
        if !admitted {
            return Ok(Vec::new());
        }
        if self.queue.is_closed() {
            self.exit_signal = true;
            return Err(Error::Closed);
        }
        let decoded = self.should_decode();

        let ghost w2 = self.worker.unwrap();
        let ghost q0 = self.queue@;
        let ghost em0 = self.emitted@;
        let ghost len0 = self.queue@.len() as int;
        let ghost cap = self.queue.spec_capacity();
        let ghost c0 = self.queue_full_skipped_count;
        let ghost e0 = self.exit_signal;
        let ghost frames = frames_of(gpacket, gdf, old(self).worker.unwrap().stream);

        let sw = self.worker.as_ref().unwrap().stream.width;
        let sh = self.worker.as_ref().unwrap().stream.height;
        let pkey = packet.key;
        let ppts = packet.pts;
        let pdts = packet.dts;
        let pcorrupt = packet.corrupt;
        let mut rest: Vec<(Vec<u8>, i64, i64)>;
        match decoded_frames {
            Some(fs) => {
                rest = fs;
            },
            None => {
                rest = Vec::new();
                rest.push((packet.payload, sw, sh));
            },
        }
        proof {
            assert(rest@ =~= frames);
        }

        let n = rest.len();
        let mut outcomes: Vec<SendOutcome> = Vec::new();
        while rest.len() > 0
            invariant
                self.well_formed(),
                self.worker == Some(w2),
                w2.well_formed(),
                self.uri == old(self).uri,
                self.params == old(self).params,
                self.decode == old(self).decode,
                self.autoconvert_raw_formats_to_rgb24 == old(self).autoconvert_raw_formats_to_rgb24,
                self.block_if_queue_full == old(self).block_if_queue_full,
                self.init_timeout_ms == old(self).init_timeout_ms,
                self.log_level_mailbox == old(self).log_level_mailbox,
                self.bsf_filters == old(self).bsf_filters,
                self.taken == old(self).taken,
                self.queue.spec_capacity() == cap,
                !self.queue.spec_closed(),
                self.exit_signal == e0,
                decoded == spec_should_decode(*self),
                n == frames.len(),
                len0 == q0.len(),
                len0 + n <= i64::MAX,
                c0 + n <= i64::MAX,
                0 <= c0,
                outcomes@.len() + rest@.len() == n,
                rest@ == frames.subrange(outcomes@.len() as int, n as int),
                forall|k: int| 0 <= k < n ==> (#[trigger] frames[k]).1 >= 1 && frames[k].2 >= 1,
                self.queue@ == q0 + emitted_delta(
                    w2,
                    decoded,
                    frames,
                    gpacket.key,
                    gpacket.pts,
                    gpacket.dts,
                    gpacket.corrupt,
                    frame_received_ts,
                    frame_processed_ts,
                    len0,
                    c0,
                    deliver_count(self.block_if_queue_full, cap, len0, outcomes@.len() as int),
                ),
                self.emitted@ == em0 + emitted_delta(
                    w2,
                    decoded,
                    frames,
                    gpacket.key,
                    gpacket.pts,
                    gpacket.dts,
                    gpacket.corrupt,
                    frame_received_ts,
                    frame_processed_ts,
                    len0,
                    c0,
                    deliver_count(self.block_if_queue_full, cap, len0, outcomes@.len() as int),
                ),
                self.queue_full_skipped_count == c0 + (outcomes@.len() - deliver_count(
                    self.block_if_queue_full,
                    cap,
                    len0,
                    outcomes@.len() as int,
                )),
                outcomes@ == outcome_seq(
                    outcomes@.len() as int,
                    deliver_count(self.block_if_queue_full, cap, len0, outcomes@.len() as int),
                ),
                pkey == gpacket.key,
                ppts == gpacket.pts,
                pdts == gpacket.dts,
                pcorrupt == gpacket.corrupt,
            decreases rest@.len(),
        {
            let ghost k = outcomes@.len() as int;
            let ghost dk = deliver_count(self.block_if_queue_full, cap, len0, k);
            let f = rest.remove(0);
            proof {
                assert(frames[k] == f);
                assert(0 <= dk <= k);
                assert(self.queue@.len() == len0 + dk);
            }
            let e = self.make_envelope(
                f.0,
                f.1,
                f.2,
                pkey,
                ppts,
                pdts,
                pcorrupt,
                frame_received_ts,
                frame_processed_ts,
            );
            let ghost genv = e;
            let res = self.send_envelope(e);
            match res {
                Ok(o) => {
                    outcomes.push(o);
                },
                Err(err) => {
                    return Err(err);
                },
            }
            proof {
                let dk2 = deliver_count(self.block_if_queue_full, cap, len0, k + 1);
                let delta_old = emitted_delta(
                    w2,
                    decoded,
                    frames,
                    gpacket.key,
                    gpacket.pts,
                    gpacket.dts,
                    gpacket.corrupt,
                    frame_received_ts,
                    frame_processed_ts,
                    len0,
                    c0,
                    dk,
                );
                if self.block_if_queue_full || len0 + dk < cap {
                    assert(dk == k);
                    assert(dk2 == k + 1);
                    assert(genv == spec_envelope(
                        w2,
                        decoded,
                        frames[k].0,
                        frames[k].1,
                        frames[k].2,
                        gpacket.key,
                        gpacket.pts,
                        gpacket.dts,
                        gpacket.corrupt,
                        frame_received_ts,
                        frame_processed_ts,
                        (len0 + k) as i64,
                        c0,
                    ));
                    assert(self.queue@ == (q0 + delta_old).push(genv));
                    assert(self.emitted@ == (em0 + delta_old).push(genv));
                } else {
                    assert(dk2 == dk);
                }
                assert(rest@ =~= frames.subrange(outcomes@.len() as int, n as int));
                assert(self.queue@ =~= q0 + emitted_delta(
                    w2,
                    decoded,
                    frames,
                    gpacket.key,
                    gpacket.pts,
                    gpacket.dts,
                    gpacket.corrupt,
                    frame_received_ts,
                    frame_processed_ts,
                    len0,
                    c0,
                    dk2,
                ));
                assert(self.emitted@ =~= em0 + emitted_delta(
                    w2,
                    decoded,
                    frames,
                    gpacket.key,
                    gpacket.pts,
                    gpacket.dts,
                    gpacket.corrupt,
                    frame_received_ts,
                    frame_processed_ts,
                    len0,
                    c0,
                    dk2,
                ));
                assert(outcomes@ =~= outcome_seq(k + 1, dk2));
            }
        }
        proof {
            assert(frames.subrange(n as int, n as int) =~= Seq::<(Vec<u8>, i64, i64)>::empty());
        }
        Ok(outcomes)
    }

    /// The worker's streaming loop over a batch of demultiplexed packets,
    /// in the pass-through configuration.
    ///
    /// A set exit signal drains the run cleanly before the first packet.
    /// Otherwise the run is exactly the fold of the per-packet step, so
    /// envelopes enter the queue in packet arrival order, with no
    /// reordering; a send against a disconnected queue halts the run as a
    /// fatal error, leaving the remaining packets unprocessed. The driving
    /// loop drains the log-level mailbox and re-checks the exit signal
    /// between batches.
    #[verifier::loop_isolation(false)]
    pub fn handle_packets(
        &mut self,
        packets: Vec<Packet>,
        frame_received_ts: i64,
        frame_processed_ts: i64,
    ) -> (r: Result<(), Error>)
        requires
            old(self).well_formed(),
            old(self).worker is Some,
            !spec_should_decode(*old(self)),
            old(self).queue_full_skipped_count + packets@.len() <= i64::MAX,
            old(self).queue@.len() + packets@.len() <= i64::MAX,
        ensures
            final(self).well_formed(),
            final(self).uri == old(self).uri,
            final(self).params == old(self).params,
            final(self).decode == old(self).decode,
            final(self).autoconvert_raw_formats_to_rgb24 == old(
                self,
            ).autoconvert_raw_formats_to_rgb24,
            final(self).block_if_queue_full == old(self).block_if_queue_full,
            final(self).init_timeout_ms == old(self).init_timeout_ms,
            final(self).log_level_mailbox == old(self).log_level_mailbox,
            final(self).bsf_filters == old(self).bsf_filters,
            final(self).taken == old(self).taken,
            final(self).queue.spec_capacity() == old(self).queue.spec_capacity(),
            final(self).queue.spec_closed() == old(self).queue.spec_closed(),
            old(self).exit_signal ==> (*final(self) == *old(self) && r is Ok),
            !old(self).exit_signal ==> ({
                let w0 = old(self).worker.unwrap();
                let stn = run_fold(
                    w0,
                    old(self).block_if_queue_full,
                    old(self).queue.spec_capacity(),
                    old(self).queue.spec_closed(),
                    frame_received_ts,
                    frame_processed_ts,
                    RunState {
                        armed: w0.skip_until_first_key_frame,
                        queue: old(self).queue@,
                        skipped: old(self).queue_full_skipped_count as int,
                        emitted: old(self).emitted@,
                        halted: false,
                    },
                    packets@,
                );
                &&& final(self).worker == Some(
                    WorkerState { skip_until_first_key_frame: stn.armed, ..w0 },
                )
                &&& final(self).queue@ == stn.queue
                &&& final(self).queue_full_skipped_count == stn.skipped
                &&& final(self).emitted@ == stn.emitted
                &&& final(self).exit_signal == stn.halted
                &&& (r is Ok <==> !stn.halted)
                &&& (stn.halted ==> (r matches Err(e) && e is Closed))
            }),
    {
        if !self.is_running() {
            return Ok(());
        }
        let ghost w0 = self.worker.unwrap();
        let ghost block = self.block_if_queue_full;
        let ghost cap = self.queue.spec_capacity();
        let ghost closed = self.queue.spec_closed();
        let ghost st0 = RunState {
            armed: w0.skip_until_first_key_frame,
            queue: self.queue@,
            skipped: self.queue_full_skipped_count as int,
            emitted: self.emitted@,
            halted: false,
        };
        let ghost all = packets@;
        let ghost n = all.len() as int;
        let mut rest = packets;
        proof {
            assert(all.subrange(0, n) =~= all);
        }
        while rest.len() > 0
            invariant
                self.well_formed(),
                w0.well_formed(),
                self.uri == old(self).uri,
                self.params == old(self).params,
                self.decode == old(self).decode,
                self.autoconvert_raw_formats_to_rgb24 == old(self).autoconvert_raw_formats_to_rgb24,
                self.block_if_queue_full == old(self).block_if_queue_full,
                self.init_timeout_ms == old(self).init_timeout_ms,
                self.log_level_mailbox == old(self).log_level_mailbox,
                self.bsf_filters == old(self).bsf_filters,
                self.taken == old(self).taken,
                !self.exit_signal,
                !spec_should_decode(*self),
                block == self.block_if_queue_full,
                cap == self.queue.spec_capacity(),
                closed == self.queue.spec_closed(),
                n == all.len(),
                rest@.len() <= n,
                rest@ == all.subrange(n - rest@.len(), n),
                self.queue_full_skipped_count <= st0.skipped + (n - rest@.len()),
                self.queue@.len() <= st0.queue.len() + (n - rest@.len()),
                st0.skipped + n <= i64::MAX,
                st0.queue.len() + n <= i64::MAX,
                st0.skipped >= 0,
                ({
                    let sti = run_fold(
                        w0,
                        block,
                        cap,
                        closed,
                        frame_received_ts,
                        frame_processed_ts,
                        st0,
                        all.take(n - rest@.len()),
                    );
                    &&& !sti.halted
                    &&& self.worker == Some(
                        WorkerState { skip_until_first_key_frame: sti.armed, ..w0 },
                    )
                    &&& self.queue@ == sti.queue
                    &&& self.queue_full_skipped_count == sti.skipped
                    &&& self.emitted@ == sti.emitted
                }),
            decreases rest@.len(),
        {
            let ghost k = n - rest@.len() as int;
            let ghost sti = run_fold(
                w0,
                block,
                cap,
                closed,
                frame_received_ts,
                frame_processed_ts,
                st0,
                all.take(k),
            );
            let p = rest.remove(0);
            proof {
                assert(all[k] == p);
                assert(all.take(k + 1).drop_last() =~= all.take(k));
                assert(all.take(k + 1).last() == all[k]);
                assert(rest@ =~= all.subrange(n - rest@.len(), n));
            }
            let res = self.handle_packet(p, None, frame_received_ts, frame_processed_ts);
            proof {
                let stk = run_fold(
                    w0,
                    block,
                    cap,
                    closed,
                    frame_received_ts,
                    frame_processed_ts,
                    st0,
                    all.take(k + 1),
                );
                assert(stk == run_step(
                    w0,
                    block,
                    cap,
                    closed,
                    frame_received_ts,
                    frame_processed_ts,
                    sti,
                    p,
                ));
            }
            match res {
                Ok(_) => {
                    proof {
                        let stk = run_fold(
                            w0,
                            block,
                            cap,
                            closed,
                            frame_received_ts,
                            frame_processed_ts,
                            st0,
                            all.take(k + 1),
                        );
                        if p.stream_index == w0.stream.index && !spec_gate_after(
                            sti.armed,
                            w0.key_framed,
                            p.key,
                        ) && (block || sti.queue.len() < cap) {
                            assert(self.queue@ =~= stk.queue);
                            assert(self.emitted@ =~= stk.emitted);
                        }
                    }
                },
                Err(err) => {
                    proof {
                        let stk = run_fold(
                            w0,
                            block,
                            cap,
                            closed,
                            frame_received_ts,
                            frame_processed_ts,
                            st0,
                            all.take(k + 1),
                        );
                        assert(stk.halted);
                        lemma_run_fold_app(
                            w0,
                            block,
                            cap,
                            closed,
                            frame_received_ts,
                            frame_processed_ts,
                            st0,
                            all.take(k + 1),
                            all.subrange(k + 1, n),
                        );
                        assert(all.take(k + 1) + all.subrange(k + 1, n) =~= all);
                        lemma_run_fold_halted(
                            w0,
                            block,
                            cap,
                            closed,
                            frame_received_ts,
                            frame_processed_ts,
                            stk,
                            all.subrange(k + 1, n),
                        );
                    }
                    return Err(err);
                },
            }
        }
        proof {
            assert(all.take(n) =~= all);
        }
        Ok(())
    }

    /// The consumer's receive. A stopped session fails immediately;
    /// otherwise the oldest queued envelope is handed over, an empty open
    /// queue reports a timeout (the wait itself belongs to the calling
    /// context), and an empty disconnected queue reports closure.
    pub fn video_frame(&mut self, timeout_ms: usize) -> (r: Result<VideoFrameEnvelope, Error>)
        requires
            old(self).well_formed(),
        ensures
            final(self).well_formed(),
            final(self).uri == old(self).uri,
            final(self).params == old(self).params,
            final(self).decode == old(self).decode,
            final(self).autoconvert_raw_formats_to_rgb24 == old(self).autoconvert_raw_formats_to_rgb24,
            final(self).block_if_queue_full == old(self).block_if_queue_full,
            final(self).init_timeout_ms == old(self).init_timeout_ms,
            final(self).exit_signal == old(self).exit_signal,
            final(self).log_level_mailbox == old(self).log_level_mailbox,
            final(self).bsf_filters == old(self).bsf_filters,
            final(self).worker == old(self).worker,
            final(self).queue_full_skipped_count == old(self).queue_full_skipped_count,
            final(self).emitted == old(self).emitted,
            final(self).queue.spec_capacity() == old(self).queue.spec_capacity(),
            final(self).queue.spec_closed() == old(self).queue.spec_closed(),
            old(self).exit_signal ==> (r matches Err(e) && e is NotRunning && final(self).queue@
                == old(self).queue@ && final(self).taken == old(self).taken),
            (!old(self).exit_signal && old(self).queue@.len() > 0) ==> (r matches Ok(env) && env
                == old(self).queue@[0] && final(self).queue@ == old(self).queue@.drop_first()
                && final(self).taken@ == old(self).taken@.push(old(self).queue@[0])),
            (!old(self).exit_signal && old(self).queue@.len() == 0 && !old(self).queue.spec_closed()) ==> (r matches Err(e) && e is Timeout && final(self).queue@
                == old(self).queue@ && final(self).taken == old(self).taken),
            (!old(self).exit_signal && old(self).queue@.len() == 0 && old(self).queue.spec_closed()) ==> (r matches Err(e) && e is Closed && final(self).queue@
                == old(self).queue@ && final(self).taken == old(self).taken),
    {
        let _ignored: usize = timeout_ms;
        if self.exit_signal {
            return Err(Error::NotRunning);
        }
        match self.queue.pop_front() {
            Some(env) => {
                proof {
                    self.taken@ = self.taken@.push(env);
                    assert(self.taken@ + self.queue@ =~= old(self).taken@ + old(self).queue@);
                }
                Ok(env)
            },
            None => {
                if self.queue.is_closed() {
                    Err(Error::Closed)
                } else {
                    Err(Error::Timeout)
                }
            },
        }
    }
}

} // verus!
