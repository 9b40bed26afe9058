//! Unit tests for the pipeline's parts: codec classification, envelope
//! construction, the log-level mailbox, the filter chain and the queue.

use ffmpeg_input::bsf::BitStreamFilterContext;
use ffmpeg_input::bsf::BsfFilter;
use ffmpeg_input::bsf::packets_with_metadata_of;
use ffmpeg_input::bsf::select_filters;
use ffmpeg_input::codec::CodecId;
use ffmpeg_input::codec::codec_name;
use ffmpeg_input::codec::is_stream_key_framed;
use ffmpeg_input::errors::Error;
use ffmpeg_input::packet::Packet;
use ffmpeg_input::packet::StreamInfo;
use ffmpeg_input::source::FFMpegSource;
use ffmpeg_input::source::FFmpegLogLevel;
use ffmpeg_input::source::SendOutcome;

fn mjpeg_stream() -> StreamInfo {
    StreamInfo {
        index: 2,
        codec: CodecId::Mjpeg,
        codec_name: "mjpeg".to_owned(),
        width: 320,
        height: 240,
        time_base_num: 1,
        time_base_den: 90000,
        fps: "30/1".to_owned(),
        avg_fps: "30000/1001".to_owned(),
        pixel_format: "YUVJ422P".to_owned(),
    }
}

#[test]
fn key_framed_codecs_are_classified() {
    for id in [
        CodecId::H264,
        CodecId::H265,
        CodecId::Hevc,
        CodecId::Vp9,
        CodecId::Vp8,
        CodecId::Av1,
        CodecId::Mpeg1Video,
        CodecId::Mpeg2Video,
        CodecId::Mpeg4,
        CodecId::MsMpeg4V1,
        CodecId::MsMpeg4V2,
        CodecId::MsMpeg4V3,
        CodecId::Theora,
        CodecId::Flv1,
    ] {
        assert_eq!(is_stream_key_framed(id), Ok(true));
    }
}

#[test]
fn intra_only_codecs_are_classified() {
    for id in [
        CodecId::Mjpeg,
        CodecId::Tiff,
        CodecId::Png,
        CodecId::Jpeg2000,
        CodecId::RawVideo,
    ] {
        assert_eq!(is_stream_key_framed(id), Ok(false));
    }
}

#[test]
fn unrecognized_codec_is_rejected() {
    assert_eq!(is_stream_key_framed(CodecId::Other), Err("unknown".to_owned()));
}

#[test]
fn codec_names_are_conventional() {
    assert_eq!(codec_name(CodecId::H264), "h264");
    assert_eq!(codec_name(CodecId::Hevc), "hevc");
    assert_eq!(codec_name(CodecId::H265), "hevc");
    assert_eq!(codec_name(CodecId::RawVideo), "rawvideo");
    assert_eq!(codec_name(CodecId::Mpeg2Video), "mpeg2video");
}

#[test]
fn intra_only_stream_admits_the_first_packet() {
    let mut s = FFMpegSource::new(
        "synthetic://cam".to_owned(),
        vec![("rtsp_transport".to_owned(), "tcp".to_owned())],
        8,
        false,
        false,
        false,
        10000,
        FFmpegLogLevel::Info,
        Vec::new(),
    );
    s.init_worker(Some(mjpeg_stream())).unwrap();
    let p = Packet {
        stream_index: 2,
        key: false,
        corrupt: false,
        pts: Some(900),
        dts: Some(890),
        duration: 3000,
        payload: vec![9, 9, 9],
    };
    let outs = s.handle_packet(p, None, 100, 101).unwrap();
    assert_eq!(outs, vec![SendOutcome::Delivered]);
}

#[test]
fn pass_through_envelope_carries_stream_metadata() {
    let mut s = FFMpegSource::new(
        "synthetic://cam".to_owned(),
        Vec::new(),
        8,
        false,
        false,
        false,
        10000,
        FFmpegLogLevel::Info,
        Vec::new(),
    );
    s.init_worker(Some(mjpeg_stream())).unwrap();
    let p = Packet {
        stream_index: 2,
        key: true,
        corrupt: true,
        pts: Some(12),
        dts: Some(11),
        duration: 1,
        payload: vec![5, 6, 7, 8],
    };
    s.handle_packet(p, None, 1000, 1007).unwrap();
    let e = s.video_frame(10).unwrap();
    assert_eq!(e.codec, "mjpeg");
    assert_eq!(e.pixel_format, "YUVJ422P");
    assert_eq!(e.frame_width, 320);
    assert_eq!(e.frame_height, 240);
    assert_eq!(e.time_base, (1, 90000));
    assert_eq!(e.pts, Some(12));
    assert_eq!(e.dts, Some(11));
    assert!(e.key_frame);
    assert!(e.corrupted);
    assert_eq!(e.fps, "30/1");
    assert_eq!(e.avg_fps, "30000/1001");
    assert_eq!(e.frame_received_ts, 1000);
    assert_eq!(e.frame_processed_ts, 1007);
    assert_eq!(e.queue_len, 0);
    assert_eq!(e.queue_full_skipped_count, 0);
    assert_eq!(e.payload, vec![5, 6, 7, 8]);
}

#[test]
fn decoded_envelope_carries_the_raw_pixel_marker() {
    let mut s = FFMpegSource::new(
        "synthetic://cam".to_owned(),
        Vec::new(),
        8,
        true,
        false,
        false,
        10000,
        FFmpegLogLevel::Info,
        Vec::new(),
    );
    s.init_worker(Some(mjpeg_stream())).unwrap();
    let p = Packet {
        stream_index: 2,
        key: true,
        corrupt: false,
        pts: None,
        dts: None,
        duration: 0,
        payload: vec![1],
    };
    // One packet decodes into two frames; both are enveloped in order.
    let frames = vec![(vec![10u8; 12], 2i64, 2i64), (vec![20u8; 12], 2i64, 2i64)];
    let outs = s.handle_packet(p, Some(frames), 5, 9).unwrap();
    assert_eq!(outs, vec![SendOutcome::Delivered, SendOutcome::Delivered]);
    let e1 = s.video_frame(10).unwrap();
    assert_eq!(e1.codec, "rawvideo");
    assert_eq!(e1.pixel_format, "RGB24");
    assert_eq!(e1.frame_width, 2);
    assert_eq!(e1.payload, vec![10u8; 12]);
    let e2 = s.video_frame(10).unwrap();
    assert_eq!(e2.payload, vec![20u8; 12]);
    assert_eq!(e2.queue_len, 1);
}

#[test]
fn processed_timestamp_never_precedes_received() {
    let mut s = FFMpegSource::new(
        "synthetic://cam".to_owned(),
        Vec::new(),
        8,
        false,
        false,
        false,
        10000,
        FFmpegLogLevel::Info,
        Vec::new(),
    );
    s.init_worker(Some(mjpeg_stream())).unwrap();
    let p = Packet {
        stream_index: 2,
        key: true,
        corrupt: false,
        pts: None,
        dts: None,
        duration: 0,
        payload: vec![1],
    };
    // A clock that stepped backwards between the two readings.
    s.handle_packet(p, None, 2000, 1995).unwrap();
    let e = s.video_frame(10).unwrap();
    assert!(e.frame_processed_ts >= e.frame_received_ts);
    assert_eq!(e.frame_processed_ts, 2000);
}

#[test]
fn mailbox_is_primed_overwritten_and_drained() {
    let mut s = FFMpegSource::new(
        "synthetic://cam".to_owned(),
        Vec::new(),
        8,
        false,
        false,
        false,
        10000,
        FFmpegLogLevel::Info,
        Vec::new(),
    );
    // The mailbox starts primed with the configured level; a double set
    // before a drain loses the first value; a drain clears the slot.
    s.log_level(FFmpegLogLevel::Debug);
    s.log_level(FFmpegLogLevel::Quiet);
    assert_eq!(s.take_log_level(), Some(FFmpegLogLevel::Quiet));
    assert_eq!(s.take_log_level(), None);
}

#[test]
fn filter_chain_keeps_matching_declarations_in_order() {
    let filters = vec![
        BsfFilter::new("h264".to_owned(), "h264_mp4toannexb".to_owned(), Vec::new()),
        BsfFilter::new("hevc".to_owned(), "hevc_mp4toannexb".to_owned(), Vec::new()),
        BsfFilter::new(
            "h264".to_owned(),
            "h264_metadata".to_owned(),
            vec![("aud".to_owned(), "insert".to_owned())],
        ),
    ];
    let chain = select_filters(&filters, &"h264".to_owned());
    let names: Vec<String> = chain.iter().map(BitStreamFilterContext::name).collect();
    assert_eq!(names, vec!["h264_mp4toannexb".to_owned(), "h264_metadata".to_owned()]);
}

#[test]
fn session_initialization_builds_the_matching_chain() {
    let filters = vec![
        BsfFilter::new("h264".to_owned(), "h264_mp4toannexb".to_owned(), Vec::new()),
        BsfFilter::new("mjpeg".to_owned(), "noise".to_owned(), Vec::new()),
    ];
    let mut s = FFMpegSource::new(
        "synthetic://cam".to_owned(),
        Vec::new(),
        8,
        false,
        false,
        false,
        10000,
        FFmpegLogLevel::Info,
        filters,
    );
    s.init_worker(Some(mjpeg_stream())).unwrap();
    let w = s.worker.as_ref().unwrap();
    assert_eq!(w.filters.len(), 1);
    assert_eq!(w.filters[0].name(), "noise");
    assert!(w.skip_until_first_key_frame);
    assert!(!w.key_framed);
}

#[test]
fn transformed_packets_preserve_source_metadata() {
    let src = Packet {
        stream_index: 3,
        key: true,
        corrupt: false,
        pts: Some(44),
        dts: Some(43),
        duration: 2,
        payload: vec![0xde, 0xad],
    };
    let out = packets_with_metadata_of(&src, vec![vec![1, 2], vec![3]]);
    assert_eq!(out.len(), 2);
    for p in &out {
        assert_eq!(p.stream_index, 3);
        assert!(p.key);
        assert!(!p.corrupt);
        assert_eq!(p.pts, Some(44));
        assert_eq!(p.dts, Some(43));
        assert_eq!(p.duration, 2);
    }
    assert_eq!(out[0].payload, vec![1, 2]);
    assert_eq!(out[1].payload, vec![3]);
}

#[test]
fn error_messages_name_their_cause() {
    assert_eq!(
        Error::UnsupportedCodec("dirac".to_owned()).message(),
        "unsupported video codec detected: dirac"
    );
    assert_eq!(Error::Timeout.message(), "receive timed out");
    assert_eq!(Error::NotRunning.message(), "worker thread is not running");
    assert_eq!(Error::Closed.message(), "handoff queue is disconnected");
    assert_eq!(
        Error::NoVideoStream.message(),
        "cannot discover the best suitable video stream to work with"
    );
    assert_eq!(Error::InitTimeout.message(), "worker initialization timed out");
    assert_eq!(Error::Native("boom".to_owned()).message(), "native failure: boom");
}

#[test]
fn bsf_filter_holds_its_declaration() {
    let f = BsfFilter::new(
        "h264".to_owned(),
        "h264_mp4toannexb".to_owned(),
        vec![("k".to_owned(), "v".to_owned())],
    );
    assert_eq!(f.codec, "h264");
    assert_eq!(f.name, "h264_mp4toannexb");
    assert_eq!(f.params, vec![("k".to_owned(), "v".to_owned())]);
}
