//! End-to-end scenarios driven against the session model.

use ffmpeg_input::codec::CodecId;
use ffmpeg_input::errors::Error;
use ffmpeg_input::packet::Packet;
use ffmpeg_input::packet::StreamInfo;
use ffmpeg_input::source::FFMpegSource;
use ffmpeg_input::source::FFmpegLogLevel;
use ffmpeg_input::source::SendOutcome;

fn h264_stream() -> StreamInfo {
    StreamInfo {
        index: 0,
        codec: CodecId::H264,
        codec_name: "h264".to_owned(),
        width: 640,
        height: 480,
        time_base_num: 1,
        time_base_den: 25,
        fps: "25/1".to_owned(),
        avg_fps: "25/1".to_owned(),
        pixel_format: "YUV420P".to_owned(),
    }
}

fn packet(key: bool) -> Packet {
    Packet {
        stream_index: 0,
        key,
        corrupt: false,
        pts: None,
        dts: None,
        duration: 0,
        payload: vec![1, 2, 3],
    }
}

fn open_session(queue_len: i64, block: bool) -> FFMpegSource {
    let mut s = FFMpegSource::new(
        "synthetic://stream".to_owned(),
        Vec::new(),
        queue_len,
        false,
        false,
        block,
        10000,
        FFmpegLogLevel::Info,
        Vec::new(),
    );
    s.init_worker(Some(h264_stream())).unwrap();
    s
}

#[test]
fn key_framed_stream_drops_leading_non_key_packets() {
    // One leading non-key packet, then three key-framed packets: exactly
    // three envelopes come out and the first is a sync point.
    let mut s = open_session(32, false);
    let r1 = s.handle_packet(packet(false), None, 10, 11).unwrap();
    assert!(r1.is_empty());
    let r2 = s.handle_packet(packet(true), None, 12, 13).unwrap();
    assert_eq!(r2, vec![SendOutcome::Delivered]);
    let r3 = s.handle_packet(packet(true), None, 14, 15).unwrap();
    assert_eq!(r3, vec![SendOutcome::Delivered]);
    let r4 = s.handle_packet(packet(true), None, 16, 17).unwrap();
    assert_eq!(r4, vec![SendOutcome::Delivered]);

    let first = s.video_frame(10).unwrap();
    assert!(first.key_frame);
    assert_eq!(first.frame_width, 640);
    assert_eq!(first.frame_height, 480);
    let _second = s.video_frame(10).unwrap();
    let _third = s.video_frame(10).unwrap();
    assert!(matches!(s.video_frame(10), Err(Error::Timeout)));
}

#[test]
fn skip_policy_counts_drops_and_reports_them_in_band() {
    // Capacity 1, skip-if-full, five frames without draining: one
    // delivered, four counted; the next delivered envelope carries the
    // count.
    let mut s = open_session(1, false);
    assert_eq!(
        s.handle_packet(packet(true), None, 1, 2).unwrap(),
        vec![SendOutcome::Delivered]
    );
    for i in 0..4i64 {
        let outs = s
            .handle_packet(packet(false), None, 3 + i, 4 + i)
            .unwrap();
        assert_eq!(outs, vec![SendOutcome::Skipped]);
    }
    assert_eq!(s.queue_full_skipped_count, 4);

    let first = s.video_frame(10).unwrap();
    assert_eq!(first.queue_full_skipped_count, 0);
    assert_eq!(
        s.handle_packet(packet(false), None, 20, 21).unwrap(),
        vec![SendOutcome::Delivered]
    );
    let next = s.video_frame(10).unwrap();
    assert!(next.queue_full_skipped_count >= 3);
    assert_eq!(next.queue_full_skipped_count, 4);
}

#[test]
fn unsupported_codec_fails_before_readiness() {
    let mut s = FFMpegSource::new(
        "synthetic://stream".to_owned(),
        Vec::new(),
        32,
        false,
        false,
        false,
        10000,
        FFmpegLogLevel::Info,
        Vec::new(),
    );
    let mut info = h264_stream();
    info.codec = CodecId::Other;
    info.codec_name = "dirac".to_owned();
    match s.init_worker(Some(info)) {
        Err(Error::UnsupportedCodec(name)) => assert_eq!(name, "dirac"),
        other => panic!("expected UnsupportedCodec, got {:?}", other),
    }
    assert!(!s.is_running());
}

#[test]
fn missing_video_stream_fails_before_readiness() {
    let mut s = FFMpegSource::new(
        "synthetic://stream".to_owned(),
        Vec::new(),
        32,
        false,
        false,
        false,
        10000,
        FFmpegLogLevel::Info,
        Vec::new(),
    );
    assert!(matches!(s.init_worker(None), Err(Error::NoVideoStream)));
    assert!(!s.is_running());
}

#[test]
fn receive_on_empty_queue_times_out_and_session_stays_usable() {
    let mut s = open_session(32, false);
    assert!(matches!(s.video_frame(10), Err(Error::Timeout)));
    assert!(s.is_running());
    assert_eq!(
        s.handle_packet(packet(true), None, 1, 2).unwrap(),
        vec![SendOutcome::Delivered]
    );
    assert!(s.video_frame(10).is_ok());
}

#[test]
fn receive_after_stop_reports_not_running() {
    let mut s = open_session(32, false);
    s.handle_packet(packet(true), None, 1, 2).unwrap();
    s.stop();
    assert!(matches!(s.video_frame(10), Err(Error::NotRunning)));
}

#[test]
fn stop_is_idempotent() {
    let mut s = open_session(32, false);
    assert!(s.is_running());
    s.stop();
    assert!(!s.is_running());
    s.stop();
    s.stop();
    assert!(!s.is_running());
}

#[test]
fn block_policy_delivers_every_frame() {
    // Capacity 1, block-if-full: every frame is delivered and the skip
    // counter never moves.
    let mut s = open_session(1, true);
    for i in 0..3i64 {
        let outs = s
            .handle_packet(packet(i == 0), None, 1 + i, 2 + i)
            .unwrap();
        assert_eq!(outs, vec![SendOutcome::Delivered]);
    }
    assert_eq!(s.queue_full_skipped_count, 0);
    for _ in 0..3 {
        let e = s.video_frame(10).unwrap();
        assert_eq!(e.queue_full_skipped_count, 0);
    }
    assert!(matches!(s.video_frame(10), Err(Error::Timeout)));
}

#[test]
fn disconnected_queue_is_fatal_for_the_worker() {
    let mut s = open_session(32, false);
    s.queue.close();
    match s.handle_packet(packet(true), None, 1, 2) {
        Err(Error::Closed) => {}
        other => panic!("expected Closed, got {:?}", other),
    }
    assert!(!s.is_running());
}

#[test]
fn disconnected_empty_queue_reports_closed_to_the_consumer() {
    let mut s = open_session(32, false);
    s.queue.close();
    assert!(matches!(s.video_frame(10), Err(Error::Closed)));
}

#[test]
fn batch_run_preserves_arrival_order() {
    let mut s = open_session(32, false);
    let mut ps = Vec::new();
    for i in 0..5i64 {
        let mut p = packet(i != 0);
        p.pts = Some(i);
        p.payload = vec![i as u8];
        ps.push(p);
    }
    // The leading non-key packet is gated; the rest come out in arrival
    // order.
    s.handle_packets(ps, 100, 101).unwrap();
    for i in 1..5i64 {
        let e = s.video_frame(10).unwrap();
        assert_eq!(e.pts, Some(i));
        assert_eq!(e.payload, vec![i as u8]);
    }
    assert!(matches!(s.video_frame(10), Err(Error::Timeout)));
}

#[test]
fn batch_run_drains_cleanly_when_stopped() {
    let mut s = open_session(32, false);
    s.stop();
    assert!(s.handle_packets(vec![packet(true)], 1, 2).is_ok());
    assert!(matches!(s.video_frame(10), Err(Error::NotRunning)));
}

#[test]
fn batch_run_halts_on_disconnected_queue() {
    let mut s = open_session(32, false);
    s.queue.close();
    assert!(matches!(
        s.handle_packets(vec![packet(true), packet(true)], 1, 2),
        Err(Error::Closed)
    ));
    assert!(!s.is_running());
}

#[test]
fn packets_of_other_streams_are_ignored() {
    let mut s = open_session(32, false);
    let mut p = packet(true);
    p.stream_index = 7;
    let outs = s.handle_packet(p, None, 1, 2).unwrap();
    assert!(outs.is_empty());
    assert!(matches!(s.video_frame(10), Err(Error::Timeout)));
}
