//! End-to-end tests of the streaming library: failure classification, the
//! reconnect state machine, and real transcoding through the image codecs.

use camera_streamer::classify_send_error;
use camera_streamer::transcode_frame;
use camera_streamer::CaptureError;
use camera_streamer::CaptureOutcome;
use camera_streamer::FatalError;
use camera_streamer::Frame;
use camera_streamer::LoopState;
use camera_streamer::SendFailure;
use camera_streamer::SendOutcome;
use camera_streamer::StreamConfig;
use camera_streamer::StreamingLoop;
use camera_streamer::TranscodeError;
use camera_streamer::TransportErrorKind;

/// A synthetic JPEG of the given dimensions, encoded at the given quality.
fn synthetic_jpeg(width: u32, height: u32, quality: u8) -> Vec<u8> {
    let img = image::RgbImage::from_fn(width, height, |x, y| {
        image::Rgb([(x % 256) as u8, (y % 256) as u8, 128u8])
    });
    let dynimg = image::DynamicImage::ImageRgb8(img);
    let mut bytes: Vec<u8> = Vec::new();
    dynimg
        .write_to(
            &mut std::io::Cursor::new(&mut bytes),
            image::ImageOutputFormat::Jpeg(quality),
        )
        .unwrap();
    bytes
}

/// A synthetic 16-bit PNG: it decodes fine but cannot be re-encoded as JPEG.
fn synthetic_deep_png(width: u32, height: u32) -> Vec<u8> {
    let img: image::ImageBuffer<image::Rgb<u16>, Vec<u16>> =
        image::ImageBuffer::from_fn(width, height, |x, y| {
            image::Rgb([(x * 97) as u16, (y * 131) as u16, 4096u16])
        });
    let dynimg = image::DynamicImage::ImageRgb16(img);
    let mut bytes: Vec<u8> = Vec::new();
    dynimg
        .write_to(
            &mut std::io::Cursor::new(&mut bytes),
            image::ImageOutputFormat::Png,
        )
        .unwrap();
    bytes
}

fn default_config(reencode: bool) -> StreamConfig {
    StreamConfig::resolve(None, None, None, None, reencode, false)
}

fn connected_loop(reencode: bool) -> StreamingLoop {
    let mut lp = StreamingLoop::new(default_config(reencode));
    lp.on_connect_result(true);
    assert_eq!(lp.state, LoopState::Connected);
    lp
}

fn mjpg_frame(data: Vec<u8>) -> Frame {
    Frame {
        data,
        format: *b"MJPG",
    }
}

#[test]
fn classification_connection_lost_variants() {
    assert_eq!(
        classify_send_error(TransportErrorKind::ConnectionClosed),
        SendFailure::ConnectionLost
    );
    assert_eq!(
        classify_send_error(TransportErrorKind::AlreadyClosed),
        SendFailure::ConnectionLost
    );
    assert_eq!(
        classify_send_error(TransportErrorKind::Io),
        SendFailure::ConnectionLost
    );
}

#[test]
fn classification_transient_variants() {
    for k in [
        TransportErrorKind::Tls,
        TransportErrorKind::Capacity,
        TransportErrorKind::Protocol,
        TransportErrorKind::WriteBufferFull,
        TransportErrorKind::Utf8,
        TransportErrorKind::AttackAttempt,
        TransportErrorKind::Url,
        TransportErrorKind::Http,
        TransportErrorKind::HttpFormat,
    ] {
        assert_eq!(classify_send_error(k), SendFailure::Transient);
    }
}

#[test]
fn config_defaults() {
    let cfg = default_config(false);
    assert_eq!((cfg.input_width, cfg.input_height), (640, 480));
    assert_eq!((cfg.output_width, cfg.output_height), (256, 144));
    assert_eq!(cfg.framerate, 10);
    assert_eq!(cfg.output_quality, 50);
    assert!(!cfg.reencode);
    assert!(!cfg.debug);
}

#[test]
fn config_explicit_values() {
    let cfg = StreamConfig::resolve(
        Some((1280, 720)),
        Some(30),
        Some((320, 240)),
        Some(80),
        true,
        true,
    );
    assert_eq!((cfg.input_width, cfg.input_height), (1280, 720));
    assert_eq!((cfg.output_width, cfg.output_height), (320, 240));
    assert_eq!(cfg.framerate, 30);
    assert_eq!(cfg.output_quality, 80);
    assert!(cfg.reencode);
    assert!(cfg.debug);
}

#[test]
fn reconnects_exactly_on_connection_lost() {
    // A mixed sequence of send results: the loop must reconnect exactly once,
    // at the connection-lost failure, and keep the connection otherwise.
    let mut lp = connected_loop(false);
    assert_eq!(lp.handle_send_result(Ok(())), SendOutcome::Sent);
    assert_eq!(lp.state, LoopState::Connected);
    assert_eq!(
        lp.handle_send_result(Err(SendFailure::Transient)),
        SendOutcome::SkippedFrame
    );
    assert_eq!(lp.state, LoopState::Connected);
    assert_eq!(lp.handle_send_result(Ok(())), SendOutcome::Sent);
    assert_eq!(lp.state, LoopState::Connected);
    assert_eq!(
        lp.handle_send_result(Err(SendFailure::ConnectionLost)),
        SendOutcome::Reconnect
    );
    assert_eq!(lp.state, LoopState::Disconnected);
}

#[test]
fn remote_close_mid_stream_then_resume() {
    // The remote closes mid-stream: the next send fails as ConnectionLost,
    // the loop goes Disconnected, reconnects, and resumes transmitting.
    let mut lp = connected_loop(false);
    assert_eq!(lp.handle_send_result(Ok(())), SendOutcome::Sent);
    let kind = classify_send_error(TransportErrorKind::ConnectionClosed);
    assert_eq!(kind, SendFailure::ConnectionLost);
    assert_eq!(lp.handle_send_result(Err(kind)), SendOutcome::Reconnect);
    assert_eq!(lp.state, LoopState::Disconnected);
    lp.on_connect_result(true);
    assert_eq!(lp.state, LoopState::Connected);
    assert_eq!(lp.handle_send_result(Ok(())), SendOutcome::Sent);
    assert_eq!(lp.state, LoopState::Connected);
}

#[test]
fn connect_retries_indefinitely_without_crash() {
    // The remote is unreachable at startup: every attempt fails and the loop
    // stays Disconnected, ready to retry, until one finally succeeds.
    let mut lp = StreamingLoop::new(default_config(false));
    for _ in 0..1000 {
        lp.on_connect_result(false);
        assert_eq!(lp.state, LoopState::Disconnected);
    }
    lp.on_connect_result(true);
    assert_eq!(lp.state, LoopState::Connected);
}

#[test]
fn capture_failure_is_fatal() {
    let mut lp = connected_loop(false);
    let out = lp.handle_capture(Err(CaptureError::ReadFailed));
    assert_eq!(out, CaptureOutcome::Fatal(FatalError::CaptureFailed));
    assert_eq!(lp.frames, 0);
}

#[test]
fn format_mismatch_is_fatal_at_first_capture() {
    let mut lp = connected_loop(false);
    let frame = Frame {
        data: vec![1, 2, 3],
        format: *b"YUYV",
    };
    let out = lp.handle_capture(Ok(frame));
    assert_eq!(out, CaptureOutcome::Fatal(FatalError::FormatMismatch));
    assert_eq!(lp.frames, 0);
}

#[test]
fn passthrough_payload_is_the_frame_itself() {
    let mut lp = connected_loop(false);
    let data = synthetic_jpeg(640, 480, 80);
    let out = lp.handle_capture(Ok(mjpg_frame(data.clone())));
    assert_eq!(out, CaptureOutcome::Payload(data));
    assert_eq!(lp.frames, 1);
}

#[test]
fn transcode_failure_skips_one_frame_and_loop_goes_on() {
    // One undecodable frame is dropped; the very next capture proceeds and
    // the loop never exits.
    let mut lp = connected_loop(true);
    let garbage = vec![0u8; 64];
    let out = lp.handle_capture(Ok(mjpg_frame(garbage)));
    assert_eq!(out, CaptureOutcome::Skip(TranscodeError::DecodeFailed));
    assert_eq!(lp.state, LoopState::Connected);
    assert_eq!(lp.frames, 1);
    let good = synthetic_jpeg(640, 480, 80);
    let out2 = lp.handle_capture(Ok(mjpg_frame(good)));
    assert!(matches!(out2, CaptureOutcome::Payload(_)));
    assert_eq!(lp.frames, 2);
}

#[test]
fn encode_failure_skips_frame() {
    // A frame that decodes (16-bit PNG) but cannot be re-encoded as JPEG is
    // skipped, not fatal.
    let mut lp = connected_loop(true);
    let deep = synthetic_deep_png(32, 32);
    let out = lp.handle_capture(Ok(mjpg_frame(deep)));
    assert_eq!(out, CaptureOutcome::Skip(TranscodeError::EncodeFailed));
    assert_eq!(lp.state, LoopState::Connected);
}

#[test]
fn round_trip_resizes_to_exact_target() {
    // Encoding at one resolution and transcoding to another yields bytes
    // that decode to exactly the target resolution, aspect ratio not
    // preserved; the bytes are a JPEG stream, marker to marker.
    let input = synthetic_jpeg(640, 480, 90);
    let out = transcode_frame(&input, 256, 144, 50).unwrap();
    let decoded = image::load_from_memory(&out).unwrap();
    assert_eq!(image::GenericImageView::dimensions(&decoded), (256, 144));
    assert!(out.len() >= 4);
    assert_eq!(&out[..2], &[0xFF, 0xD8]);
    assert_eq!(&out[out.len() - 2..], &[0xFF, 0xD9]);
}

#[test]
fn success_is_owed_for_eight_bit_inputs() {
    // Any input that decodes to an eight-bit image must transcode Ok,
    // whatever container it arrived in: a JPEG and an 8-bit PNG both do.
    let jpeg = synthetic_jpeg(48, 32, 75);
    assert!(transcode_frame(&jpeg, 24, 16, 50).is_ok());

    let img = image::RgbImage::from_fn(48, 32, |x, y| {
        image::Rgb([(x % 256) as u8, (y % 256) as u8, 7u8])
    });
    let mut png: Vec<u8> = Vec::new();
    image::DynamicImage::ImageRgb8(img)
        .write_to(
            &mut std::io::Cursor::new(&mut png),
            image::ImageOutputFormat::Png,
        )
        .unwrap();
    let out = transcode_frame(&png, 24, 16, 50).unwrap();
    let decoded = image::load_from_memory(&out).unwrap();
    assert_eq!(image::GenericImageView::dimensions(&decoded), (24, 16));
}

#[test]
fn round_trip_works_upscaling_too() {
    let input = synthetic_jpeg(100, 200, 70);
    let out = transcode_frame(&input, 320, 240, 95).unwrap();
    let decoded = image::load_from_memory(&out).unwrap();
    assert_eq!(image::GenericImageView::dimensions(&decoded), (320, 240));
}

#[test]
fn transcode_rejects_undecodable_bytes() {
    let garbage = vec![0xAAu8; 100];
    assert_eq!(
        transcode_frame(&garbage, 256, 144, 50),
        Err(TranscodeError::DecodeFailed)
    );
    let empty: Vec<u8> = Vec::new();
    assert_eq!(
        transcode_frame(&empty, 256, 144, 50),
        Err(TranscodeError::DecodeFailed)
    );
}

#[test]
fn reencode_scenario_every_payload_is_exact_output_resolution() {
    // Device at 640x480 @10fps, re-encoding on, output 256x144 at quality
    // 50: every transmitted payload decodes to a valid image of exactly
    // 256x144 pixels.
    let cfg = StreamConfig::resolve(Some((640, 480)), Some(10), Some((256, 144)), Some(50), true, false);
    let mut lp = StreamingLoop::new(cfg);
    lp.on_connect_result(true);
    for quality in [30u8, 60, 90] {
        let frame = mjpg_frame(synthetic_jpeg(640, 480, quality));
        match lp.handle_capture(Ok(frame)) {
            CaptureOutcome::Payload(payload) => {
                let decoded = image::load_from_memory(&payload).unwrap();
                assert_eq!(image::GenericImageView::dimensions(&decoded), (256, 144));
                assert_eq!(lp.handle_send_result(Ok(())), SendOutcome::Sent);
            }
            other => panic!("expected a payload, got {:?}", other),
        }
    }
    assert_eq!(lp.frames, 3);
}

#[test]
fn frame_counter_saturates() {
    let mut lp = connected_loop(false);
    lp.frames = u64::MAX;
    let data = synthetic_jpeg(16, 16, 50);
    let out = lp.handle_capture(Ok(mjpg_frame(data)));
    assert!(matches!(out, CaptureOutcome::Payload(_)));
    assert_eq!(lp.frames, u64::MAX);
}

#[test]
fn quality_extremes_round_trip() {
    let input = synthetic_jpeg(64, 64, 80);
    for q in [0u8, 100] {
        let out = transcode_frame(&input, 32, 32, q).unwrap();
        let decoded = image::load_from_memory(&out).unwrap();
        assert_eq!(image::GenericImageView::dimensions(&decoded), (32, 32));
    }
}
