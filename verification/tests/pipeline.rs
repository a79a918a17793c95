use frame_video::colorspace::{Colorspace, Encoding};
use frame_video::encoder::Reply;
use frame_video::image::ImageError;
use frame_video::muxer::MuxError;
use frame_video::pipeline::{Draining, Frame, JobError, Pipeline, Session};
use frame_video::request::{FrameMetadata, JobRequest, RequestError};
use frame_video::setup::{Base, Preset, Tune};
use std::io::Cursor;

fn solid_jpeg(width: u16, height: u16, rgb: [u8; 3]) -> Vec<u8> {
    let mut pixels = Vec::new();
    for _ in 0..(width as usize * height as usize) {
        pixels.extend_from_slice(&rgb);
    }
    let mut out = Vec::new();
    let encoder = jpeg_encoder::Encoder::new(&mut out, 90);
    encoder.encode(&pixels, width, height, jpeg_encoder::ColorType::Rgb).unwrap();
    out
}

fn gray_jpeg(width: u16, height: u16) -> Vec<u8> {
    let pixels = vec![128u8; width as usize * height as usize];
    let mut out = Vec::new();
    let encoder = jpeg_encoder::Encoder::new(&mut out, 90);
    encoder.encode(&pixels, width, height, jpeg_encoder::ColorType::Luma).unwrap();
    out
}

fn frame(device: (u16, u16), timestamp: u64, data: Vec<u8>) -> FrameMetadata {
    FrameMetadata {
        offset_top: 0,
        page_scale_factor: 1.0f32.to_bits(),
        scroll_offset_x: 0.0f32.to_bits(),
        scroll_offset_y: 12.5f32.to_bits(),
        device_width: device.0,
        device_height: device.1,
        timestamp,
        data,
    }
}

fn request(start_time: u64, stamps: &[u64], device: (u16, u16)) -> JobRequest {
    let jpeg = solid_jpeg(device.0 * 2, device.1 * 2, [10, 200, 30]);
    JobRequest {
        start_time,
        end_time: stamps.last().copied().unwrap_or(start_time),
        frames: stamps.iter().map(|t| frame(device, *t, jpeg.clone())).collect(),
    }
}

/// What an encoder without delay hands back for a frame.
fn echo(frame: &Frame, tag: u8) -> Reply {
    let payload = vec![tag, 0, 0, 1];
    Reply { status: payload.len() as i32, payload, pts: frame.pts, dts: frame.pts, keyframe: tag == 0 }
}

fn nothing() -> Reply {
    Reply { status: 0, payload: Vec::new(), pts: 0, dts: 0, keyframe: false }
}

fn open(request: JobRequest) -> Session {
    Pipeline::start(request).unwrap().open(true).unwrap()
}

/// Runs a job with an encoder that completes every frame at once.
fn run(request: JobRequest) -> Result<Vec<u8>, JobError> {
    let mut session = open(request);
    let mut tag = 0u8;
    while let Some(frame) = session.next_frame()? {
        session.output(echo(&frame, tag))?;
        tag += 1;
    }
    let mut draining = session.flush();
    assert!(!draining.next(0));
    draining.finish()
}

fn read(bytes: &[u8]) -> mp4::Mp4Reader<Cursor<Vec<u8>>> {
    mp4::Mp4Reader::read_header(Cursor::new(bytes.to_vec()), bytes.len() as u64).unwrap()
}

fn samples(bytes: &[u8]) -> Vec<(u64, u32, bool, Vec<u8>)> {
    let mut reader = read(bytes);
    let count = reader.sample_count(1).unwrap();
    (1..=count)
        .map(|i| {
            let s = reader.read_sample(1, i).unwrap().unwrap();
            (s.start_time, s.duration, s.is_sync, s.bytes.to_vec())
        })
        .collect()
}

#[test]
fn three_frames_make_three_samples() {
    let bytes = run(request(0, &[100, 250, 400], (64, 64))).unwrap();
    assert!(!bytes.is_empty());
    assert_eq!(&bytes[4..8], b"ftyp");
    assert_eq!(&bytes[8..12], b"isom");
    let reader = read(&bytes);
    assert_eq!(reader.timescale(), 1000);
    assert_eq!(reader.tracks().len(), 1);
    let track = reader.tracks().get(&1).unwrap();
    assert_eq!(track.width(), 128);
    assert_eq!(track.height(), 128);
    assert_eq!(track.timescale(), 1000);
    assert_eq!(track.language(), "und");
    assert_eq!(
        samples(&bytes),
        vec![
            (0, 100, true, vec![0, 0, 0, 1]),
            (100, 150, false, vec![1, 0, 0, 1]),
            (250, 150, false, vec![2, 0, 0, 1]),
        ]
    );
}

#[test]
fn a_request_without_frames_is_refused() {
    let error = Pipeline::start(request(0, &[], (64, 64))).unwrap_err();
    assert_eq!(error, JobError::Request(RequestError::EmptyFrames));
    assert!(error.is_request_level());
    assert_eq!(error.reason(), "Frames empty");
    assert_eq!(error.frame_index(), None);
}

#[test]
fn a_corrupt_second_frame_fails_the_job() {
    let mut job = request(0, &[100, 250, 400], (64, 64));
    job.frames[1].data.truncate(30);
    let mut session = open(job);
    let first = session.next_frame().unwrap().unwrap();
    session.output(echo(&first, 0)).unwrap();
    let error = session.next_frame().unwrap_err();
    match &error {
        JobError::Decode(failure) => assert_eq!(failure.index, 1),
        other => panic!("unexpected {:?}", other),
    }
    assert_eq!(error.frame_index(), Some(1));
    assert!(!error.is_request_level());
    assert!(error.reason().starts_with("Decode frame failed "));
    assert!(error.reason().len() > "Decode frame failed ".len());
}

#[test]
fn a_corrupt_frame_gives_no_output() {
    let mut job = request(0, &[100, 250], (8, 8));
    job.frames[1].data = b"no image".to_vec();
    assert!(matches!(run(job), Err(JobError::Decode(failure)) if failure.index == 1));
}

#[test]
fn frames_are_handed_out_with_their_planned_times() {
    let mut session = open(request(50, &[100, 250, 400], (4, 6)));
    let mut seen = Vec::new();
    while let Some(frame) = session.next_frame().unwrap() {
        assert_eq!(frame.width, 8);
        assert_eq!(frame.height, 12);
        assert_eq!(frame.pixels.len(), 8 * 12 * 3);
        assert_eq!(frame.layout.plane_count, 1);
        assert_eq!(frame.layout.strides, [24, 0, 0, 0]);
        assert!((frame.pixels[1] as i32 - 200).abs() <= 8);
        seen.push(frame.pts);
    }
    assert_eq!(seen, vec![0, 50, 200]);
    assert!(session.next_frame().unwrap().is_none());
}

#[test]
fn the_first_frame_is_measured_from_the_start() {
    let bytes = run(request(40, &[100, 130], (2, 2))).unwrap();
    let got: Vec<(u64, u32, bool)> = samples(&bytes).iter().map(|s| (s.0, s.1, s.2)).collect();
    assert_eq!(got, vec![(0, 60, true), (60, 30, false)]);
}

#[test]
fn only_the_first_sample_is_sync() {
    let bytes = run(request(5, &[5, 5, 5, 9], (2, 2))).unwrap();
    let got: Vec<(u64, u32, bool)> = samples(&bytes).iter().map(|s| (s.0, s.1, s.2)).collect();
    assert_eq!(got, vec![(0, 0, true), (0, 0, false), (0, 0, false), (0, 4, false)]);
}

#[test]
fn the_same_job_gives_the_same_bytes() {
    let a = run(request(0, &[100, 250, 400], (16, 8))).unwrap();
    let b = run(request(0, &[100, 250, 400], (16, 8))).unwrap();
    assert_eq!(a, b);
}

#[test]
fn the_encoder_is_asked_for_twice_the_viewport() {
    let pipeline = Pipeline::start(request(0, &[1], (640, 360))).unwrap();
    let open = pipeline.encoder_request().unwrap();
    assert_eq!(
        open.base,
        Base::Preset {
            preset: Preset::Veryfast,
            tune: Tune::Animation,
            fast_decode: true,
            zero_latency: true,
        }
    );
    assert_eq!(open.steps, Vec::new());
    assert_eq!(open.encoding, Encoding::plain(Colorspace::RGB));
    assert_eq!(open.width, 1280);
    assert_eq!(open.height, 720);
    assert_eq!(open.bit_depth, 8);
}

#[test]
fn an_encoder_that_was_refused_fails_the_job() {
    let pipeline = Pipeline::start(request(0, &[1], (2, 2))).unwrap();
    let error = pipeline.open(false).unwrap_err();
    assert_eq!(error, JobError::EncoderConfiguration);
    assert_eq!(error.reason(), "Create h264 encoder failed");
    assert!(!error.is_request_level());
}

#[test]
fn a_viewport_too_large_to_double_is_refused() {
    let job = JobRequest {
        start_time: 0,
        end_time: 1,
        frames: vec![frame((32768, 2), 1, Vec::new())],
    };
    assert_eq!(Pipeline::start(job).unwrap_err(), JobError::EncoderConfiguration);
    let job = JobRequest {
        start_time: 0,
        end_time: 1,
        frames: vec![frame((2, 40000), 1, Vec::new())],
    };
    assert_eq!(Pipeline::start(job).unwrap_err(), JobError::EncoderConfiguration);
    let job = JobRequest {
        start_time: 0,
        end_time: 1,
        frames: vec![frame((32767, 32767), 1, Vec::new())],
    };
    assert_eq!(Pipeline::start(job).unwrap().encoder_request().unwrap().width, 65534);
}

#[test]
fn timestamps_out_of_order_are_refused() {
    let error = Pipeline::start(request(0, &[100, 90, 400], (2, 2))).unwrap_err();
    assert_eq!(error, JobError::Request(RequestError::Timestamps { index: 1 }));
    assert!(error.is_request_level());
    assert_eq!(error.frame_index(), Some(1));
    let error = Pipeline::start(request(101, &[100, 190], (2, 2))).unwrap_err();
    assert_eq!(error, JobError::Request(RequestError::Timestamps { index: 0 }));
}

#[test]
fn a_job_longer_than_32_bits_of_milliseconds_is_written() {
    let bytes = run(request(0, &[4_000_000_000, 8_000_000_000, 12_000_000_000], (2, 2))).unwrap();
    let got: Vec<(u64, u32, bool)> = samples(&bytes).iter().map(|s| (s.0, s.1, s.2)).collect();
    assert_eq!(
        got,
        vec![
            (0, 4_000_000_000, true),
            (4_000_000_000, 4_000_000_000, false),
            (8_000_000_000, 4_000_000_000, false),
        ]
    );
}

#[test]
fn a_frame_longer_than_32_bits_of_milliseconds_fails_the_job() {
    let mut session = open(request(0, &[1, 0x1_0000_0001], (2, 2)));
    let first = session.next_frame().unwrap().unwrap();
    session.output(echo(&first, 0)).unwrap();
    let second = session.next_frame().unwrap().unwrap();
    assert_eq!(second.pts, 1);
    let error = session.output(echo(&second, 1)).unwrap_err();
    assert_eq!(error, JobError::Mux(MuxError::Capacity));
    assert!(!error.is_request_level());
}

#[test]
fn a_presentation_time_beyond_the_encoders_timestamp_fails_the_job() {
    let mut session = open(request(0, &[0, u64::MAX, u64::MAX], (2, 2)));
    assert_eq!(session.next_frame().unwrap().unwrap().pts, 0);
    assert_eq!(session.next_frame().unwrap().unwrap().pts, 0);
    assert_eq!(session.next_frame().unwrap_err(), JobError::EncoderRuntime);
    let mut session = open(request(0, &[0, i64::MAX as u64, i64::MAX as u64], (2, 2)));
    assert_eq!(session.next_frame().unwrap().unwrap().pts, 0);
    assert_eq!(session.next_frame().unwrap().unwrap().pts, 0);
    assert_eq!(session.next_frame().unwrap().unwrap().pts, i64::MAX);
}

#[test]
fn a_corrupt_frame_fails_with_its_position_whatever_its_time() {
    let mut job = request(0, &[0, u64::MAX, u64::MAX], (2, 2));
    job.frames[2].data.truncate(25);
    let mut session = open(job);
    assert!(session.next_frame().unwrap().is_some());
    assert!(session.next_frame().unwrap().is_some());
    let error = session.next_frame().unwrap_err();
    assert!(matches!(&error, JobError::Decode(failure) if failure.index == 2));
    let mut job = request(0, &[0, u64::MAX, u64::MAX], (2, 2));
    job.frames[2].data = solid_jpeg(2, 2, [0, 0, 0]);
    let mut session = open(job);
    assert!(session.next_frame().unwrap().is_some());
    assert!(session.next_frame().unwrap().is_some());
    assert_eq!(
        session.next_frame().unwrap_err(),
        JobError::Image { index: 2, error: ImageError::Stride { plane: 0 } }
    );
}

#[test]
fn the_message_of_a_failure_names_the_frame() {
    let mut job = request(0, &[100, 250, 400], (4, 4));
    job.frames[1].data.truncate(30);
    let mut session = open(job);
    assert!(session.next_frame().unwrap().is_some());
    let error = session.next_frame().unwrap_err();
    let message = error.message();
    assert!(message.starts_with("Decode frame failed "));
    assert!(message.ends_with(" (frame 1)"));
    assert_eq!(message, format!("{} (frame 1)", error.reason()));
    assert_eq!(
        JobError::Image { index: 0, error: ImageError::Rows { plane: 0 } }.message(),
        "Frame has too few rows (frame 0)"
    );
    assert_eq!(
        JobError::Image { index: 1234567890, error: ImageError::Dimensions }.message(),
        "Frame size is no multiple of the pixel grouping (frame 1234567890)"
    );
    assert_eq!(
        JobError::Request(RequestError::Timestamps { index: 10 }).message(),
        "Frame timestamps out of order (frame 10)"
    );
    assert_eq!(
        JobError::Request(RequestError::Timestamps { index: usize::MAX }).message(),
        format!("Frame timestamps out of order (frame {})", usize::MAX)
    );
    assert_eq!(JobError::EncoderRuntime.message(), "Encode image to frame data failed");
    assert_eq!(JobError::Request(RequestError::EmptyFrames).message(), "Frames empty");
}

#[test]
fn a_frame_of_another_size_is_refused() {
    let mut job = request(0, &[10, 20], (8, 8));
    job.frames[1].data = solid_jpeg(8, 8, [1, 1, 1]);
    let mut session = open(job);
    assert!(session.next_frame().unwrap().is_some());
    let error = session.next_frame().unwrap_err();
    assert_eq!(error, JobError::Image { index: 1, error: ImageError::Stride { plane: 0 } });
    assert_eq!(error.frame_index(), Some(1));
    assert_eq!(error.reason(), "Frame rows are too short");
}

#[test]
fn a_gray_frame_is_refused() {
    let mut job = request(0, &[10], (8, 8));
    job.frames[0].data = gray_jpeg(16, 16);
    let mut session = open(job);
    assert_eq!(
        session.next_frame().unwrap_err(),
        JobError::Image { index: 0, error: ImageError::Stride { plane: 0 } }
    );
}

#[test]
fn a_failure_of_the_encoder_fails_the_job() {
    let mut session = open(request(0, &[10, 20], (2, 2)));
    let first = session.next_frame().unwrap().unwrap();
    let mut reply = echo(&first, 0);
    reply.status = -1;
    let error = session.output(reply).unwrap_err();
    assert_eq!(error, JobError::EncoderRuntime);
    assert_eq!(error.reason(), "Encode image to frame data failed");
}

#[test]
fn a_frame_that_was_never_handed_in_fails_the_job() {
    let mut session = open(request(0, &[10, 20], (2, 2)));
    let reply = Reply { status: 1, payload: vec![1], pts: 0, dts: 0, keyframe: true };
    assert_eq!(session.output(reply).unwrap_err(), JobError::EncoderRuntime);
}

#[test]
fn a_frame_out_of_turn_fails_the_job() {
    let mut session = open(request(0, &[10, 20, 30], (2, 2)));
    let first = session.next_frame().unwrap().unwrap();
    let second = session.next_frame().unwrap().unwrap();
    assert_eq!(first.pts, 0);
    assert_eq!(second.pts, 10);
    assert_eq!(session.output(echo(&second, 1)).unwrap_err(), JobError::EncoderRuntime);
}

#[test]
fn delayed_frames_are_written_while_draining() {
    let mut session = open(request(0, &[100, 250, 400], (2, 2)));
    let mut frames = Vec::new();
    while let Some(frame) = session.next_frame().unwrap() {
        if frames.is_empty() {
            session.output(nothing()).unwrap();
        } else {
            let earlier: &Frame = frames.last().unwrap();
            session.output(echo(earlier, frames.len() as u8 - 1)).unwrap();
        }
        frames.push(frame);
    }
    let mut draining: Draining = session.flush();
    assert!(draining.next(1));
    draining.output(echo(&frames[2], 2)).unwrap();
    assert!(!draining.next(0));
    let bytes = draining.finish().unwrap();
    assert_eq!(
        samples(&bytes),
        vec![
            (0, 100, true, vec![0, 0, 0, 1]),
            (100, 150, false, vec![1, 0, 0, 1]),
            (250, 150, false, vec![2, 0, 0, 1]),
        ]
    );
}

#[test]
fn a_job_that_is_finished_early_gives_no_output() {
    let mut session = open(request(0, &[100, 250], (2, 2)));
    let first = session.next_frame().unwrap().unwrap();
    session.output(echo(&first, 0)).unwrap();
    let second = session.next_frame().unwrap().unwrap();
    session.output(nothing()).unwrap();
    let mut draining = session.flush();
    assert_eq!(draining.next(1), true);
    let early = open(request(0, &[100, 250], (2, 2))).flush().finish();
    assert_eq!(early.unwrap_err(), JobError::EncoderRuntime);
    draining.output(echo(&second, 1)).unwrap();
    assert_eq!(draining.next(0), false);
    assert_eq!(draining.next(3), false);
    assert_eq!(samples(&draining.finish().unwrap()).len(), 2);
}

#[test]
fn a_drained_frame_too_many_fails_the_job() {
    let mut session = open(request(0, &[100], (2, 2)));
    let first = session.next_frame().unwrap().unwrap();
    session.output(echo(&first, 0)).unwrap();
    let mut draining = session.flush();
    assert!(draining.next(1));
    assert_eq!(draining.output(echo(&first, 1)).unwrap_err(), JobError::EncoderRuntime);
}

#[test]
fn reasons_of_container_failures_are_told() {
    assert_eq!(JobError::Mux(MuxError::Capacity).reason(), "Sample does not fit the track");
    assert_eq!(JobError::Mux(MuxError::Write("disk".to_owned())).reason(), "disk");
    assert_eq!(JobError::Mux(MuxError::TrackNotFound(3)).reason(), "Track not found");
    assert_eq!(
        JobError::Request(RequestError::Base64("bad".to_owned())).reason(),
        "bad"
    );
    assert!(JobError::Request(RequestError::Base64("bad".to_owned())).is_request_level());
    assert_eq!(
        JobError::Request(RequestError::Timestamps { index: 2 }).reason(),
        "Frame timestamps out of order"
    );
    assert_eq!(
        JobError::Image { index: 0, error: ImageError::Rows { plane: 0 } }.reason(),
        "Frame has too few rows"
    );
}
