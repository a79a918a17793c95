use frame_video::colorspace::{Colorspace, Encoding, Modifier};
use frame_video::encoder::{Encoder, EncoderError, Picture, Reply};
use frame_video::image::{Image, Plane};
use frame_video::setup::{Base, OpenRequest, Preset, Profile, Setup, Step, Tune, BIT_DEPTH};

fn rgb() -> Encoding {
    Encoding::plain(Colorspace::RGB)
}

fn reply(status: i32, payload: &[u8], pts: i64) -> Reply {
    Reply { status, payload: payload.to_vec(), pts, dts: pts - 1, keyframe: pts == 0 }
}

#[test]
fn a_setup_records_its_steps_in_order() {
    let request = Setup::preset(Preset::Veryfast, Tune::Animation, true, true)
        .fps(30, 1)
        .timebase(1, 1000)
        .annexb(false)
        .bitrate(-3)
        .baseline()
        .main_profile()
        .high()
        .threads(4)
        .fastfirstpass()
        .build(rgb(), 128, 96)
        .unwrap();
    assert_eq!(
        request,
        OpenRequest {
            base: Base::Preset {
                preset: Preset::Veryfast,
                tune: Tune::Animation,
                fast_decode: true,
                zero_latency: true,
            },
            steps: vec![
                Step::Fps { num: 30, den: 1 },
                Step::Timebase { num: 1, den: 1000 },
                Step::AnnexB(false),
                Step::Bitrate(-3),
                Step::Profile(Profile::Baseline),
                Step::Profile(Profile::Main),
                Step::Profile(Profile::High),
                Step::Threads(4),
                Step::FastFirstPass,
            ],
            encoding: rgb(),
            width: 128,
            height: 96,
            bit_depth: 8,
        }
    );
    assert_eq!(BIT_DEPTH, 8);
}

#[test]
fn the_default_setup_starts_from_the_defaults() {
    let encoding = Encoding::plain(Colorspace::I420).with(Modifier::HighDepth);
    let request = Setup::default().build(encoding, 0, i32::MAX as u32).unwrap();
    assert_eq!(request.base, Base::Defaults);
    assert_eq!(request.steps, Vec::new());
    assert_eq!(request.encoding, encoding);
    assert_eq!(request.width, 0);
    assert_eq!(request.height, i32::MAX);
    let request = Encoder::builder().threads(1).build(rgb(), 2, 2).unwrap();
    assert_eq!(request.base, Base::Defaults);
    assert_eq!(request.steps, vec![Step::Threads(1)]);
}

#[test]
fn sizes_beyond_the_interface_are_refused() {
    assert_eq!(Setup::default().build(rgb(), 0x8000_0000, 2).err(), Some(EncoderError));
    assert_eq!(Setup::default().build(rgb(), 2, u32::MAX).err(), Some(EncoderError));
    assert!(Setup::default().build(rgb(), 0x7fff_ffff, 0x7fff_ffff).is_ok());
}

#[test]
fn presets_tunes_and_profiles_have_their_native_names() {
    assert_eq!(Preset::Ultrafast.name(), "ultrafast");
    assert_eq!(Preset::Superfast.name(), "superfast");
    assert_eq!(Preset::Veryfast.name(), "veryfast");
    assert_eq!(Preset::Faster.name(), "faster");
    assert_eq!(Preset::Fast.name(), "fast");
    assert_eq!(Preset::Medium.name(), "medium");
    assert_eq!(Preset::Slow.name(), "slow");
    assert_eq!(Preset::Slower.name(), "slower");
    assert_eq!(Preset::Veryslow.name(), "veryslow");
    assert_eq!(Preset::Placebo.name(), "placebo");
    assert_eq!(Profile::Baseline.name(), "baseline");
    assert_eq!(Profile::Main.name(), "main");
    assert_eq!(Profile::High.name(), "high");
    assert_eq!(Tune::Plain.tuning(false, false), "");
    assert_eq!(Tune::Plain.tuning(true, false), "fastdecode");
    assert_eq!(Tune::Plain.tuning(false, true), "zerolatency");
    assert_eq!(Tune::Plain.tuning(true, true), "fastdecode,zerolatency");
    assert_eq!(Tune::Film.tuning(false, false), "film");
    assert_eq!(Tune::Animation.tuning(true, true), "animation,fastdecode,zerolatency");
    assert_eq!(Tune::Grain.tuning(true, false), "grain,fastdecode");
    assert_eq!(Tune::StillImage.tuning(false, true), "stillimage,zerolatency");
    assert_eq!(Tune::Psnr.tuning(false, false), "psnr");
    assert_eq!(Tune::Ssim.tuning(false, false), "ssim");
}

#[test]
fn an_open_request_becomes_an_encoder_where_it_was_accepted() {
    let request = Setup::default().build(rgb(), 4, 6).unwrap();
    assert_eq!(request.opened(false).err(), Some(EncoderError));
    let encoder = request.opened(true).unwrap();
    assert_eq!(encoder.width(), 4);
    assert_eq!(encoder.height(), 6);
    assert_eq!(encoder.encoding(), rgb());
}

#[test]
fn an_encoder_takes_images_of_its_format_only() {
    let mut encoder = Encoder::from_raw(rgb(), 2, 2);
    let data = vec![0u8; 14];
    let image = Image::rgb(2, 2, &data).unwrap();
    let submission = encoder.encode(77, &image).unwrap();
    assert_eq!(submission.pts, 77);
    assert_eq!(submission.layout.plane_count, 1);
    assert_eq!(submission.layout.strides, [7, 0, 0, 0]);
    let wide = vec![0u8; 24];
    assert_eq!(encoder.encode(1, &Image::rgb(4, 2, &wide).unwrap()).err(), Some(EncoderError));
    assert_eq!(encoder.encode(1, &Image::rgb(2, 4, &wide).unwrap()).err(), Some(EncoderError));
    assert_eq!(encoder.encode(1, &Image::bgr(2, 2, &data).unwrap()).err(), Some(EncoderError));
    let flipped = Image::new(
        rgb().with(Modifier::VerticalFlip),
        2,
        2,
        &[Plane { stride: 7, data: &data }],
    )
    .unwrap();
    assert_eq!(encoder.encode(1, &flipped).err(), Some(EncoderError));
    assert!(encoder.encode(78, &image).is_ok());
}

#[test]
fn an_encoder_hands_out_no_more_than_it_was_given() {
    let mut encoder = Encoder::from_raw(rgb(), 2, 2);
    let data = vec![0u8; 12];
    assert_eq!(encoder.output(reply(3, &[1, 2, 3], 0)).err(), Some(EncoderError));
    assert_eq!(encoder.output(reply(0, &[], 0)).unwrap().map(|f| f.1), None);
    encoder.encode(0, &Image::rgb(2, 2, &data).unwrap()).unwrap();
    let (bytes, picture) = encoder.output(reply(3, &[1, 2, 3], 0)).unwrap().unwrap();
    assert_eq!(bytes.entirety(), &[1, 2, 3]);
    assert_eq!(bytes.len(), 3);
    assert_eq!(picture, Picture { pts: 0, dts: -1, keyframe: true });
    assert_eq!(picture.pts(), 0);
    assert_eq!(picture.dts(), -1);
    assert!(picture.keyframe());
    assert_eq!(encoder.output(reply(1, &[9], 5)).err(), Some(EncoderError));
}

#[test]
fn a_negative_status_is_a_failure() {
    let mut encoder = Encoder::from_raw(rgb(), 2, 2);
    let data = vec![0u8; 12];
    encoder.encode(0, &Image::rgb(2, 2, &data).unwrap()).unwrap();
    assert_eq!(encoder.output(reply(-1, &[1], 0)).err(), Some(EncoderError));
    assert_eq!(encoder.output(reply(i32::MIN, &[], 0)).err(), Some(EncoderError));
    assert!(encoder.output(reply(1, &[1], 0)).unwrap().is_some());
}

#[test]
fn headers_are_read_like_frames() {
    let encoder = Encoder::from_raw(rgb(), 2, 2);
    assert_eq!(encoder.headers(-1, vec![1, 2]).err(), Some(EncoderError));
    assert_eq!(encoder.headers(2, vec![1, 2]).unwrap().into_bytes(), vec![1, 2]);
    assert_eq!(encoder.headers(0, Vec::new()).unwrap().len(), 0);
}

#[test]
fn a_flush_drains_until_nothing_is_delayed() {
    let mut encoder = Encoder::from_raw(rgb(), 2, 2);
    let data = vec![0u8; 12];
    for pts in 0..3 {
        encoder.encode(pts, &Image::rgb(2, 2, &data).unwrap()).unwrap();
        assert!(encoder.output(reply(0, &[], 0)).unwrap().is_none());
    }
    let mut flush = encoder.flush();
    let mut seen = Vec::new();
    let mut delayed = 3;
    while flush.next(delayed) {
        let (bytes, picture) = flush.output(reply(1, &[delayed as u8], 3 - delayed as i64)).unwrap().unwrap();
        seen.push((bytes.into_bytes(), picture.pts));
        delayed -= 1;
    }
    assert_eq!(seen, vec![(vec![3], 0), (vec![2], 1), (vec![1], 2)]);
    assert!(!flush.next(5));
    assert_eq!(flush.output(reply(1, &[1], 0)).err(), Some(EncoderError));
}

#[test]
fn a_flush_of_an_idle_encoder_ends_at_once() {
    let mut flush = Encoder::from_raw(rgb(), 2, 2).flush();
    assert!(!flush.next(0));
    assert!(!flush.next(1));
    let mut flush = Encoder::from_raw(rgb(), 2, 2).flush();
    assert!(flush.next(-1));
    assert_eq!(flush.output(reply(-1, &[], 0)).err(), Some(EncoderError));
    assert!(flush.output(reply(0, &[], 0)).unwrap().is_none());
    assert_eq!(flush.output(reply(2, &[1, 2], 0)).err(), Some(EncoderError));
}
