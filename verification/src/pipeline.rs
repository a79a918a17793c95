//! The pipeline of one job: decode, encode and mux every frame, in order.
//!
//! The native encoder is driven from outside. The driver opens it with
//! [`Pipeline::encoder_request`], hands each [`Frame`] of
//! [`Session::next_frame`] to it, and hands every reply back; after the last
//! frame it drains the encoder as [`Draining::next`] tells it to.

use vstd::prelude::*;
use vstd::string::StringExecFns;
use crate::colorspace::{Colorspace, Encoding};
use crate::decoder::{decode, jpeg_pixels, DecodeFailure};
use crate::encoder::{Data, Encoder, EncoderError, Flush, Picture, Reply};
use crate::image::{Image, ImageError, RawImage, packed_violation, packed_stride, signed_stride};
use crate::muxer::{
    ContainerConfig, ContainerConfigView, ContainerModel, EncodedSample, MuxError, Muxer,
    SampleView, TrackConfig, TrackConfigView, container_bytes, duration_sum, file_type_box,
    file_type_code, head_written, lemma_file_type_box_head, sample_fits, sample_written,
    stored_samples,
};
use crate::request::{JobRequest, RequestError};
use crate::setup::{OpenRequest, Preset, Setup, Tune, Base, Step, BIT_DEPTH};
use crate::timing::{
    cumulative_at, in_order, in_order_at, lemma_cumulative_bounded,
    lemma_cumulative_closed_form, plan, timings, FrameTiming,
};

verus! {

/// Why a job failed.
#[derive(Clone, Debug, PartialEq, Eq)]
pub enum JobError {
    /// The request was refused before any work was done.
    Request(RequestError),
    /// The compressed image of a frame could not be decoded.
    Decode(DecodeFailure),
    /// The decoded pixels of the frame at `index` are no packed RGB image of
    /// the video's size.
    Image { index: usize, error: ImageError },
    /// The size of the first frame is not supported, or the encoder refused
    /// its parameters.
    EncoderConfiguration,
    /// The encoder failed, or handed out what it was not given.
    EncoderRuntime,
    /// The container could not be written.
    Mux(MuxError),
}

/// The reason of a failure of the container writer, as text.
pub open spec fn mux_reason(error: MuxError) -> Seq<char> {
    match error {
        MuxError::TrackAlreadyConfigured => "Track already configured"@,
        MuxError::InvalidTrack => "Track configuration cannot be written"@,
        MuxError::TrackNotFound(_) => "Track not found"@,
        MuxError::Capacity => "Sample does not fit the track"@,
        MuxError::Write(text) => text@,
    }
}

/// The reason of a geometry violation, as text.
pub open spec fn image_reason(error: ImageError) -> Seq<char> {
    match error {
        ImageError::PlaneCount { .. } => "Frame has the wrong number of planes"@,
        ImageError::Dimensions => "Frame size is no multiple of the pixel grouping"@,
        ImageError::Stride { .. } => "Frame rows are too short"@,
        ImageError::Rows { .. } => "Frame has too few rows"@,
    }
}

/// The reason of a failure, as text.
pub open spec fn reason_text(error: JobError) -> Seq<char> {
    match error {
        JobError::Request(RequestError::EmptyFrames) => "Frames empty"@,
        JobError::Request(RequestError::Base64(text)) => text@,
        JobError::Request(RequestError::Timestamps { .. }) => "Frame timestamps out of order"@,
        JobError::Decode(failure) => "Decode frame failed "@ + failure.reason@,
        JobError::Image { error, .. } => image_reason(error),
        JobError::EncoderConfiguration => "Create h264 encoder failed"@,
        JobError::EncoderRuntime => "Encode image to frame data failed"@,
        JobError::Mux(error) => mux_reason(error),
    }
}

/// One decimal digit as text.
pub open spec fn digit_text(d: int) -> Seq<char> {
    if d == 0 {
        "0"@
    } else if d == 1 {
        "1"@
    } else if d == 2 {
        "2"@
    } else if d == 3 {
        "3"@
    } else if d == 4 {
        "4"@
    } else if d == 5 {
        "5"@
    } else if d == 6 {
        "6"@
    } else if d == 7 {
        "7"@
    } else if d == 8 {
        "8"@
    } else {
        "9"@
    }
}

/// A number in decimal notation, without leading zeros.
pub open spec fn decimal_text(n: nat) -> Seq<char>
    decreases n,
{
    if n < 10 {
        digit_text(n as int)
    } else {
        decimal_text(n / 10) + digit_text((n % 10) as int)
    }
}

/// The position of the frame that a failure is about, where it is about one.
pub open spec fn failed_frame(error: JobError) -> Option<usize> {
    match error {
        JobError::Request(RequestError::Timestamps { index }) => Some(index),
        JobError::Decode(failure) => Some(failure.index),
        JobError::Image { index, .. } => Some(index),
        _ => None,
    }
}

/// What a caller is told of a failure: the reason, and the position of the
/// frame where the failure is about one.
pub open spec fn message_text(error: JobError) -> Seq<char> {
    match failed_frame(error) {
        Some(index) => reason_text(error) + " (frame "@ + decimal_text(index as nat) + ")"@,
        None => reason_text(error),
    }
}

fn digit(d: usize) -> (out: &'static str)
    requires
        d < 10,
    ensures
        out@ == digit_text(d as int),
{
    if d == 0 {
        "0"
    } else if d == 1 {
        "1"
    } else if d == 2 {
        "2"
    } else if d == 3 {
        "3"
    } else if d == 4 {
        "4"
    } else if d == 5 {
        "5"
    } else if d == 6 {
        "6"
    } else if d == 7 {
        "7"
    } else if d == 8 {
        "8"
    } else {
        "9"
    }
}

fn decimal(n: usize) -> (out: String)
    ensures
        out@ == decimal_text(n as nat),
    decreases n,
{
    if n < 10 {
        digit(n).to_owned()
    } else {
        decimal(n / 10).concat(digit(n % 10))
    }
}

impl JobError {
    /// Whether the failure is one of the request, found before any work was
    /// done, rather than one of the processing.
    pub open spec fn spec_is_request_level(&self) -> bool {
        self is Request
    }

    /// Whether the failure is one of the request, found before any work was
    /// done, rather than one of the processing.
    #[verifier::when_used_as_spec(spec_is_request_level)]
    pub fn is_request_level(&self) -> (out: bool)
        ensures
            out == self.spec_is_request_level(),
    {
        match self {
            JobError::Request(_) => true,
            _ => false,
        }
    }

    /// The position of the frame that the failure is about, where it is
    /// about one.
    pub fn frame_index(&self) -> (out: Option<usize>)
        ensures
            out == failed_frame(*self),
    {
        match self {
            JobError::Request(RequestError::Timestamps { index }) => Some(*index),
            JobError::Decode(failure) => Some(failure.index),
            JobError::Image { index, .. } => Some(*index),
            _ => None,
        }
    }

    /// What a caller is told of the failure: the reason, followed by the
    /// position of the frame in brackets where the failure is about a frame.
    pub fn message(&self) -> (out: String)
        ensures
            out@ == message_text(*self),
    {
        match self.frame_index() {
            Some(index) => self.reason().concat(" (frame ").concat(decimal(index).as_str()).concat(
                ")",
            ),
            None => self.reason(),
        }
    }

    /// The reason of the failure, for a human reader.
    pub fn reason(&self) -> (out: String)
        ensures
            out@ == reason_text(*self),
    {
        match self {
            JobError::Request(RequestError::EmptyFrames) => "Frames empty".to_owned(),
            JobError::Request(RequestError::Base64(text)) => text.clone(),
            JobError::Request(RequestError::Timestamps { .. }) => {
                "Frame timestamps out of order".to_owned()
            },
            JobError::Decode(failure) => "Decode frame failed ".to_owned().concat(
                failure.reason.as_str(),
            ),
            JobError::Image { error, .. } => match error {
                ImageError::PlaneCount { .. } => "Frame has the wrong number of planes".to_owned(),
                ImageError::Dimensions => {
                    "Frame size is no multiple of the pixel grouping".to_owned()
                },
                ImageError::Stride { .. } => "Frame rows are too short".to_owned(),
                ImageError::Rows { .. } => "Frame has too few rows".to_owned(),
            },
            JobError::EncoderConfiguration => "Create h264 encoder failed".to_owned(),
            JobError::EncoderRuntime => "Encode image to frame data failed".to_owned(),
            JobError::Mux(error) => match error {
                MuxError::TrackAlreadyConfigured => "Track already configured".to_owned(),
                MuxError::InvalidTrack => "Track configuration cannot be written".to_owned(),
                MuxError::TrackNotFound(_) => "Track not found".to_owned(),
                MuxError::Capacity => "Sample does not fit the track".to_owned(),
                MuxError::Write(text) => text.clone(),
            },
        }
    }
}

/// Units per second of the container and of its track: milliseconds.
pub const TIMESCALE: u32 = 1000;

/// The minor version of the container's major brand.
pub const MINOR_VERSION: u32 = 512;

/// The number of the video track, the only track.
pub const TRACK_ID: u32 = 1;

/// How much larger the video is than the device's viewport, each way.
pub const SCALE: u16 = 2;

/// The brand `isom`.
pub open spec fn brand_isom() -> Seq<u8> {
    seq![0x69u8, 0x73u8, 0x6fu8, 0x6du8]
}

/// The brand `iso2`.
pub open spec fn brand_iso2() -> Seq<u8> {
    seq![0x69u8, 0x73u8, 0x6fu8, 0x32u8]
}

/// The brand `avc1`.
pub open spec fn brand_avc1() -> Seq<u8> {
    seq![0x61u8, 0x76u8, 0x63u8, 0x31u8]
}

/// The brand `mp41`.
pub open spec fn brand_mp41() -> Seq<u8> {
    seq![0x6du8, 0x70u8, 0x34u8, 0x31u8]
}

/// The head of every container that a job makes.
pub open spec fn container_head() -> ContainerConfigView {
    ContainerConfigView {
        major_brand: brand_isom(),
        minor_version: MINOR_VERSION,
        compatible_brands: seq![brand_isom(), brand_iso2(), brand_avc1(), brand_mp41()],
        timescale: TIMESCALE,
    }
}

/// The sequence parameter set of every video: a fixed baseline configuration.
pub open spec fn sequence_parameters() -> Seq<u8> {
    seq![
        103u8, 66u8, 192u8, 50u8, 218u8, 0u8, 169u8, 3u8, 183u8, 185u8, 112u8, 22u8, 200u8, 0u8,
        0u8, 3u8, 0u8, 8u8, 0u8, 0u8, 3u8, 1u8, 144u8, 120u8, 193u8, 149u8,
    ]
}

/// The picture parameter set of every video.
pub open spec fn picture_parameters() -> Seq<u8> {
    seq![104u8, 206u8, 15u8, 200u8]
}

/// The track of a video of the given size.
pub open spec fn video_track(width: u16, height: u16) -> TrackConfigView {
    TrackConfigView {
        timescale: TIMESCALE,
        language: "und"@,
        width,
        height,
        seq_param_set: sequence_parameters(),
        pic_param_set: picture_parameters(),
    }
}

/// The sample that is written for frame `k` of a job when the encoder hands
/// out `bytes` for it: the frame's planned presentation time and duration,
/// and the sync flag for the first frame only.
pub open spec fn planned_sample(start: u64, stamps: Seq<u64>, k: int, bytes: Seq<u8>) -> SampleView {
    SampleView {
        start_time: timings(start, stamps)[k].cumulative,
        duration: timings(start, stamps)[k].duration as u32,
        is_sync: k == 0,
        bytes,
    }
}

/// What stands against writing a frame that the encoder handed out, after
/// what the container holds already: it is one frame too many or carries
/// another presentation timestamp than the next frame of the plan, which is a
/// failure of the encoder; or its duration does not fit 32 bits, or its
/// sample does not fit the container.
pub open spec fn verdict(
    request: &JobRequest,
    contents: ContainerModel,
    bytes: Seq<u8>,
    picture: Picture,
) -> Option<JobError> {
    let k = contents.samples.len() as int;
    let stamps = request.stamps();
    if k >= stamps.len() || picture.pts != timings(request.start_time, stamps)[k].cumulative {
        Some(JobError::EncoderRuntime)
    } else if timings(request.start_time, stamps)[k].duration > u32::MAX || !sample_fits(
        contents.written(),
        planned_sample(request.start_time, stamps, k, bytes).stored(),
    ) {
        Some(JobError::Mux(MuxError::Capacity))
    } else {
        None
    }
}

/// The container of a job's video with the given samples.
pub open spec fn job_container(width: u16, height: u16, samples: Seq<SampleView>) -> ContainerModel {
    ContainerModel {
        config: container_head(),
        tracks: seq![video_track(width, height)],
        samples,
    }
}

/// The bytes of each sample, in order.
pub open spec fn payloads(samples: Seq<SampleView>) -> Seq<Seq<u8>> {
    Seq::new(samples.len(), |k: int| samples[k].bytes)
}

/// The samples of a job whose encoder handed out the given bytes, frame by
/// frame.
pub open spec fn job_samples(request: &JobRequest, payloads: Seq<Seq<u8>>) -> Seq<SampleView> {
    Seq::new(
        payloads.len(),
        |k: int| planned_sample(request.start_time, request.stamps(), k, payloads[k]),
    )
}

/// The finished container of a job whose encoder handed out the given bytes,
/// frame by frame: a video twice the size of the first frame's viewport. None
/// where the container cannot be finished.
pub open spec fn job_output(request: &JobRequest, payloads: Seq<Seq<u8>>) -> Option<Seq<u8>> {
    container_bytes(
        job_container(
            (SCALE * request.frames@[0].device_width) as u16,
            (SCALE * request.frames@[0].device_height) as u16,
            job_samples(request, payloads),
        ).written(),
    )
}

/// The head of every container that a job makes.
pub fn container_config() -> (out: ContainerConfig)
    ensures
        out@ == container_head(),
{
    let isom: [u8; 4] = [0x69, 0x73, 0x6f, 0x6d];
    let iso2: [u8; 4] = [0x69, 0x73, 0x6f, 0x32];
    let avc1: [u8; 4] = [0x61, 0x76, 0x63, 0x31];
    let mp41: [u8; 4] = [0x6d, 0x70, 0x34, 0x31];
    let mut brands: Vec<[u8; 4]> = Vec::new();
    brands.push(isom);
    brands.push(iso2);
    brands.push(avc1);
    brands.push(mp41);
    let out = ContainerConfig {
        major_brand: isom,
        minor_version: MINOR_VERSION,
        compatible_brands: brands,
        timescale: TIMESCALE,
    };
    proof {
        assert(isom@ =~= brand_isom());
        assert(iso2@ =~= brand_iso2());
        assert(avc1@ =~= brand_avc1());
        assert(mp41@ =~= brand_mp41());
        assert(out@.compatible_brands =~= container_head().compatible_brands);
    }
    out
}

/// The track of a video of the given size.
pub fn track_config(width: u16, height: u16) -> (out: TrackConfig)
    ensures
        out@ == video_track(width, height),
{
    let sps: Vec<u8> = vec![
        103u8, 66u8, 192u8, 50u8, 218u8, 0u8, 169u8, 3u8, 183u8, 185u8, 112u8, 22u8, 200u8, 0u8,
        0u8, 3u8, 0u8, 8u8, 0u8, 0u8, 3u8, 1u8, 144u8, 120u8, 193u8, 149u8,
    ];
    let pps: Vec<u8> = vec![104u8, 206u8, 15u8, 200u8];
    proof {
        assert(sps@ =~= sequence_parameters());
        assert(pps@ =~= picture_parameters());
    }
    TrackConfig {
        timescale: TIMESCALE,
        language: "und".to_owned(),
        width,
        height,
        seq_param_set: sps,
        pic_param_set: pps,
    }
}

/// A job whose request has been accepted and whose timing is planned, before
/// the encoder is opened.
#[derive(Debug)]
pub struct Pipeline {
    request: JobRequest,
    plan: Vec<FrameTiming>,
    width: u16,
    height: u16,
}

impl Pipeline {
    /// The request of the job.
    pub closed spec fn request(&self) -> JobRequest {
        self.request
    }

    /// Width of the video, in pixels.
    pub closed spec fn width(&self) -> u16 {
        self.width
    }

    /// Height of the video, in pixels.
    pub closed spec fn height(&self) -> u16 {
        self.height
    }

    /// The invariant of a pipeline: its request is valid, its plan is the
    /// timing of the request's frames, and the video is twice as wide and as
    /// high as the first frame's viewport.
    pub closed spec fn wf(&self) -> bool {
        &&& self.request.is_valid()
        &&& self.plan@ == timings(self.request.start_time, self.request.stamps())
        &&& self.width == SCALE * self.request.frames@[0].device_width
        &&& self.height == SCALE * self.request.frames@[0].device_height
    }

    /// Whether a request is accepted: it has a frame, its timestamps are in
    /// order, and the doubled size of its first frame fits the track's
    /// 16-bit size.
    pub open spec fn acceptable(request: &JobRequest) -> bool {
        &&& request.is_valid()
        &&& SCALE * request.frames@[0].device_width <= u16::MAX
        &&& SCALE * request.frames@[0].device_height <= u16::MAX
    }

    /// What a request is refused for, if it is: no frame, then timestamps out
    /// of order, then a first frame whose doubled size does not fit the
    /// track's 16-bit size.
    pub open spec fn refusal(request: &JobRequest, error: JobError) -> bool {
        let stamps = request.stamps();
        if request.frames@.len() == 0 {
            error == JobError::Request(RequestError::EmptyFrames)
        } else if !in_order(request.start_time, stamps) {
            &&& error matches JobError::Request(RequestError::Timestamps { index })
            &&& index < stamps.len()
            &&& !in_order_at(request.start_time, stamps, index as int)
            &&& forall|k: int| 0 <= k < index ==> in_order_at(request.start_time, stamps, k)
        } else {
            &&& error == JobError::EncoderConfiguration
            &&& (SCALE * request.frames@[0].device_width > u16::MAX || SCALE
                * request.frames@[0].device_height > u16::MAX)
        }
    }

    /// Accepts a request and plans its timing. Nothing is opened.
    ///
    /// Succeeds exactly where the request is acceptable; otherwise the error
    /// is that of the refusal.
    pub fn start(request: JobRequest) -> (out: Result<Pipeline, JobError>)
        ensures
            out is Ok <==> Self::acceptable(&request),
            match out {
                Ok(pipeline) => {
                    &&& pipeline.wf()
                    &&& pipeline.request() == request
                    &&& pipeline.width() == SCALE * request.frames@[0].device_width
                    &&& pipeline.height() == SCALE * request.frames@[0].device_height
                },
                Err(error) => Self::refusal(&request, error),
            },
    {
        let count: usize = request.frames.len();
        if count == 0 {
            return Err(JobError::Request(RequestError::EmptyFrames));
        }
        let stamps: Vec<u64> = request.timestamps();
        let planned = match plan(request.start_time, &stamps) {
            Ok(planned) => planned,
            Err(e) => {
                return Err(JobError::Request(RequestError::Timestamps { index: e.index }));
            },
        };
        let device_width: u16 = request.frames[0].device_width;
        let device_height: u16 = request.frames[0].device_height;
        if device_width > u16::MAX / SCALE || device_height > u16::MAX / SCALE {
            return Err(JobError::EncoderConfiguration);
        }
        Ok(
            Pipeline {
                request,
                plan: planned,
                width: SCALE * device_width,
                height: SCALE * device_height,
            },
        )
    }

    /// What the native encoder is to be opened with: the fastest preset but
    /// two, tuned for animation, fast decoding and zero latency, for packed
    /// RGB images of the video's size. It never fails.
    pub fn encoder_request(&self) -> (out: Result<OpenRequest, EncoderError>)
        ensures
            out matches Ok(request) && {
                &&& request.base == (Base::Preset {
                    preset: Preset::Veryfast,
                    tune: Tune::Animation,
                    fast_decode: true,
                    zero_latency: true,
                })
                &&& request.steps@ == Seq::<Step>::empty()
                &&& request.encoding == Encoding::spec_plain(Colorspace::RGB)
                &&& request.width == self.width()
                &&& request.height == self.height()
                &&& request.bit_depth == BIT_DEPTH
            },
    {
        Setup::preset(Preset::Veryfast, Tune::Animation, true, true).build(
            Encoding::plain(Colorspace::RGB),
            self.width as u32,
            self.height as u32,
        )
    }

    /// Goes on once the driver has tried to open the native encoder: opens
    /// the container and registers the video track.
    ///
    /// Fails with `EncoderConfiguration` exactly where the encoder was not
    /// accepted. Otherwise it succeeds exactly where the container writer
    /// writes the head; the session then has the head and the track of the
    /// video, and no sample.
    pub fn open(self, accepted: bool) -> (out: Result<Session, JobError>)
        requires
            self.wf(),
        ensures
            !accepted ==> out matches Err(JobError::EncoderConfiguration),
            accepted ==> (out is Ok <==> head_written(container_head())),
            accepted ==> match out {
                Ok(session) => {
                    &&& session.wf()
                    &&& session.request() == self.request()
                    &&& session.width() == self.width()
                    &&& session.height() == self.height()
                    &&& session.submitted() == 0
                    &&& session.samples() == Seq::<SampleView>::empty()
                },
                Err(e) => e matches JobError::Mux(MuxError::Write(_)),
            },
    {
        let encoder = match self.encoder_request() {
            Ok(request) => match request.opened(accepted) {
                Ok(encoder) => encoder,
                Err(_) => {
                    return Err(JobError::EncoderConfiguration);
                },
            },
            Err(_) => {
                return Err(JobError::EncoderConfiguration);
            },
        };
        let mut muxer = match Muxer::open(&container_config()) {
            Ok(muxer) => muxer,
            Err(e) => {
                return Err(JobError::Mux(e));
            },
        };
        let track = track_config(self.width, self.height);
        proof {
            muxer.lemma_wf();
        }
        match muxer.add_track(&track) {
            Ok(_) => {},
            Err(e) => {
                return Err(JobError::Mux(e));
            },
        }
        Ok(
            Session {
                sink: Sink {
                    request: self.request,
                    plan: self.plan,
                    width: self.width,
                    height: self.height,
                    muxer,
                    written: 0,
                },
                encoder,
                next: 0,
            },
        )
    }
}

/// One image on its way to the native encoder.
#[derive(Debug)]
pub struct Frame {
    /// Presentation timestamp of the frame.
    pub pts: i64,
    /// Layout of the image: one plane of packed RGB.
    pub layout: RawImage,
    /// The pixels of the image.
    pub pixels: Vec<u8>,
    /// Width of the image, in pixels.
    pub width: u32,
    /// Height of the image, in pixels.
    pub height: u32,
}

/// What a job has written: the container, and how far the plan has got.
#[derive(Debug)]
struct Sink {
    request: JobRequest,
    plan: Vec<FrameTiming>,
    width: u16,
    height: u16,
    muxer: Muxer,
    written: usize,
}

impl Sink {
    spec fn stamps(&self) -> Seq<u64> {
        self.request.stamps()
    }

    spec fn wf(&self) -> bool {
        &&& self.request.is_valid()
        &&& self.plan@ == timings(self.request.start_time, self.stamps())
        &&& self.width == SCALE * self.request.frames@[0].device_width
        &&& self.height == SCALE * self.request.frames@[0].device_height
        &&& self.muxer.wf()
        &&& self.muxer@.config == container_head()
        &&& self.muxer@.tracks == seq![video_track(self.width, self.height)]
        &&& self.muxer@.samples.len() == self.written
        &&& self.written <= self.plan@.len()
        &&& forall|k: int|
            0 <= k < self.written ==> #[trigger] self.muxer@.samples[k] == planned_sample(
                self.request.start_time,
                self.stamps(),
                k,
                self.muxer@.samples[k].bytes,
            )
    }

    fn write(&mut self, data: Data, picture: Picture) -> (out: Result<(), JobError>)
        requires
            old(self).wf(),
        ensures
            match verdict(&old(self).request, old(self).muxer@, data@, picture) {
                Some(e) => out == Err::<(), JobError>(e),
                None => {
                    let sample = planned_sample(
                        old(self).request.start_time,
                        old(self).stamps(),
                        old(self).written as int,
                        data@,
                    );
                    &&& out is Ok <==> sample_written(old(self).muxer@.written(), sample.stored())
                    &&& out is Ok ==> {
                        &&& final(self).wf()
                        &&& final(self).written == old(self).written + 1
                        &&& final(self).muxer@.samples == old(self).muxer@.samples.push(sample)
                    }
                    &&& out matches Err(e) ==> e matches JobError::Mux(MuxError::Write(_))
                },
            },
            out is Ok ==> {
                &&& final(self).request == old(self).request
                &&& final(self).width == old(self).width
                &&& final(self).height == old(self).height
            },
    {
        let k: usize = self.written;
        if k >= self.plan.len() {
            return Err(JobError::EncoderRuntime);
        }
        let timing: FrameTiming = self.plan[k];
        if picture.pts < 0 || picture.pts as u64 != timing.cumulative {
            return Err(JobError::EncoderRuntime);
        }
        if timing.duration > u32::MAX as u64 {
            return Err(JobError::Mux(MuxError::Capacity));
        }
        let sample = EncodedSample {
            start_time: timing.cumulative,
            duration: timing.duration as u32,
            is_sync: k == 0,
            bytes: data.into_bytes(),
        };
        match self.muxer.write_sample(TRACK_ID, &sample) {
            Ok(_) => {
                self.written = k + 1;
                Ok(())
            },
            Err(e) => Err(JobError::Mux(e)),
        }
    }
}

/// A job whose encoder is open and takes frames.
#[derive(Debug)]
pub struct Session {
    sink: Sink,
    encoder: Encoder,
    next: usize,
}

impl Session {
    /// The request of the job.
    pub closed spec fn request(&self) -> JobRequest {
        self.sink.request
    }

    /// Width of the video, in pixels.
    pub closed spec fn width(&self) -> u16 {
        self.sink.width
    }

    /// Height of the video, in pixels.
    pub closed spec fn height(&self) -> u16 {
        self.sink.height
    }

    /// Number of frames handed out for encoding.
    pub closed spec fn submitted(&self) -> nat {
        self.next as nat
    }

    /// The samples written to the container, in order.
    pub closed spec fn samples(&self) -> Seq<SampleView> {
        self.sink.muxer@.samples
    }

    /// The state of the encoder's protocol.
    pub closed spec fn encoder(&self) -> Encoder {
        self.encoder
    }

    /// What the container holds: the head and the track of the video, and
    /// the samples written.
    pub open spec fn container(&self) -> ContainerModel {
        job_container(self.width(), self.height(), self.samples())
    }

    /// The invariant of a session. Among other things, the encoder takes
    /// packed RGB images of the video's size, has been handed as many images
    /// as frames were handed out, and has handed out as many frames as
    /// samples were written.
    pub closed spec fn wf(&self) -> bool {
        &&& self.sink.wf()
        &&& self.encoder.wf()
        &&& self.encoder.spec_encoding() == Encoding::spec_plain(Colorspace::RGB)
        &&& self.encoder.spec_width() == self.sink.width
        &&& self.encoder.spec_height() == self.sink.height
        &&& self.encoder.phase() is Ready || self.encoder.phase() is Encoding
        &&& self.encoder.submitted() == self.next
        &&& self.encoder.delivered() == self.sink.written
        &&& self.next <= self.sink.request.frames@.len()
    }

    /// Whether `self` is `before` but for the frames handed out and the
    /// samples written.
    pub open spec fn continues(&self, before: &Session) -> bool {
        &&& self.request() == before.request()
        &&& self.width() == before.width()
        &&& self.height() == before.height()
    }

    /// In a session, every sample written is the planned sample of its
    /// frame: it has the frame's presentation time and duration, and it is
    /// a sync sample exactly if it is the first. No more samples are written
    /// than frames were handed out, nor more frames handed out than the
    /// request has.
    pub proof fn lemma_samples_follow_plan(&self)
        requires
            self.wf(),
        ensures
            self.samples().len() <= self.submitted() <= self.request().frames@.len(),
            self.encoder().submitted() == self.submitted(),
            self.encoder().delivered() == self.samples().len(),
            forall|k: int|
                0 <= k < self.samples().len() ==> #[trigger] self.samples()[k] == planned_sample(
                    self.request().start_time,
                    self.request().stamps(),
                    k,
                    self.samples()[k].bytes,
                ),
    {
    }

    /// The next frame to hand to the native encoder, if any is left: decodes
    /// the frame's image, checks the pixels as a packed RGB image of the
    /// video's size, and stamps it with the planned presentation time.
    ///
    /// Returns nothing once every frame has been handed out. Fails where the
    /// decoder fails, with the frame's position; then where the pixels break
    /// a rule of the image's geometry, with that rule; then, with
    /// `EncoderRuntime`, where the presentation time does not fit the
    /// encoder's signed timestamp.
    pub fn next_frame(&mut self) -> (out: Result<Option<Frame>, JobError>)
        requires
            old(self).wf(),
        ensures
            match out {
                Ok(None) => {
                    &&& old(self).submitted() == old(self).request().frames@.len()
                    &&& final(self).wf()
                    &&& final(self).continues(old(self))
                    &&& final(self).submitted() == old(self).submitted()
                    &&& final(self).samples() == old(self).samples()
                    &&& final(self).encoder() == old(self).encoder()
                },
                Ok(Some(frame)) => {
                    let i = old(self).submitted() as int;
                    let request = old(self).request();
                    &&& i < request.frames@.len()
                    &&& frame.pixels@ == jpeg_pixels(request.frames@[i].data@)
                    &&& packed_violation(
                        Colorspace::RGB,
                        old(self).width() as u32,
                        old(self).height() as u32,
                        frame.pixels@.len(),
                    ) is None
                    &&& frame.pts == timings(request.start_time, request.stamps())[i].cumulative
                    &&& frame.width == old(self).width()
                    &&& frame.height == old(self).height()
                    &&& frame.layout.plane_count == 1
                    &&& frame.layout.strides[0] == signed_stride(
                        packed_stride(frame.pixels@.len(), frame.height)->Some_0,
                    )
                    &&& forall|k: int| 1 <= k < 4 ==> #[trigger] frame.layout.strides[k] == 0
                    &&& final(self).wf()
                    &&& final(self).continues(old(self))
                    &&& final(self).submitted() == old(self).submitted() + 1
                    &&& final(self).samples() == old(self).samples()
                },
                Err(JobError::Decode(e)) => {
                    let i = old(self).submitted() as int;
                    &&& i < old(self).request().frames@.len()
                    &&& e.index == i
                },
                Err(JobError::Image { index, error }) => {
                    let i = old(self).submitted() as int;
                    let request = old(self).request();
                    &&& i < request.frames@.len()
                    &&& index == i
                    &&& packed_violation(
                        Colorspace::RGB,
                        old(self).width() as u32,
                        old(self).height() as u32,
                        jpeg_pixels(request.frames@[i].data@).len(),
                    ) == Some(error)
                },
                Err(JobError::EncoderRuntime) => {
                    let i = old(self).submitted() as int;
                    let request = old(self).request();
                    &&& i < request.frames@.len()
                    &&& packed_violation(
                        Colorspace::RGB,
                        old(self).width() as u32,
                        old(self).height() as u32,
                        jpeg_pixels(request.frames@[i].data@).len(),
                    ) is None
                    &&& timings(request.start_time, request.stamps())[i].cumulative > i64::MAX
                },
                Err(_) => false,
            },
    {
        let i: usize = self.next;
        if i >= self.sink.request.frames.len() {
            return Ok(None);
        }
        let pixels: Vec<u8> = match decode(i, self.sink.request.frames[i].data.as_slice()) {
            Ok(pixels) => pixels,
            Err(e) => {
                return Err(JobError::Decode(e));
            },
        };
        let width: u32 = self.sink.width as u32;
        let height: u32 = self.sink.height as u32;
        let timing: FrameTiming = self.sink.plan[i];
        let layout: RawImage = {
            let image = match Image::rgb(width, height, pixels.as_slice()) {
                Ok(image) => image,
                Err(error) => {
                    return Err(JobError::Image { index: i, error });
                },
            };
            if timing.cumulative > i64::MAX as u64 {
                return Err(JobError::EncoderRuntime);
            }
            match self.encoder.encode(timing.cumulative as i64, &image) {
                Ok(submission) => submission.layout,
                Err(_) => {
                    return Err(JobError::EncoderRuntime);
                },
            }
        };
        self.next = i + 1;
        Ok(Some(Frame { pts: timing.cumulative as i64, layout, pixels, width, height }))
    }

    /// Takes what the native encoder handed back for a frame, and writes the
    /// sample of the frame that it completed, if it completed one.
    ///
    /// Fails with `EncoderRuntime` where the reply is a failure or holds a
    /// frame that the encoder cannot have completed, and with the verdict on
    /// the frame where there is one. Otherwise it succeeds exactly where the
    /// container writer writes the sample.
    pub fn output(&mut self, reply: Reply) -> (out: Result<(), JobError>)
        requires
            old(self).wf(),
        ensures
            match old(self).encoder().outcome(reply) {
                Err(_) => out == Err::<(), JobError>(JobError::EncoderRuntime),
                Ok(None) => {
                    &&& out is Ok
                    &&& final(self).samples() == old(self).samples()
                },
                Ok(Some(frame)) => match verdict(
                    &old(self).request(),
                    old(self).container(),
                    frame.0,
                    frame.1,
                ) {
                    Some(e) => out == Err::<(), JobError>(e),
                    None => {
                        let sample = planned_sample(
                            old(self).request().start_time,
                            old(self).request().stamps(),
                            old(self).samples().len() as int,
                            frame.0,
                        );
                        &&& out is Ok <==> sample_written(
                            old(self).container().written(),
                            sample.stored(),
                        )
                        &&& out is Ok ==> final(self).samples() == old(self).samples().push(
                            sample,
                        )
                        &&& out matches Err(e) ==> e matches JobError::Mux(MuxError::Write(_))
                    },
                },
            },
            out is Ok ==> {
                &&& final(self).wf()
                &&& final(self).continues(old(self))
                &&& final(self).submitted() == old(self).submitted()
            },
    {
        proof {
            assert(self.sink.muxer@ == self.container());
        }
        match self.encoder.output(reply) {
            Err(_) => Err(JobError::EncoderRuntime),
            Ok(None) => Ok(()),
            Ok(Some((data, picture))) => self.sink.write(data, picture),
        }
    }

    /// Ends the feeding of frames and begins to drain the encoder.
    pub fn flush(self) -> (out: Draining)
        requires
            self.wf(),
        ensures
            out.wf(),
            out.request() == self.request(),
            out.width() == self.width(),
            out.height() == self.height(),
            out.samples() == self.samples(),
            out.submitted() == self.submitted(),
            out.is_closed() == false,
    {
        Draining { sink: self.sink, flush: self.encoder.flush() }
    }
}

/// A job whose frames have all been handed out and whose encoder is being
/// drained.
#[derive(Debug)]
pub struct Draining {
    sink: Sink,
    flush: Flush,
}

impl Draining {
    /// The request of the job.
    pub closed spec fn request(&self) -> JobRequest {
        self.sink.request
    }

    /// Width of the video, in pixels.
    pub closed spec fn width(&self) -> u16 {
        self.sink.width
    }

    /// Height of the video, in pixels.
    pub closed spec fn height(&self) -> u16 {
        self.sink.height
    }

    /// Number of frames that were handed out for encoding.
    pub closed spec fn submitted(&self) -> nat {
        self.flush.encoder().submitted()
    }

    /// The samples written to the container, in order.
    pub closed spec fn samples(&self) -> Seq<SampleView> {
        self.sink.muxer@.samples
    }

    /// The state of the encoder's protocol.
    pub closed spec fn encoder(&self) -> Encoder {
        self.flush.encoder()
    }

    /// What the container holds: the head and the track of the video, and
    /// the samples written.
    pub open spec fn container(&self) -> ContainerModel {
        job_container(self.width(), self.height(), self.samples())
    }

    /// Whether the encoder has been drained.
    pub closed spec fn is_closed(&self) -> bool {
        self.flush.encoder().phase() is Closed
    }

    /// The invariant of a draining job: that of its session, with an encoder
    /// that is flushing or closed.
    pub closed spec fn wf(&self) -> bool {
        &&& self.sink.wf()
        &&& self.flush.wf()
        &&& self.flush.encoder().delivered() == self.sink.written
    }

    /// Whether `self` is `before` but for the samples written and the
    /// encoder's phase.
    pub open spec fn continues(&self, before: &Draining) -> bool {
        &&& self.request() == before.request()
        &&& self.width() == before.width()
        &&& self.height() == before.height()
        &&& self.submitted() == before.submitted()
    }

    /// While a job drains, every sample written is the planned sample of
    /// its frame: it has the frame's presentation time and duration, and it
    /// is a sync sample exactly if it is the first.
    pub proof fn lemma_samples_follow_plan(&self)
        requires
            self.wf(),
        ensures
            self.samples().len() <= self.request().frames@.len(),
            self.encoder().delivered() == self.samples().len(),
            forall|k: int|
                0 <= k < self.samples().len() ==> #[trigger] self.samples()[k] == planned_sample(
                    self.request().start_time,
                    self.request().stamps(),
                    k,
                    self.samples()[k].bytes,
                ),
    {
    }

    /// What a draining job has written is determined by its request and by
    /// the bytes that the encoder handed out: two jobs with the same request
    /// and the same bytes from the encoder make the same container.
    pub proof fn lemma_container_is_determined(&self)
        requires
            self.wf(),
        ensures
            self.samples() == job_samples(&self.request(), payloads(self.samples())),
            container_bytes(self.container().written()) == job_output(
                &self.request(),
                payloads(self.samples()),
            ),
    {
        assert(self.samples() =~= job_samples(&self.request(), payloads(self.samples())));
    }

    /// Says whether the native encoder is to be drained once more, given the
    /// number of frames that it reports as delayed: it is, exactly while it
    /// has not been found empty before and frames are delayed.
    pub fn next(&mut self, delayed: i32) -> (out: bool)
        requires
            old(self).wf(),
        ensures
            final(self).wf(),
            final(self).continues(old(self)),
            final(self).samples() == old(self).samples(),
            out == (!old(self).is_closed() && delayed != 0),
            final(self).is_closed() == !out,
    {
        self.flush.next(delayed)
    }

    /// Takes what the native encoder handed back from a draining call, and
    /// writes the sample of the frame that it completed, if it completed
    /// one. It fails as [`Session::output`] does.
    pub fn output(&mut self, reply: Reply) -> (out: Result<(), JobError>)
        requires
            old(self).wf(),
        ensures
            match old(self).encoder().outcome(reply) {
                Err(_) => out == Err::<(), JobError>(JobError::EncoderRuntime),
                Ok(None) => {
                    &&& out is Ok
                    &&& final(self).samples() == old(self).samples()
                },
                Ok(Some(frame)) => match verdict(
                    &old(self).request(),
                    old(self).container(),
                    frame.0,
                    frame.1,
                ) {
                    Some(e) => out == Err::<(), JobError>(e),
                    None => {
                        let sample = planned_sample(
                            old(self).request().start_time,
                            old(self).request().stamps(),
                            old(self).samples().len() as int,
                            frame.0,
                        );
                        &&& out is Ok <==> sample_written(
                            old(self).container().written(),
                            sample.stored(),
                        )
                        &&& out is Ok ==> final(self).samples() == old(self).samples().push(
                            sample,
                        )
                        &&& out matches Err(e) ==> e matches JobError::Mux(MuxError::Write(_))
                    },
                },
            },
            out is Ok ==> {
                &&& final(self).wf()
                &&& final(self).continues(old(self))
                &&& final(self).is_closed() == old(self).is_closed()
            },
    {
        proof {
            assert(self.sink.muxer@ == self.container());
        }
        match self.flush.output(reply) {
            Err(_) => Err(JobError::EncoderRuntime),
            Ok(None) => Ok(()),
            Ok(Some((data, picture))) => self.sink.write(data, picture),
        }
    }

    /// Finishes the container and hands out its bytes.
    ///
    /// Fails with `EncoderRuntime` where the encoder has not handed out
    /// every frame of the request. Otherwise it succeeds exactly where the
    /// container writer finishes the container. The bytes are then the
    /// container of the video with the samples written, one for each frame,
    /// and they begin with the file-type box: its length, then the type
    /// code `ftyp`.
    pub fn finish(self) -> (out: Result<Vec<u8>, JobError>)
        requires
            self.wf(),
        ensures
            self.samples().len() != self.request().frames@.len() ==> out == Err::<
                Vec<u8>,
                JobError,
            >(JobError::EncoderRuntime),
            self.samples().len() == self.request().frames@.len() ==> match job_output(
                &self.request(),
                payloads(self.samples()),
            ) {
                Some(bytes) => {
                    &&& out matches Ok(v)
                    &&& v@ == bytes
                    &&& container_bytes(self.container().written()) == Some(bytes)
                    &&& file_type_box(container_head()).is_prefix_of(bytes)
                    &&& bytes.len() >= 32
                    &&& bytes.subrange(4, 8) == file_type_code()
                },
                None => out matches Err(JobError::Mux(MuxError::Write(_))),
            },
    {
        if self.sink.written != self.sink.request.frames.len() {
            return Err(JobError::EncoderRuntime);
        }
        proof {
            self.lemma_container_is_determined();
            lemma_file_type_box_head(container_head());
            lemma_container_head_length();
            assert(self.sink.muxer@ == self.container());
        }
        match self.sink.muxer.finalize() {
            Ok(bytes) => {
                proof {
                    let head = file_type_box(container_head());
                    assert(bytes@.subrange(4, 8) =~= head.subrange(4, 8));
                }
                Ok(bytes)
            },
            Err(e) => Err(JobError::Mux(e)),
        }
    }
}

/// Two jobs with the same request whose encoders handed out the same bytes,
/// frame by frame, hold the same container, and finish alike: with the same
/// bytes, or both without.
pub proof fn lemma_same_job_same_container(a: &Draining, b: &Draining)
    requires
        a.wf(),
        b.wf(),
        a.request() == b.request(),
        payloads(a.samples()) == payloads(b.samples()),
    ensures
        a.samples() == b.samples(),
        a.container() == b.container(),
        container_bytes(a.container().written()) == container_bytes(b.container().written()),
{
    a.lemma_container_is_determined();
    b.lemma_container_is_determined();
}

/// In the samples of a job, as far as their durations fit 32 bits, the
/// durations that the container writer keeps of the samples before a sample
/// add up to the presentation time that the muxer keeps of it: every sample
/// starts where its predecessor ends, and the first starts at zero.
pub proof fn lemma_samples_start_where_predecessors_end(
    request: &JobRequest,
    payloads: Seq<Seq<u8>>,
    k: int,
)
    requires
        request.is_valid(),
        payloads.len() <= request.frames@.len(),
        0 <= k <= payloads.len(),
        forall|j: int|
            0 <= j < k ==> (#[trigger] timings(request.start_time, request.stamps())[j]).duration
                <= u32::MAX,
    ensures
        duration_sum(stored_samples(job_samples(request, payloads).subrange(0, k)))
            == cumulative_at(request.start_time, request.stamps(), k),
        k < payloads.len() ==> job_samples(request, payloads)[k].start_time == duration_sum(
            stored_samples(job_samples(request, payloads).subrange(0, k)),
        ),
    decreases k,
{
    let start = request.start_time;
    let stamps = request.stamps();
    let samples = job_samples(request, payloads);
    lemma_cumulative_closed_form(start, stamps, k);
    lemma_cumulative_bounded(start, stamps, k);
    if k > 0 {
        lemma_samples_start_where_predecessors_end(request, payloads, k - 1);
        lemma_cumulative_closed_form(start, stamps, k - 1);
        assert(in_order_at(start, stamps, k - 1));
        let kept = stored_samples(samples.subrange(0, k));
        assert(kept.drop_last() =~= stored_samples(samples.subrange(0, k - 1)));
        assert(kept.last() == samples[k - 1].stored());
    }
}

/// The file-type box of a job's container is 32 bytes long.
pub proof fn lemma_container_head_length()
    ensures
        file_type_box(container_head()).len() == 32,
{
    let brands = container_head().compatible_brands;
    reveal_with_fuel(crate::muxer::brand_bytes, 5);
    assert(brands.drop_last() =~= seq![brand_isom(), brand_iso2(), brand_avc1()]);
    assert(brands.drop_last().drop_last() =~= seq![brand_isom(), brand_iso2()]);
    assert(brands.drop_last().drop_last().drop_last() =~= seq![brand_isom()]);
    assert(brands.drop_last().drop_last().drop_last().drop_last() =~= Seq::<Seq<u8>>::empty());
}

} // verus!
