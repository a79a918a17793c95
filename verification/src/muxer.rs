//! The container writer: one video track of encoded samples in an MP4 file
//! that is built in memory.
//!
//! The boxes are written by the `mp4` crate. What is proved here is the order
//! of the calls, what has been handed to the writer at each point, and that
//! nothing is handed to it on which it would fail an arithmetic check.

use vstd::prelude::*;
use std::io::Cursor;
use mp4::Mp4Writer;

verus! {

/// The writer of the `mp4` crate. Nothing of its inside is visible here.
#[verifier::external_type_specification]
#[verifier::external_body]
#[verifier::reject_recursive_types(W)]
pub struct ExMp4Writer<W>(Mp4Writer<W>);

/// The in-memory cursor of the standard library that the writer writes to.
#[verifier::external_type_specification]
#[verifier::external_body]
#[verifier::reject_recursive_types(T)]
pub struct ExCursor<T>(Cursor<T>);

/// The error type of the `mp4` crate.
#[verifier::external_type_specification]
#[verifier::external_body]
pub struct ExMp4Error(mp4::Error);

/// What the head of a container says: its brands and the timescale of the
/// whole file.
#[derive(Clone, Debug, PartialEq, Eq)]
pub struct ContainerConfig {
    pub major_brand: [u8; 4],
    pub minor_version: u32,
    pub compatible_brands: Vec<[u8; 4]>,
    pub timescale: u32,
}

/// The configuration of the video track.
#[derive(Clone, Debug, PartialEq, Eq)]
pub struct TrackConfig {
    /// Units per second of the track's durations.
    pub timescale: u32,
    /// Language tag of the track.
    pub language: String,
    /// Frame width, in pixels.
    pub width: u16,
    /// Frame height, in pixels.
    pub height: u16,
    /// The codec's sequence parameter set.
    pub seq_param_set: Vec<u8>,
    /// The codec's picture parameter set.
    pub pic_param_set: Vec<u8>,
}

/// One encoded access unit with its timing.
#[derive(Clone, Debug, PartialEq, Eq)]
pub struct EncodedSample {
    /// Presentation time, in units of the track's timescale.
    pub start_time: u64,
    /// Duration, in units of the track's timescale.
    pub duration: u32,
    /// Whether the sample can be decoded without the ones before it.
    pub is_sync: bool,
    /// The encoded bytes.
    pub bytes: Vec<u8>,
}

/// Why the container writer refused a call or failed.
#[derive(Clone, Debug, PartialEq, Eq)]
pub enum MuxError {
    /// A track was configured although one is configured already.
    TrackAlreadyConfigured,
    /// The track configuration cannot be written: its timescale is zero, or
    /// its sequence parameter set is shorter than the four bytes that the
    /// track description is made from.
    InvalidTrack,
    /// A sample was written to a track that does not exist.
    TrackNotFound(u32),
    /// The sample does not fit the 32-bit counters of the sample table.
    Capacity,
    /// The underlying writer failed; the text is its reason.
    Write(String),
}

/// Mathematical value of a [`ContainerConfig`].
pub struct ContainerConfigView {
    pub major_brand: Seq<u8>,
    pub minor_version: u32,
    pub compatible_brands: Seq<Seq<u8>>,
    pub timescale: u32,
}

/// Mathematical value of a [`TrackConfig`].
pub struct TrackConfigView {
    pub timescale: u32,
    pub language: Seq<char>,
    pub width: u16,
    pub height: u16,
    pub seq_param_set: Seq<u8>,
    pub pic_param_set: Seq<u8>,
}

/// Mathematical value of an [`EncodedSample`].
pub struct SampleView {
    pub start_time: u64,
    pub duration: u32,
    pub is_sync: bool,
    pub bytes: Seq<u8>,
}

/// What a container writer keeps of a sample: everything but the
/// presentation time, which a reader of the container works out from the
/// durations.
pub struct StoredSample {
    pub duration: u32,
    pub is_sync: bool,
    pub bytes: Seq<u8>,
}

/// What a container writer holds: the head it was started with, the tracks
/// registered, and what it keeps of the samples written, in order.
pub struct WriterModel {
    pub config: ContainerConfigView,
    pub tracks: Seq<TrackConfigView>,
    pub samples: Seq<StoredSample>,
}

/// Everything that has been handed to a muxer: the head it was started with,
/// the tracks registered, and the samples written, in order.
pub struct ContainerModel {
    pub config: ContainerConfigView,
    pub tracks: Seq<TrackConfigView>,
    pub samples: Seq<SampleView>,
}

impl SampleView {
    /// What a container writer keeps of the sample.
    pub open spec fn stored(self) -> StoredSample {
        StoredSample { duration: self.duration, is_sync: self.is_sync, bytes: self.bytes }
    }
}

/// What a container writer keeps of each sample, in order.
pub open spec fn stored_samples(samples: Seq<SampleView>) -> Seq<StoredSample> {
    Seq::new(samples.len(), |i: int| samples[i].stored())
}

impl ContainerModel {
    /// What the container writer holds of the model.
    pub open spec fn written(self) -> WriterModel {
        WriterModel {
            config: self.config,
            tracks: self.tracks,
            samples: stored_samples(self.samples),
        }
    }
}

impl View for ContainerConfig {
    type V = ContainerConfigView;

    open spec fn view(&self) -> ContainerConfigView {
        ContainerConfigView {
            major_brand: self.major_brand@,
            minor_version: self.minor_version,
            compatible_brands: Seq::new(
                self.compatible_brands@.len(),
                |i: int| self.compatible_brands@[i]@,
            ),
            timescale: self.timescale,
        }
    }
}

impl View for TrackConfig {
    type V = TrackConfigView;

    open spec fn view(&self) -> TrackConfigView {
        TrackConfigView {
            timescale: self.timescale,
            language: self.language@,
            width: self.width,
            height: self.height,
            seq_param_set: self.seq_param_set@,
            pic_param_set: self.pic_param_set@,
        }
    }
}

impl View for EncodedSample {
    type V = SampleView;

    open spec fn view(&self) -> SampleView {
        SampleView {
            start_time: self.start_time,
            duration: self.duration,
            is_sync: self.is_sync,
            bytes: self.bytes@,
        }
    }
}

/// What a writer of the `mp4` crate holds: the head it was started with, its
/// tracks, and the duration, sync flag and bytes of each sample written to
/// its first track without a rendering offset, in order.
pub uninterp spec fn writer_contents(writer: Mp4Writer<Cursor<Vec<u8>>>) -> WriterModel;

/// Whether the `mp4` crate writes the head of a container to an empty buffer
/// in memory.
pub uninterp spec fn head_written(config: ContainerConfigView) -> bool;

/// Whether the `mp4` crate, with what its writer holds, writes one more
/// sample to the only track of a container in memory.
pub uninterp spec fn sample_written(contents: WriterModel, sample: StoredSample) -> bool;

/// The bytes of the finished container that the `mp4` crate makes in memory
/// of what its writer holds; none where it fails to finish.
pub uninterp spec fn container_bytes(contents: WriterModel) -> Option<Seq<u8>>;

/// The four bytes of a 32-bit number, most significant first.
pub open spec fn be32(x: u32) -> Seq<u8> {
    seq![
        (x / 0x100_0000) as u8,
        (x / 0x1_0000 % 0x100) as u8,
        (x / 0x100 % 0x100) as u8,
        (x % 0x100) as u8,
    ]
}

/// The brands of a list, one after the other.
pub open spec fn brand_bytes(brands: Seq<Seq<u8>>) -> Seq<u8>
    decreases brands.len(),
{
    if brands.len() == 0 {
        Seq::empty()
    } else {
        brand_bytes(brands.drop_last()) + brands.last()
    }
}

/// The type code of the box that a container begins with: `ftyp`.
pub open spec fn file_type_code() -> Seq<u8> {
    seq![0x66u8, 0x74u8, 0x79u8, 0x70u8]
}

/// Length in bytes of the box that a container begins with.
pub open spec fn file_type_box_len(config: ContainerConfigView) -> int {
    16 + 4 * (config.compatible_brands.len() as int)
}

/// The box that a container begins with: its length, its type code, the major
/// brand, the minor version and the compatible brands.
pub open spec fn file_type_box(config: ContainerConfigView) -> Seq<u8> {
    be32(file_type_box_len(config) as u32) + file_type_code() + config.major_brand + be32(
        config.minor_version,
    ) + brand_bytes(config.compatible_brands)
}

/// The durations of the samples, added up.
pub open spec fn duration_sum(samples: Seq<StoredSample>) -> int
    decreases samples.len(),
{
    if samples.len() == 0 {
        0
    } else {
        duration_sum(samples.drop_last()) + samples.last().duration
    }
}

/// Whether every sample has at least one byte.
pub open spec fn all_filled(samples: Seq<StoredSample>) -> bool {
    forall|i: int| 0 <= i < samples.len() ==> (#[trigger] samples[i]).bytes.len() > 0
}

/// Whether the duration of a sample can be added to what the writer keeps in
/// 32 bits: the durations of the samples that it has not yet put into a
/// chunk. The writer closes a chunk when it holds bytes and its durations
/// have reached the track's timescale. So the duration fits where all
/// durations together do; and also where every sample so far had bytes, so
/// that less than one timescale is pending, and the container's timescale
/// is not above the track's.
pub open spec fn duration_fits(contents: WriterModel, sample: StoredSample) -> bool {
    ||| duration_sum(contents.samples) + sample.duration <= u32::MAX
    ||| {
        &&& all_filled(contents.samples)
        &&& contents.tracks.len() == 1
        &&& contents.config.timescale <= contents.tracks[0].timescale
        &&& contents.tracks[0].timescale + sample.duration <= u32::MAX
    }
}

/// Whether a sample can be added to what a writer holds: the sample table
/// counts samples and the bytes of one sample in 32 bits, and the duration
/// fits.
pub open spec fn sample_fits(contents: WriterModel, sample: StoredSample) -> bool {
    &&& contents.samples.len() + 1 < u32::MAX
    &&& sample.bytes.len() <= u32::MAX
    &&& duration_fits(contents, sample)
}

/// Whether a track configuration can be written.
pub open spec fn track_ok(track: TrackConfigView) -> bool {
    &&& track.timescale != 0
    &&& track.seq_param_set.len() >= 4
}

/// `Mp4Writer::write_start` on an empty in-memory buffer. Whether it succeeds
/// depends on the head alone. Where it does, the writer holds the head it
/// was given, no track and no sample.
#[verifier::external_body]
fn writer_start(config: &ContainerConfig) -> (out: Result<Mp4Writer<Cursor<Vec<u8>>>, mp4::Error>)
    ensures
        out is Ok <==> head_written(config@),
        out matches Ok(w) ==> writer_contents(w) == (WriterModel {
            config: config@,
            tracks: Seq::empty(),
            samples: Seq::empty(),
        }),
{
    let head = mp4::Mp4Config {
        major_brand: mp4::FourCC::from(config.major_brand),
        minor_version: config.minor_version,
        compatible_brands: config.compatible_brands.iter().copied().map(mp4::FourCC::from).collect(),
        timescale: config.timescale,
    };
    Mp4Writer::write_start(Cursor::new(Vec::new()), &head)
}

/// `Mp4Writer::add_track` with an AVC video track. It builds the track's
/// boxes in memory and cannot fail; it reads the second to fourth byte of the
/// sequence parameter set, so that set has at least four bytes.
#[verifier::external_body]
fn writer_add_track(writer: &mut Mp4Writer<Cursor<Vec<u8>>>, track: &TrackConfig) -> (out: Result<
    (),
    mp4::Error,
>)
    requires
        track@.seq_param_set.len() >= 4,
        writer_contents(*old(writer)).tracks.len() < u32::MAX,
    ensures
        out is Ok,
        writer_contents(*final(writer)) == (WriterModel {
            tracks: writer_contents(*old(writer)).tracks.push(track@),
            ..writer_contents(*old(writer))
        }),
{
    writer.add_track(
        &mp4::TrackConfig {
            track_type: mp4::TrackType::Video,
            timescale: track.timescale,
            language: track.language.clone(),
            media_conf: mp4::MediaConfig::AvcConfig(
                mp4::AvcConfig {
                    width: track.width,
                    height: track.height,
                    seq_param_set: track.seq_param_set.clone(),
                    pic_param_set: track.pic_param_set.clone(),
                },
            ),
        },
    )
}

/// `Mp4Writer::write_sample`, for a writer with at most one track and a
/// sample without rendering offset. It fails, and keeps nothing, where the
/// track does not exist. Where the track exists, whether it succeeds depends
/// on what the writer holds and on what it keeps of the sample alone; where
/// it succeeds, the sample's duration, sync flag and bytes have been added
/// to those written. It does not read the sample's presentation time. It adds up sample
/// counts and pending durations in 32 bits and divides by the track's
/// timescale, which the conditions keep in range.
#[verifier::external_body]
fn writer_write_sample(
    writer: &mut Mp4Writer<Cursor<Vec<u8>>>,
    track_id: u32,
    sample: &EncodedSample,
    rendering_offset: i32,
) -> (out: Result<(), mp4::Error>)
    requires
        rendering_offset == 0,
        writer_contents(*old(writer)).tracks.len() <= 1,
        sample_fits(writer_contents(*old(writer)), sample@.stored()),
        forall|i: int|
            0 <= i < writer_contents(*old(writer)).tracks.len() ==> writer_contents(
                *old(writer),
            ).tracks[i].timescale != 0,
    ensures
        track_id == 0 || track_id > writer_contents(*old(writer)).tracks.len() ==> out is Err
            && writer_contents(*final(writer)) == writer_contents(*old(writer)),
        1 <= track_id <= writer_contents(*old(writer)).tracks.len() ==> (out is Ok
            <==> sample_written(writer_contents(*old(writer)), sample@.stored())),
        out is Ok ==> writer_contents(*final(writer)) == (WriterModel {
            samples: writer_contents(*old(writer)).samples.push(sample@.stored()),
            ..writer_contents(*old(writer))
        }),
{
    writer.write_sample(
        track_id,
        &mp4::Mp4Sample {
            start_time: sample.start_time,
            duration: sample.duration,
            rendering_offset,
            is_sync: sample.is_sync,
            bytes: mp4::Bytes::copy_from_slice(&sample.bytes),
        },
    )
}

/// `Mp4Writer::write_end`, then the buffer that the writer wrote to. Whether
/// it succeeds, and with which bytes, depends on what the writer has been
/// handed alone. Where it succeeds, the buffer is the finished container,
/// which begins with the file-type box of the head that the writer was
/// started with.
#[verifier::external_body]
fn writer_finish(writer: Mp4Writer<Cursor<Vec<u8>>>) -> (out: Result<Vec<u8>, mp4::Error>)
    requires
        writer_contents(writer).tracks.len() <= 1,
    ensures
        match out {
            Ok(bytes) => {
                &&& container_bytes(writer_contents(writer)) == Some(bytes@)
                &&& file_type_box_len(writer_contents(writer).config) <= u32::MAX
                    ==> file_type_box(writer_contents(writer).config).is_prefix_of(bytes@)
            },
            Err(_) => container_bytes(writer_contents(writer)) is None,
        },
{
    let mut writer = writer;
    writer.write_end()?;
    Ok(writer.into_writer().into_inner())
}

/// The text of an error of the `mp4` crate, as its `Display` gives it.
#[verifier::external_body]
fn writer_error_text(error: &mp4::Error) -> (out: String) {
    format!("{}", error)
}

/// A container writer with one video track.
///
/// It is opened with the head of the container, then given the track, then
/// the samples, and at last finished, which consumes it. It keeps the
/// presentation times of the samples itself: the writer does not.
#[derive(Debug)]
pub struct Muxer {
    writer: Mp4Writer<Cursor<Vec<u8>>>,
    timescale: u32,
    track_timescale: Option<u32>,
    starts: Vec<u64>,
    total: u64,
    filled: bool,
}

impl View for Muxer {
    type V = ContainerModel;

    closed spec fn view(&self) -> ContainerModel {
        let held = writer_contents(self.writer);
        ContainerModel {
            config: held.config,
            tracks: held.tracks,
            samples: Seq::new(
                held.samples.len(),
                |i: int|
                    SampleView {
                        start_time: self.starts@[i],
                        duration: held.samples[i].duration,
                        is_sync: held.samples[i].is_sync,
                        bytes: held.samples[i].bytes,
                    },
            ),
        }
    }
}

/// The first bytes of every finished container: the length of its first box,
/// which is at least sixteen, and the type code `ftyp`.
pub proof fn lemma_file_type_box_head(config: ContainerConfigView)
    requires
        config.major_brand.len() == 4,
    ensures
        file_type_box(config).len() >= 16,
        file_type_box(config).subrange(4, 8) == file_type_code(),
{
    let b = file_type_box(config);
    assert(b.subrange(4, 8) =~= file_type_code());
}

impl Muxer {
    /// The invariant of a muxer: it has at most one track, which can be
    /// written; samples only if it has a track; and fewer samples than the
    /// sample table can count.
    pub closed spec fn wf(&self) -> bool {
        &&& self.starts@.len() == writer_contents(self.writer).samples.len()
        &&& self.timescale == self@.config.timescale
        &&& match self.track_timescale {
            Some(t) => self@.tracks.len() == 1 && track_ok(self@.tracks[0]) && t
                == self@.tracks[0].timescale,
            None => self@.tracks.len() == 0 && self@.samples.len() == 0,
        }
        &&& self.total == duration_sum(writer_contents(self.writer).samples)
        &&& self.total <= self.starts@.len() * 0xffff_ffff
        &&& self.filled == all_filled(writer_contents(self.writer).samples)
        &&& self.starts@.len() < u32::MAX
    }

    proof fn lemma_written(&self)
        requires
            self.starts@.len() == writer_contents(self.writer).samples.len(),
        ensures
            self@.written() == writer_contents(self.writer),
    {
        assert(self@.written().samples =~= writer_contents(self.writer).samples);
    }

    /// Whether the track has been configured.
    pub open spec fn track_configured(&self) -> bool {
        self@.tracks.len() == 1
    }

    /// Whether the muxer has a track of the given number. Tracks are
    /// numbered from one.
    pub open spec fn has_track_id(&self, track_id: u32) -> bool {
        1 <= track_id <= self@.tracks.len()
    }

    /// A well-formed muxer has no track or one, and samples only with a track.
    pub proof fn lemma_wf(&self)
        requires
            self.wf(),
        ensures
            self@.tracks.len() <= 1,
            self.track_configured() ==> track_ok(self@.tracks[0]),
            !self.track_configured() ==> self@.samples.len() == 0,
            self@.samples.len() < u32::MAX,
    {
    }

    /// Starts a container in memory: writes its head.
    ///
    /// Succeeds exactly where the writer writes the head; the muxer then
    /// holds the head and nothing else.
    pub fn open(config: &ContainerConfig) -> (out: Result<Muxer, MuxError>)
        ensures
            out is Ok <==> head_written(config@),
            out matches Ok(m) ==> m.wf() && m@ == (ContainerModel {
                config: config@,
                tracks: Seq::empty(),
                samples: Seq::empty(),
            }),
            out matches Err(e) ==> e is Write,
    {
        match writer_start(config) {
            Ok(writer) => {
                let muxer = Muxer {
                    writer,
                    timescale: config.timescale,
                    track_timescale: None,
                    starts: Vec::new(),
                    total: 0,
                    filled: true,
                };
                proof {
                    assert(muxer@.samples =~= Seq::<SampleView>::empty());
                }
                Ok(muxer)
            },
            Err(e) => Err(MuxError::Write(writer_error_text(&e))),
        }
    }

    /// Registers the video track.
    ///
    /// Fails where a track is registered already, and where the configuration
    /// cannot be written; succeeds otherwise. A failure changes nothing.
    pub fn add_track(&mut self, track: &TrackConfig) -> (out: Result<(), MuxError>)
        requires
            old(self).wf(),
        ensures
            final(self).wf(),
            match out {
                Ok(_) => !old(self).track_configured() && track_ok(track@) && final(self)@ == (
                ContainerModel { tracks: seq![track@], ..old(self)@ }),
                Err(e) => final(self)@ == old(self)@ && e == (if old(self).track_configured() {
                    MuxError::TrackAlreadyConfigured
                } else {
                    MuxError::InvalidTrack
                }) && (old(self).track_configured() || !track_ok(track@)),
            },
    {
        if self.track_timescale.is_some() {
            return Err(MuxError::TrackAlreadyConfigured);
        }
        if track.timescale == 0 || track.seq_param_set.len() < 4 {
            return Err(MuxError::InvalidTrack);
        }
        let added = writer_add_track(&mut self.writer, track);
        self.track_timescale = Some(track.timescale);
        proof {
            assert(self@.tracks =~= seq![track@]);
            assert(self@.samples =~= old(self)@.samples);
        }
        match added {
            Ok(_) => Ok(()),
            Err(e) => Err(MuxError::Write(writer_error_text(&e))),
        }
    }

    /// Appends one sample to the track.
    ///
    /// Fails with `TrackNotFound` where the track does not exist, which
    /// includes every call before the track is configured, and with
    /// `Capacity` where the track exists and the sample does not fit; either
    /// failure changes nothing. Otherwise it succeeds exactly where the
    /// writer writes the sample, which is then the last of those written,
    /// and fails with `Write` where the writer does not.
    pub fn write_sample(&mut self, track_id: u32, sample: &EncodedSample) -> (out: Result<
        (),
        MuxError,
    >)
        requires
            old(self).wf(),
        ensures
            match out {
                Ok(_) => {
                    &&& old(self).has_track_id(track_id)
                    &&& sample_fits(old(self)@.written(), sample@.stored())
                    &&& sample_written(old(self)@.written(), sample@.stored())
                    &&& final(self).wf()
                    &&& final(self)@ == (ContainerModel {
                        samples: old(self)@.samples.push(sample@),
                        ..old(self)@
                    })
                },
                Err(MuxError::TrackNotFound(id)) => {
                    &&& id == track_id
                    &&& !old(self).has_track_id(track_id)
                    &&& final(self).wf()
                    &&& final(self)@ == old(self)@
                },
                Err(MuxError::Capacity) => {
                    &&& old(self).has_track_id(track_id)
                    &&& !sample_fits(old(self)@.written(), sample@.stored())
                    &&& final(self).wf()
                    &&& final(self)@ == old(self)@
                },
                Err(MuxError::Write(_)) => {
                    &&& old(self).has_track_id(track_id)
                    &&& sample_fits(old(self)@.written(), sample@.stored())
                    &&& !sample_written(old(self)@.written(), sample@.stored())
                },
                Err(_) => false,
            },
    {
        proof {
            self.lemma_written();
        }
        let track_timescale: u32 = match self.track_timescale {
            Some(t) => t,
            None => {
                return Err(MuxError::TrackNotFound(track_id));
            },
        };
        if track_id != 1 {
            return Err(MuxError::TrackNotFound(track_id));
        }
        let duration: u64 = sample.duration as u64;
        let together: bool = self.total + duration <= u32::MAX as u64;
        let pending: bool = self.filled && self.timescale <= track_timescale
            && track_timescale as u64 + duration <= u32::MAX as u64;
        if self.starts.len() >= 0xffff_fffe || sample.bytes.len() > u32::MAX as usize || !(together
            || pending) {
            return Err(MuxError::Capacity);
        }
        match writer_write_sample(&mut self.writer, track_id, sample, 0) {
            Ok(_) => {
                self.starts.push(sample.start_time);
                self.total = self.total + duration;
                self.filled = self.filled && sample.bytes.len() > 0;
                proof {
                    let before = writer_contents(old(self).writer).samples;
                    let after = writer_contents(self.writer).samples;
                    assert(after.drop_last() =~= before);
                    assert(all_filled(after) == (all_filled(before) && sample@.bytes.len() > 0))
                        by {
                        if all_filled(after) {
                            assert forall|i: int| 0 <= i < before.len() implies (
                            #[trigger] before[i]).bytes.len() > 0 by {
                                assert(after[i] == before[i]);
                            }
                            assert(after[after.len() - 1] == sample@.stored());
                        }
                    }
                    assert(self@.samples =~= old(self)@.samples.push(sample@));
                }
                Ok(())
            },
            Err(e) => Err(MuxError::Write(writer_error_text(&e))),
        }
    }

    /// Writes the trailing index of the container and hands out the finished
    /// bytes.
    ///
    /// Succeeds exactly where the writer finishes the container, with the
    /// writer's bytes, which begin with the file-type box of the head.
    pub fn finalize(self) -> (out: Result<Vec<u8>, MuxError>)
        requires
            self.wf(),
        ensures
            match container_bytes(self@.written()) {
                Some(bytes) => {
                    &&& out matches Ok(v)
                    &&& v@ == bytes
                    &&& file_type_box_len(self@.config) <= u32::MAX ==> file_type_box(
                        self@.config,
                    ).is_prefix_of(bytes)
                },
                None => out matches Err(e) && e is Write,
            },
    {
        proof {
            self.lemma_written();
        }
        match writer_finish(self.writer) {
            Ok(bytes) => Ok(bytes),
            Err(e) => Err(MuxError::Write(writer_error_text(&e))),
        }
    }
}

} // verus!
