//! The video encoder's protocol.
//!
//! The native encoder buffers frames: a frame handed in may come out later,
//! and those still inside at the end have to be drained. It is driven from
//! outside this library. An [`Encoder`] decides what may be handed to it and
//! reads what it hands back; a [`Flush`] decides when draining ends.

use vstd::prelude::*;
use crate::colorspace::Encoding;
use crate::image::{Image, RawImage, signed_stride};
use crate::setup::Setup;

verus! {

/// The encoder refused its parameters or failed to encode.
#[derive(Clone, Copy, Debug, PartialEq, Eq, Structural)]
pub struct EncoderError;

/// Encoded bytes that the encoder handed out, copied from its buffer.
#[derive(Clone, Debug)]
pub struct Data {
    bytes: Vec<u8>,
}

/// What the encoder says of the frame that it completed.
#[derive(Clone, Copy, Debug, PartialEq, Eq, Structural)]
pub struct Picture {
    pub pts: i64,
    pub dts: i64,
    pub keyframe: bool,
}

/// What is handed to the native encoder with one image: its presentation
/// timestamp and its layout.
#[derive(Clone, Copy, Debug)]
pub struct Submission {
    pub pts: i64,
    pub layout: RawImage,
}

/// What the native encoder handed back from one call.
#[derive(Clone, Debug)]
pub struct Reply {
    /// The call's return value: negative for a failure, else the number of
    /// bytes handed out, zero where no frame was completed.
    pub status: i32,
    /// The bytes handed out.
    pub payload: Vec<u8>,
    /// Presentation timestamp of the completed frame.
    pub pts: i64,
    /// Decoding timestamp of the completed frame.
    pub dts: i64,
    /// Whether the completed frame is a keyframe.
    pub keyframe: bool,
}

/// Where an encoder stands in its life.
#[derive(Clone, Copy, Debug, PartialEq, Eq, Structural)]
pub enum Phase {
    /// Opened; no image has been handed in.
    Ready,
    /// At least one image has been handed in.
    Encoding,
    /// No image is accepted any more; delayed frames are being drained.
    Flushing,
    /// Everything has been drained.
    Closed,
}

/// Encodes video.
#[derive(Debug)]
pub struct Encoder {
    encoding: Encoding,
    width: u32,
    height: u32,
    phase: Phase,
    submitted: u64,
    delivered: u64,
}

/// Iterates through any delayed frames.
#[derive(Debug)]
pub struct Flush {
    encoder: Encoder,
}

/// What a reply means: a failure, no frame, or the frame completed.
pub open spec fn reading(reply: Reply) -> Result<Option<(Seq<u8>, Picture)>, EncoderError> {
    if reply.status < 0 {
        Err(EncoderError)
    } else if reply.status == 0 {
        Ok(None)
    } else {
        Ok(Some((reply.payload@, Picture { pts: reply.pts, dts: reply.dts, keyframe: reply.keyframe })))
    }
}

impl Data {
    /// The bytes, for use in contracts.
    pub closed spec fn view(&self) -> Seq<u8> {
        self.bytes@
    }

    /// Wraps bytes that the encoder handed out.
    pub fn from_bytes(bytes: Vec<u8>) -> (out: Data)
        ensures
            out@ == bytes@,
    {
        Data { bytes }
    }

    /// The length of the data, in bytes.
    pub fn len(&self) -> (out: usize)
        ensures
            out == self@.len(),
    {
        self.bytes.len()
    }

    /// All the bytes, one unit after the other.
    pub fn entirety(&self) -> (out: &[u8])
        ensures
            out@ == self@,
    {
        self.bytes.as_slice()
    }

    /// Hands the bytes over.
    pub fn into_bytes(self) -> (out: Vec<u8>)
        ensures
            out@ == self@,
    {
        self.bytes
    }
}

impl Picture {
    /// Whether the picture is a keyframe.
    pub fn keyframe(&self) -> (out: bool)
        ensures
            out == self.keyframe,
    {
        self.keyframe
    }

    /// The presentation timestamp.
    pub fn pts(&self) -> (out: i64)
        ensures
            out == self.pts,
    {
        self.pts
    }

    /// The decoding timestamp.
    pub fn dts(&self) -> (out: i64)
        ensures
            out == self.dts,
    {
        self.dts
    }
}

impl Encoder {
    /// The encoding required of any input image.
    pub closed spec fn spec_encoding(&self) -> Encoding {
        self.encoding
    }

    /// The width required of any input image.
    pub closed spec fn spec_width(&self) -> u32 {
        self.width
    }

    /// The height required of any input image.
    pub closed spec fn spec_height(&self) -> u32 {
        self.height
    }

    /// Where the encoder stands.
    pub closed spec fn phase(&self) -> Phase {
        self.phase
    }

    /// Number of images handed in.
    pub closed spec fn submitted(&self) -> nat {
        self.submitted as nat
    }

    /// Number of frames handed out.
    pub closed spec fn delivered(&self) -> nat {
        self.delivered as nat
    }

    /// The invariant of an encoder: it has handed out no more frames than
    /// were handed in, and it is ready exactly while nothing was handed in.
    pub open spec fn wf(&self) -> bool {
        &&& self.delivered() <= self.submitted()
        &&& self.submitted() <= u64::MAX
        &&& self.phase() is Ready ==> self.submitted() == 0
    }

    /// Whether the encoder is as opened for the given format.
    pub open spec fn is_fresh(&self, encoding: Encoding, width: u32, height: u32) -> bool {
        &&& self.spec_encoding() == encoding
        &&& self.spec_width() == width
        &&& self.spec_height() == height
        &&& self.phase() is Ready
        &&& self.submitted() == 0
        &&& self.delivered() == 0
    }

    /// Whether `self` differs from `before` at most in phase and counts.
    pub open spec fn same_format(&self, before: &Encoder) -> bool {
        &&& self.spec_encoding() == before.spec_encoding()
        &&& self.spec_width() == before.spec_width()
        &&& self.spec_height() == before.spec_height()
    }

    /// Whether the encoder takes the image: it still takes images, the image
    /// has the encoder's format, and the count of images has room.
    pub open spec fn accepts(&self, image: &Image) -> bool {
        &&& self.phase() is Ready || self.phase() is Encoding
        &&& image.spec_encoding() == self.spec_encoding()
        &&& image.spec_width() == self.spec_width()
        &&& image.spec_height() == self.spec_height()
        &&& self.submitted() < u64::MAX
    }

    /// Whether the encoder can have completed a frame: it has been given
    /// more images than it has handed out frames, and is not closed.
    pub open spec fn owes(&self) -> bool {
        &&& self.delivered() < self.submitted()
        &&& !(self.phase() is Closed)
    }

    /// What becomes of a reply at this encoder: its reading, but an error
    /// where the reply holds a frame that the encoder cannot have completed.
    pub open spec fn outcome(&self, reply: Reply) -> Result<
        Option<(Seq<u8>, Picture)>,
        EncoderError,
    > {
        match reading(reply) {
            Ok(Some(frame)) => if self.owes() {
                Ok(Some(frame))
            } else {
                Err(EncoderError)
            },
            other => other,
        }
    }

    /// Creates a new builder with default options.
    pub fn builder() -> (out: Setup)
        ensures
            out.base() == crate::setup::Base::Defaults,
            out.steps() == Seq::<crate::setup::Step>::empty(),
    {
        Setup::default()
    }

    /// The encoder as it stands when the native encoder has been opened and
    /// reports this input format.
    pub fn from_raw(encoding: Encoding, width: u32, height: u32) -> (out: Encoder)
        ensures
            out.is_fresh(encoding, width, height),
            out.wf(),
    {
        Encoder { encoding, width, height, phase: Phase::Ready, submitted: 0, delivered: 0 }
    }

    /// Feeds a frame to the encoder: checks the image against the encoder's
    /// format and says what to hand to the native encoder.
    ///
    /// Succeeds exactly where the encoder accepts the image; a failure
    /// changes nothing.
    pub fn encode(&mut self, pts: i64, image: &Image) -> (out: Result<Submission, EncoderError>)
        requires
            old(self).wf(),
        ensures
            final(self).wf(),
            final(self).same_format(old(self)),
            final(self).delivered() == old(self).delivered(),
            out is Ok <==> old(self).accepts(image),
            out matches Ok(submission) ==> {
                &&& final(self).phase() is Encoding
                &&& final(self).submitted() == old(self).submitted() + 1
                &&& submission.pts == pts
                &&& submission.layout.plane_count == image.spec_planes().len()
                &&& forall|k: int|
                    0 <= k < 4 ==> #[trigger] submission.layout.strides[k] == if k
                        < image.spec_planes().len() {
                        signed_stride(image.spec_planes()[k].stride)
                    } else {
                        0i32
                    }
            },
            out is Err ==> final(self).phase() == old(self).phase() && final(self).submitted()
                == old(self).submitted(),
    {
        let open = match self.phase {
            Phase::Ready => true,
            Phase::Encoding => true,
            _ => false,
        };
        if !open || image.encoding() != self.encoding || image.width() != self.width
            || image.height() != self.height || self.submitted == u64::MAX {
            return Err(EncoderError);
        }
        self.phase = Phase::Encoding;
        self.submitted = self.submitted + 1;
        Ok(Submission { pts, layout: image.raw() })
    }

    /// Reads what the native encoder handed back from a call with an image.
    ///
    /// Returns the outcome of the reply at this encoder. A frame counts as
    /// handed out; nothing else changes.
    pub fn output(&mut self, reply: Reply) -> (out: Result<Option<(Data, Picture)>, EncoderError>)
        requires
            old(self).wf(),
        ensures
            final(self).wf(),
            final(self).same_format(old(self)),
            final(self).phase() == old(self).phase(),
            final(self).submitted() == old(self).submitted(),
            match old(self).outcome(reply) {
                Ok(Some(frame)) => out matches Ok(Some(got)) && got.0@ == frame.0 && got.1
                    == frame.1 && final(self).delivered() == old(self).delivered() + 1,
                Ok(None) => out matches Ok(None) && final(self).delivered() == old(
                    self,
                ).delivered(),
                Err(e) => out matches Err(_) && final(self).delivered() == old(self).delivered(),
            },
    {
        if reply.status < 0 {
            return Err(EncoderError);
        }
        if reply.status == 0 {
            return Ok(None);
        }
        let closed = match self.phase {
            Phase::Closed => true,
            _ => false,
        };
        if closed || self.delivered >= self.submitted {
            return Err(EncoderError);
        }
        self.delivered = self.delivered + 1;
        let picture = Picture { pts: reply.pts, dts: reply.dts, keyframe: reply.keyframe };
        Ok(Some((Data::from_bytes(reply.payload), picture)))
    }

    /// Reads what the native encoder handed back when asked for the video
    /// headers, which should be sent first: an error for a negative return
    /// value, else the bytes.
    pub fn headers(&self, status: i32, payload: Vec<u8>) -> (out: Result<Data, EncoderError>)
        ensures
            out is Ok <==> status >= 0,
            out matches Ok(data) ==> data@ == payload@,
    {
        if status < 0 {
            Err(EncoderError)
        } else {
            Ok(Data::from_bytes(payload))
        }
    }

    /// Begins flushing the encoder, to handle any delayed frames. No image
    /// is accepted after this.
    pub fn flush(self) -> (out: Flush)
        requires
            self.wf(),
        ensures
            out.wf(),
            out.encoder().same_format(&self),
            out.encoder().phase() is Flushing,
            out.encoder().submitted() == self.submitted(),
            out.encoder().delivered() == self.delivered(),
    {
        Flush {
            encoder: Encoder {
                encoding: self.encoding,
                width: self.width,
                height: self.height,
                phase: Phase::Flushing,
                submitted: self.submitted,
                delivered: self.delivered,
            },
        }
    }

    /// The width required of any input images.
    #[verifier::when_used_as_spec(spec_width)]
    pub fn width(&self) -> (out: u32)
        ensures
            out == self.spec_width(),
    {
        self.width
    }

    /// The height required of any input images.
    #[verifier::when_used_as_spec(spec_height)]
    pub fn height(&self) -> (out: u32)
        ensures
            out == self.spec_height(),
    {
        self.height
    }

    /// The encoding required of any input images.
    #[verifier::when_used_as_spec(spec_encoding)]
    pub fn encoding(&self) -> (out: Encoding)
        ensures
            out == self.spec_encoding(),
    {
        self.encoding
    }
}

impl Flush {
    /// The encoder that is being flushed.
    pub closed spec fn encoder(&self) -> Encoder {
        self.encoder
    }

    /// The invariant of a flush: its encoder is well formed, and flushing or
    /// closed.
    pub open spec fn wf(&self) -> bool {
        &&& self.encoder().wf()
        &&& self.encoder().phase() is Flushing || self.encoder().phase() is Closed
    }

    /// Keeps flushing: says whether the native encoder is to be drained once
    /// more, given the number of frames that it reports as delayed.
    ///
    /// It is, exactly while the flush is not closed and frames are delayed.
    /// Where none is delayed the encoder is closed, for good.
    pub fn next(&mut self, delayed: i32) -> (out: bool)
        requires
            old(self).wf(),
        ensures
            final(self).wf(),
            final(self).encoder().same_format(&old(self).encoder()),
            final(self).encoder().submitted() == old(self).encoder().submitted(),
            final(self).encoder().delivered() == old(self).encoder().delivered(),
            out == (old(self).encoder().phase() is Flushing && delayed != 0),
            final(self).encoder().phase() == if out {
                Phase::Flushing
            } else {
                Phase::Closed
            },
    {
        let flushing = match self.encoder.phase {
            Phase::Flushing => true,
            _ => false,
        };
        if flushing && delayed != 0 {
            true
        } else {
            self.encoder.phase = Phase::Closed;
            false
        }
    }

    /// Reads what the native encoder handed back from a draining call: the
    /// outcome of the reply at the encoder that is flushed.
    pub fn output(&mut self, reply: Reply) -> (out: Result<Option<(Data, Picture)>, EncoderError>)
        requires
            old(self).wf(),
        ensures
            final(self).wf(),
            final(self).encoder().same_format(&old(self).encoder()),
            final(self).encoder().phase() == old(self).encoder().phase(),
            final(self).encoder().submitted() == old(self).encoder().submitted(),
            match old(self).encoder().outcome(reply) {
                Ok(Some(frame)) => out matches Ok(Some(got)) && got.0@ == frame.0 && got.1
                    == frame.1 && final(self).encoder().delivered() == old(
                    self,
                ).encoder().delivered() + 1,
                Ok(None) => out matches Ok(None) && final(self).encoder().delivered() == old(
                    self,
                ).encoder().delivered(),
                Err(e) => out matches Err(_) && final(self).encoder().delivered() == old(
                    self,
                ).encoder().delivered(),
            },
    {
        self.encoder.output(reply)
    }
}

} // verus!
