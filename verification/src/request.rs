//! What a job is asked to do: the frames, as they were captured.

use vstd::prelude::*;
use crate::timing::in_order;

verus! {

/// The error type of the `base64` crate's decoder.
#[verifier::external_type_specification]
#[verifier::external_body]
pub struct ExBase64Error(base64::DecodeError);

/// One captured frame.
#[derive(Clone, Debug, PartialEq, Eq)]
pub struct FrameMetadata {
    /// Distance of the viewport from the top of the page.
    pub offset_top: u32,
    /// Scale factor of the page: the bits of a 32-bit binary floating-point
    /// number.
    pub page_scale_factor: u32,
    /// Horizontal scroll offset: the bits of a 32-bit binary floating-point
    /// number.
    pub scroll_offset_x: u32,
    /// Vertical scroll offset: the bits of a 32-bit binary floating-point
    /// number.
    pub scroll_offset_y: u32,
    /// Width of the device viewport, in pixels.
    pub device_width: u16,
    /// Height of the device viewport, in pixels.
    pub device_height: u16,
    /// Capture time, in capture-clock units.
    pub timestamp: u64,
    /// The compressed image of the frame.
    pub data: Vec<u8>,
}

/// A job: frames in presentation order, between a start and an end time.
#[derive(Clone, Debug, PartialEq, Eq)]
pub struct JobRequest {
    pub start_time: u64,
    pub end_time: u64,
    pub frames: Vec<FrameMetadata>,
}

/// Why a request is refused before any work is done.
#[derive(Clone, Debug, PartialEq, Eq)]
pub enum RequestError {
    /// The request has no frame.
    EmptyFrames,
    /// The image data of a frame is no base64 text in the standard alphabet;
    /// the text is the decoder's reason.
    Base64(String),
    /// The frame at this position was captured before its predecessor, or
    /// before the job's start.
    Timestamps { index: usize },
}

/// Most bytes of base64 text that can be handed to the decoder: it adds seven
/// to the length.
pub open spec fn base64_text_limit() -> int {
    usize::MAX - 7
}

/// The bytes that the `base64` crate decodes text in the standard alphabet
/// to; none where it rejects the text.
pub uninterp spec fn base64_bytes(text: Seq<u8>) -> Option<Seq<u8>>;

/// `base64::decode`. It adds small constants to the length of the text, which
/// the condition keeps in range.
#[verifier::external_body]
fn base64_decode(text: &[u8]) -> (out: Result<Vec<u8>, base64::DecodeError>)
    requires
        text@.len() <= base64_text_limit(),
    ensures
        match out {
            Ok(bytes) => base64_bytes(text@) == Some(bytes@),
            Err(_) => base64_bytes(text@) is None,
        },
{
    base64::decode(text)
}

/// The text of an error of the `base64` crate, as its `Display` gives it.
#[verifier::external_body]
fn base64_error_text(error: &base64::DecodeError) -> (out: String) {
    format!("{}", error)
}

/// Decodes the image data of a frame from the base64 text of a request.
///
/// Succeeds exactly where the text is short enough to be decoded and the
/// decoder accepts it, with the decoder's bytes.
pub fn decode_frame_data(text: &[u8]) -> (out: Result<Vec<u8>, RequestError>)
    ensures
        match out {
            Ok(bytes) => text@.len() <= base64_text_limit() && base64_bytes(text@) == Some(bytes@),
            Err(e) => e is Base64 && (text@.len() > base64_text_limit() || base64_bytes(text@)
                is None),
        },
{
    if text.len() > usize::MAX - 7 {
        return Err(RequestError::Base64("text too long".to_owned()));
    }
    match base64_decode(text) {
        Ok(bytes) => Ok(bytes),
        Err(e) => Err(RequestError::Base64(base64_error_text(&e))),
    }
}

impl JobRequest {
    /// The capture timestamps of the frames, in order.
    pub open spec fn stamps(&self) -> Seq<u64> {
        Seq::new(self.frames@.len(), |i: int| self.frames@[i].timestamp)
    }

    /// Whether the request can be worked on: it has a frame, and its
    /// timestamps never decrease nor precede its start.
    pub open spec fn is_valid(&self) -> bool {
        &&& self.frames@.len() > 0
        &&& in_order(self.start_time, self.stamps())
    }

    /// The capture timestamps of the frames, in order.
    pub fn timestamps(&self) -> (out: Vec<u64>)
        ensures
            out@ == self.stamps(),
    {
        let mut out: Vec<u64> = Vec::new();
        let mut i: usize = 0;
        while i < self.frames.len()
            invariant
                i <= self.frames.len(),
                out@.len() == i,
                forall|k: int| 0 <= k < i ==> out@[k] == self.frames@[k].timestamp,
            decreases self.frames.len() - i,
        {
            out.push(self.frames[i].timestamp);
            i = i + 1;
        }
        assert(out@ =~= self.stamps());
        out
    }
}

} // verus!
