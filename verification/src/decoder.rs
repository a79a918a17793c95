//! The frame decoder: one compressed still image in, raw interleaved pixels
//! out.

use vstd::prelude::*;

verus! {

/// The error type of the `jpeg-decoder` crate.
#[verifier::external_type_specification]
#[verifier::external_body]
pub struct ExJpegError(jpeg_decoder::Error);

/// Why a frame could not be decoded.
#[derive(Clone, Debug, PartialEq, Eq)]
pub struct DecodeFailure {
    /// Position of the frame in its job.
    pub index: usize,
    /// The decoder's reason, as text.
    pub reason: String,
}

/// The pixels that the `jpeg-decoder` crate makes of a compressed image, row
/// after row, whenever it decodes the image.
pub uninterp spec fn jpeg_pixels(data: Seq<u8>) -> Seq<u8>;

/// `jpeg_decoder::Decoder::decode` on a decoder that reads the given bytes.
/// The crate is built to give the same pixels on every platform. Nothing is
/// said of a failure: the decoder may work on threads of its own, and fails
/// where the system gives it none.
#[verifier::external_body]
fn jpeg_decode(data: &[u8]) -> (out: Result<Vec<u8>, jpeg_decoder::Error>)
    ensures
        out matches Ok(pixels) ==> pixels@ == jpeg_pixels(data@),
{
    jpeg_decoder::Decoder::new(data).decode()
}

/// The text of an error of the `jpeg-decoder` crate, as its `Display` gives it.
#[verifier::external_body]
fn jpeg_error_text(error: &jpeg_decoder::Error) -> (out: String) {
    format!("{}", error)
}

/// Decodes the compressed image of the frame at position `index`.
///
/// The decoder decides whether this succeeds. Where it does, the result is
/// the decoder's pixels; where it does not, the error carries the frame's
/// position.
pub fn decode(index: usize, data: &[u8]) -> (out: Result<Vec<u8>, DecodeFailure>)
    ensures
        match out {
            Ok(pixels) => pixels@ == jpeg_pixels(data@),
            Err(e) => e.index == index,
        },
{
    match jpeg_decode(data) {
        Ok(pixels) => Ok(pixels),
        Err(e) => Err(DecodeFailure { index, reason: jpeg_error_text(&e) }),
    }
}

} // verus!
