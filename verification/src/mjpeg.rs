//! Baseline JPEG frames to interleaved pixels, decoded by the `jpeg-decoder`
//! crate, which is built with its `platform_independent` feature and so kept
//! to its portable code.
//!
//! The decoder multiplies block counts by eight in sixteen bits. A frame
//! header that declares more than [`MAX_FRAME_SIDE`] lines, or more samples
//! in a line, can carry such a product past sixteen bits, so the decoder is
//! given only streams in which no frame header can be read that does:
//! [`within_decoder_limits`], which [`fits_decoder`] tests.

use crate::error::{BevyGstError, ErrorView};
use crate::types::FrameFormat;
use vstd::prelude::*;

verus! {

/// `jpeg_decoder::Error`, carried from the decoder to [`failure_text`] and
/// never looked into.
#[verifier::external_type_specification]
#[verifier::external_body]
pub struct ExJpegError(jpeg_decoder::Error);

/// The most lines, and the most samples in a line, that a frame may declare:
/// the largest multiple of eight that sixteen bits hold.
pub const MAX_FRAME_SIDE: usize = 65528;

/// Whether `code` is the code of a marker that opens a frame header: one of
/// `C0` to `CF`, but for `C4`, `C8` and `CC`, which open other segments.
pub open spec fn opens_frame(code: u8) -> bool {
    0xC0 <= code <= 0xCF && code != 0xC4 && code != 0xC8 && code != 0xCC
}

/// The sixteen-bit number that `bytes` hold at `at`, high byte first.
pub open spec fn number_at(bytes: Seq<u8>, at: int) -> int {
    bytes[at] as int * 256 + bytes[at + 1] as int
}

/// Whether a frame header whose marker code stands at `at` declares sides
/// within [`MAX_FRAME_SIDE`]. The code is followed by two bytes of length
/// and one of precision, then by the number of lines and the number of
/// samples in a line. A number that the stream ends before is not asked.
pub open spec fn header_fits(bytes: Seq<u8>, at: int) -> bool {
    &&& at + 5 < bytes.len() ==> number_at(bytes, at + 4) <= MAX_FRAME_SIDE
    &&& at + 7 < bytes.len() ==> number_at(bytes, at + 6) <= MAX_FRAME_SIDE
}

/// Whether every place of `bytes` where a frame header can be read declares
/// sides within [`MAX_FRAME_SIDE`]. A marker code always follows a byte
/// `FF`, so every byte that follows one and opens a frame is such a place,
/// wherever it stands.
pub open spec fn within_decoder_limits(bytes: Seq<u8>) -> bool {
    forall|at: int|
        1 <= at < bytes.len() && bytes[at - 1] == 0xFF && opens_frame(#[trigger] bytes[at])
            ==> header_fits(bytes, at)
}

/// `jpeg_decoder::Decoder::decode`, on a decoder that `Decoder::new` made to
/// read the whole of `in_buf`.
///
/// Trusted: the call comes back on every stream within the decoder's
/// limits. Nothing is claimed of what it brings: the pixels of some frames
/// depend on the machine's byte order, and a failure may stand for a worker
/// thread that could not be started.
#[verifier::external_body]
fn decode(in_buf: &[u8]) -> (res: Result<Vec<u8>, jpeg_decoder::Error>)
    requires
        within_decoder_limits(in_buf@),
{
    jpeg_decoder::Decoder::new(in_buf).decode()
}

/// The decoder's own words for a failure, as `jpeg_decoder::Error` displays
/// itself.
///
/// Trusted: nothing is claimed of the text.
#[verifier::external_body]
fn failure_text(err: &jpeg_decoder::Error) -> (text: String) {
    err.to_string()
}

/// The error for a frame that the decoder refused with `message`.
pub open spec fn decode_failure(message: Seq<char>) -> ErrorView {
    ErrorView::ProcessFrameError {
        src: FrameFormat::MJPEG,
        destination: "RGB888"@,
        error: "Could not decode MJPEG: "@ + message,
    }
}

/// Whether `e` is the error for a frame that the decoder refused, whatever
/// its message.
pub open spec fn is_decode_failure(e: ErrorView) -> bool {
    exists|message: Seq<char>| e == #[trigger] decode_failure(message)
}

/// What the adapter makes of the decoder's outcome: the pixels as they are,
/// or the error that carries the decoder's message.
pub open spec fn adapted(outcome: Result<Seq<u8>, Seq<char>>) -> Result<Seq<u8>, ErrorView> {
    match outcome {
        Ok(pixels) => Ok(pixels),
        Err(message) => Err(decode_failure(message)),
    }
}

/// Whether one frame header, whose marker code stands at `at`, declares
/// sides within the decoder's limits.
fn header_at_fits(in_buf: &[u8], at: usize) -> (fits: bool)
    requires
        at < in_buf@.len(),
    ensures
        fits == header_fits(in_buf@, at as int),
{
    let len = in_buf.len();
    if len - at > 5 {
        let lines: usize = (in_buf[at + 4] as usize) * 256 + (in_buf[at + 5] as usize);
        if lines > MAX_FRAME_SIDE {
            return false;
        }
    }
    if len - at > 7 {
        let samples: usize = (in_buf[at + 6] as usize) * 256 + (in_buf[at + 7] as usize);
        if samples > MAX_FRAME_SIDE {
            return false;
        }
    }
    true
}

/// Tests whether a stream is within the decoder's limits.
pub fn fits_decoder(in_buf: &[u8]) -> (fits: bool)
    ensures
        fits == within_decoder_limits(in_buf@),
{
    let len = in_buf.len();
    let mut at: usize = 1;
    while at < len
        invariant
            len == in_buf@.len(),
            1 <= at,
            forall|k: int|
                1 <= k < at && k < len && in_buf@[k - 1] == 0xFF && opens_frame(
                    #[trigger] in_buf@[k],
                ) ==> header_fits(in_buf@, k),
        decreases len - at,
    {
        let code = in_buf[at];
        if in_buf[at - 1] == 0xFF && 0xC0 <= code && code <= 0xCF && code != 0xC4 && code != 0xC8
            && code != 0xCC {
            if !header_at_fits(in_buf, at) {
                return false;
            }
        }
        at += 1;
    }
    true
}

/// Builds the error for a frame that the decoder refused with `message`.
pub fn decode_failure_error(message: &str) -> (e: BevyGstError)
    ensures
        e@ == decode_failure(message@),
{
    let mut error = "Could not decode MJPEG: ".to_owned();
    error.append(message);
    BevyGstError::ProcessFrameError {
        src: FrameFormat::MJPEG,
        destination: "RGB888".to_owned(),
        error,
    }
}

/// Turns the decoder's outcome into the adapter's result: pixels are handed
/// on unchanged, and a failure becomes the error that carries its message.
pub fn adapt(outcome: Result<Vec<u8>, String>) -> (res: Result<Vec<u8>, BevyGstError>)
    ensures
        match outcome {
            Ok(decoded) => res == Ok::<Vec<u8>, BevyGstError>(decoded),
            Err(message) => res matches Err(e) && e@ == decode_failure(message@),
        },
{
    match outcome {
        Ok(decoded) => Ok(decoded),
        Err(message) => Err(decode_failure_error(message.as_str())),
    }
}

/// Decodes one baseline JPEG frame. The pixels are handed back as the
/// decoder made them; they are not held against any declared geometry.
///
/// The result is [`adapt`] of the decoder's outcome, so an error is always
/// a decoder failure.
pub fn mjpeg_to_rgb24(in_buf: &[u8]) -> (res: Result<Vec<u8>, BevyGstError>)
    requires
        within_decoder_limits(in_buf@),
    ensures
        res matches Err(e) ==> is_decode_failure(e@),
{
    let outcome = match decode(in_buf) {
        Ok(decoded) => Ok(decoded),
        Err(err) => Err(failure_text(&err)),
    };
    adapt(outcome)
}

} // verus!
