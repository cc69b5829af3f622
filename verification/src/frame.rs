//! The conversion facade: picks the decoder by the encoding that was
//! detected in the stream, then fits what it made to the declared geometry.
//!
//! Fitting is lenient unless the caller asks otherwise: a decoded buffer
//! that is too short is padded with zero bytes, which shows as black, and one
//! that is too long loses its tail. A frame whose declared geometry is wrong
//! is therefore changed rather than refused. This is a choice of policy;
//! [`ResizePolicy::Strict`] refuses such a frame instead.

use crate::error::{BevyGstError, ErrorView};
use crate::mjpeg::{is_decode_failure, mjpeg_to_rgb24, within_decoder_limits};
use crate::types::{CameraFormat, FrameFormat};
use crate::yuyv::{converted, pixel_size, yuyv422_to_rgb};
use vstd::prelude::*;

verus! {

/// Number of bytes in an image of `width` by `height` pixels.
pub open spec fn geometry_len(width: u32, height: u32, rgba: bool) -> nat {
    (width as nat) * (height as nat) * pixel_size(rgba)
}

/// Computes [`geometry_len`], in a type wide enough for every geometry.
fn byte_count(width: u32, height: u32, rgba: bool) -> (n: u128)
    ensures
        n == geometry_len(width, height, rgba),
{
    assert(0 <= (width as int) * (height as int) <= 0xffff_ffff * 0xffff_ffff)
        by (nonlinear_arith)
        requires
            0 <= width <= 0xffff_ffff,
            0 <= height <= 0xffff_ffff,
    ;
    let area: u128 = (width as u128) * (height as u128);
    if rgba {
        area * 4
    } else {
        area * 3
    }
}

/// The mathematical value of a [`PixelBuffer`].
pub struct PixelBufferView {
    pub width: u32,
    pub height: u32,
    pub rgba: bool,
    pub pixels: Seq<u8>,
}

/// Interleaved pixels together with their geometry. The buffer always holds
/// exactly `width * height * channels` bytes.
#[derive(Debug)]
pub struct PixelBuffer {
    width: u32,
    height: u32,
    rgba: bool,
    data: Vec<u8>,
}

impl View for PixelBuffer {
    type V = PixelBufferView;

    closed spec fn view(&self) -> PixelBufferView {
        PixelBufferView {
            width: self.width,
            height: self.height,
            rgba: self.rgba,
            pixels: self.data@,
        }
    }
}

impl PixelBuffer {
    #[verifier::type_invariant]
    spec fn exact(&self) -> bool {
        self.data@.len() == geometry_len(self.width, self.height, self.rgba)
    }

    /// Tags `data` with a geometry, where it has exactly the length that the
    /// geometry asks for.
    pub fn from_vec(width: u32, height: u32, rgba: bool, data: Vec<u8>) -> (res: Option<Self>)
        ensures
            res is Some <==> data@.len() == geometry_len(width, height, rgba),
            res matches Some(buffer) ==> buffer@ == (PixelBufferView {
                width,
                height,
                rgba,
                pixels: data@,
            }),
    {
        let needed: u128 = byte_count(width, height, rgba);
        if data.len() as u128 == needed {
            Some(PixelBuffer { width, height, rgba, data })
        } else {
            None
        }
    }

    /// Width in pixels.
    pub fn width(&self) -> (w: u32)
        ensures
            w == self@.width,
    {
        self.width
    }

    /// Height in pixels.
    pub fn height(&self) -> (h: u32)
        ensures
            h == self@.height,
    {
        self.height
    }

    /// Bytes per pixel: four with an alpha channel, three without.
    pub fn channels(&self) -> (n: usize)
        ensures
            n == pixel_size(self@.rgba),
    {
        if self.rgba {
            4
        } else {
            3
        }
    }

    /// The pixels, row after row: exactly as many bytes as the geometry
    /// asks for.
    pub fn as_slice(&self) -> (bytes: &[u8])
        ensures
            bytes@ == self@.pixels,
            bytes@.len() == geometry_len(self@.width, self@.height, self@.rgba),
    {
        proof {
            use_type_invariant(self);
        }
        self.data.as_slice()
    }

    /// Gives up the geometry and hands out the pixels.
    pub fn into_vec(self) -> (bytes: Vec<u8>)
        ensures
            bytes@ == self@.pixels,
            bytes@.len() == geometry_len(self@.width, self@.height, self@.rgba),
    {
        proof {
            use_type_invariant(&self);
        }
        self.data
    }
}

/// What is done with a decoded buffer whose length is not that of the
/// declared geometry.
#[derive(Copy, Clone, Debug, PartialEq, Eq, Structural)]
pub enum ResizePolicy {
    /// Pad it with zeros, or cut it.
    Lenient,
    /// Refuse it.
    Strict,
}

/// `bytes` cut or padded with zeros to exactly `len` bytes.
pub open spec fn resized(bytes: Seq<u8>, len: nat) -> Seq<u8> {
    Seq::new(
        len,
        |i: int|
            if i < bytes.len() {
                bytes[i]
            } else {
                0u8
            },
    )
}

/// The error for a buffer that cannot be given the length of its geometry.
pub open spec fn size_invariant_failure() -> ErrorView {
    ErrorView::ReadFrameError(
        "Imagebuffer is not large enough! This is probably a bug, please report it!"@,
    )
}

/// The error for an encoding that no decoder of the library reads.
pub open spec fn unsupported_format(detected: FrameFormat) -> ErrorView {
    ErrorView::NotImplementedError("Not supported frame format "@ + detected.name())
}

/// What fitting `decoded` to a geometry gives: the buffer resized to the
/// geometry's length, or the size error where no buffer can have that
/// length.
pub open spec fn fitted(decoded: Seq<u8>, width: u32, height: u32, rgba: bool) -> Result<
    PixelBufferView,
    ErrorView,
> {
    if geometry_len(width, height, rgba) <= usize::MAX {
        Ok(
            PixelBufferView {
                width,
                height,
                rgba,
                pixels: resized(decoded, geometry_len(width, height, rgba)),
            },
        )
    } else {
        Err(size_invariant_failure())
    }
}

/// What fitting `decoded` to a geometry gives under `policy`. The lenient
/// policy resizes, see [`fitted`]; the strict one takes the buffer as it is
/// where it has the geometry's length, and gives the size error where it has
/// not.
pub open spec fn fitted_by(
    policy: ResizePolicy,
    decoded: Seq<u8>,
    width: u32,
    height: u32,
    rgba: bool,
) -> Result<PixelBufferView, ErrorView> {
    match policy {
        ResizePolicy::Lenient => fitted(decoded, width, height, rgba),
        ResizePolicy::Strict => if decoded.len() == geometry_len(width, height, rgba) {
            Ok(PixelBufferView { width, height, rgba, pixels: decoded })
        } else {
            Err(size_invariant_failure())
        },
    }
}

/// Whether `res` is what `expected` describes.
pub open spec fn agrees(
    res: Result<PixelBuffer, BevyGstError>,
    expected: Result<PixelBufferView, ErrorView>,
) -> bool {
    match res {
        Ok(buffer) => expected == Ok::<PixelBufferView, ErrorView>(buffer@),
        Err(e) => expected == Err::<PixelBufferView, ErrorView>(e@),
    }
}

/// Resizing gives exactly the length asked for. A buffer that is too short
/// is kept whole and followed by zeros; one that is too long keeps its first
/// `len` bytes.
pub proof fn lemma_resized(bytes: Seq<u8>, len: nat)
    ensures
        resized(bytes, len).len() == len,
        bytes.len() <= len ==> resized(bytes, len) == bytes + Seq::new(
            (len - bytes.len()) as nat,
            |i: int| 0u8,
        ),
        bytes.len() >= len ==> resized(bytes, len) == bytes.subrange(0, len as int),
{
    if bytes.len() <= len {
        assert(resized(bytes, len) =~= bytes + Seq::new(
            (len - bytes.len()) as nat,
            |i: int| 0u8,
        ));
    }
    if bytes.len() >= len {
        assert(resized(bytes, len) =~= bytes.subrange(0, len as int));
    }
}

/// Whatever the policy and the decoded bytes, a buffer that fitting gives
/// carries the declared geometry and has exactly the geometry's length.
pub proof fn lemma_fitted_exact(
    policy: ResizePolicy,
    decoded: Seq<u8>,
    width: u32,
    height: u32,
    rgba: bool,
)
    ensures
        fitted_by(policy, decoded, width, height, rgba) matches Ok(buffer) ==> buffer.width
            == width && buffer.height == height && buffer.rgba == rgba && buffer.pixels.len()
            == geometry_len(width, height, rgba),
{
}

/// On a buffer that a `Vec` can hold and that has the geometry's length,
/// both policies give the same: the buffer unchanged. On any other the
/// strict policy gives the size error.
pub proof fn lemma_policies(decoded: Seq<u8>, width: u32, height: u32, rgba: bool)
    requires
        decoded.len() <= usize::MAX,
    ensures
        decoded.len() == geometry_len(width, height, rgba) ==> fitted_by(
            ResizePolicy::Strict,
            decoded,
            width,
            height,
            rgba,
        ) == fitted_by(ResizePolicy::Lenient, decoded, width, height, rgba) && fitted_by(
            ResizePolicy::Strict,
            decoded,
            width,
            height,
            rgba,
        ) == Ok::<PixelBufferView, ErrorView>(
            PixelBufferView { width, height, rgba, pixels: decoded },
        ),
        decoded.len() != geometry_len(width, height, rgba) ==> fitted_by(
            ResizePolicy::Strict,
            decoded,
            width,
            height,
            rgba,
        ) == Err::<PixelBufferView, ErrorView>(size_invariant_failure()),
{
    if decoded.len() == geometry_len(width, height, rgba) {
        assert(resized(decoded, geometry_len(width, height, rgba)) =~= decoded);
    }
}

fn size_invariant_error() -> (e: BevyGstError)
    ensures
        e@ == size_invariant_failure(),
{
    BevyGstError::ReadFrameError(
        "Imagebuffer is not large enough! This is probably a bug, please report it!".to_owned(),
    )
}

fn unsupported_format_error(detected: FrameFormat) -> (e: BevyGstError)
    ensures
        e@ == unsupported_format(detected),
{
    let mut what = "Not supported frame format ".to_owned();
    what.append(detected.to_string().as_str());
    BevyGstError::NotImplementedError(what)
}

/// Fits decoded bytes to the declared geometry under `policy`, and tags them
/// with the geometry. The lenient policy pads them with zeros or cuts them
/// to `width * height * channels` bytes; the strict one refuses them unless
/// they have that length already.
pub fn fit_to_geometry_with(
    policy: ResizePolicy,
    decoded: Vec<u8>,
    width: u32,
    height: u32,
    rgba: bool,
) -> (res: Result<PixelBuffer, BevyGstError>)
    ensures
        agrees(res, fitted_by(policy, decoded@, width, height, rgba)),
{
    let mut buffer = decoded;
    match policy {
        ResizePolicy::Lenient => {
            let needed: u128 = byte_count(width, height, rgba);
            if needed > usize::MAX as u128 {
                return Err(size_invariant_error());
            }
            let ghost before = buffer@;
            buffer.resize(needed as usize, 0u8);
            assert(buffer@ =~= resized(before, needed as nat)) by {
                if needed > before.len() {
                    assert(forall|i: int|
                        0 <= i < before.len() ==> buffer@[i] == buffer@.subrange(
                            0,
                            before.len() as int,
                        )[i]);
                }
            }
        },
        ResizePolicy::Strict => {},
    }
    match PixelBuffer::from_vec(width, height, rgba, buffer) {
        Some(image) => Ok(image),
        None => Err(size_invariant_error()),
    }
}

/// Fits decoded bytes to the declared geometry: pads them with zeros or
/// cuts them to `width * height * channels` bytes and tags them with the
/// geometry.
pub fn fit_to_geometry(decoded: Vec<u8>, width: u32, height: u32, rgba: bool) -> (res: Result<
    PixelBuffer,
    BevyGstError,
>)
    ensures
        agrees(res, fitted(decoded@, width, height, rgba)),
{
    fit_to_geometry_with(ResizePolicy::Lenient, decoded, width, height, rgba)
}

/// Whether `res` is what the facade owes for a frame of `data` in the
/// `detected` encoding and a geometry of `width` by `height`.
///
/// Packed 4:2:2 and raw RGB fix the result. For a JPEG frame the result is
/// either a decoder failure or what fitting gives for some pixels: those
/// that the decoder made.
pub open spec fn converts_to(
    policy: ResizePolicy,
    detected: FrameFormat,
    data: Seq<u8>,
    width: u32,
    height: u32,
    rgba: bool,
    res: Result<PixelBuffer, BevyGstError>,
) -> bool {
    match detected {
        FrameFormat::YUYV => match converted(data, rgba) {
            Ok(pixels) => agrees(res, fitted_by(policy, pixels, width, height, rgba)),
            Err(refused) => res matches Err(e) && e@ == refused,
        },
        FrameFormat::RAWRGB => agrees(res, fitted_by(policy, data, width, height, rgba)),
        FrameFormat::MJPEG => (res matches Err(e) && is_decode_failure(e@)) || exists|
            pixels: Seq<u8>,
        |
            agrees(res, #[trigger] fitted_by(policy, pixels, width, height, rgba)),
        FrameFormat::NV12 | FrameFormat::GRAY => res matches Err(e) && e@ == unsupported_format(
            detected,
        ),
    }
}

/// Converts a captured frame to a pixel buffer of the declared geometry.
///
/// `format` declares width and height, `detected` is the encoding found in
/// the stream, and `rgba` asks for an alpha channel. Packed 4:2:2 is decoded
/// to RGB or RGBA, JPEG is decoded by the JPEG adapter, raw RGB is copied,
/// and any other encoding is refused. What was decoded is then fitted to the
/// geometry under `policy`.
///
/// A JPEG frame has to be within the decoder's limits, which
/// [`fits_decoder`](crate::mjpeg::fits_decoder) tests.
pub fn convert_frame_with(
    policy: ResizePolicy,
    format: CameraFormat,
    detected: FrameFormat,
    data: &[u8],
    rgba: bool,
) -> (res: Result<PixelBuffer, BevyGstError>)
    requires
        detected == FrameFormat::MJPEG ==> within_decoder_limits(data@),
    ensures
        converts_to(policy, detected, data@, format.width(), format.height(), rgba, res),
{
    let decoded: Vec<u8> = match detected {
        FrameFormat::YUYV => match yuyv422_to_rgb(data, rgba) {
            Ok(pixels) => pixels,
            Err(e) => {
                return Err(e);
            },
        },
        FrameFormat::MJPEG => match mjpeg_to_rgb24(data) {
            Ok(pixels) => pixels,
            Err(e) => {
                return Err(e);
            },
        },
        FrameFormat::RAWRGB => vstd::slice::slice_to_vec(data),
        FrameFormat::NV12 | FrameFormat::GRAY => {
            return Err(unsupported_format_error(detected));
        },
    };
    fit_to_geometry_with(policy, decoded, format.width(), format.height(), rgba)
}

/// Converts a captured frame to a pixel buffer of the declared geometry,
/// padding or cutting what was decoded where its length differs: see
/// [`convert_frame_with`].
pub fn convert_frame(format: CameraFormat, detected: FrameFormat, data: &[u8], rgba: bool) -> (res:
    Result<PixelBuffer, BevyGstError>)
    requires
        detected == FrameFormat::MJPEG ==> within_decoder_limits(data@),
    ensures
        converts_to(
            ResizePolicy::Lenient,
            detected,
            data@,
            format.width(),
            format.height(),
            rgba,
            res,
        ),
{
    convert_frame_with(ResizePolicy::Lenient, format, detected, data, rgba)
}

} // verus!
