//! Packed 4:2:2 luma/chroma (YUYV) to interleaved RGB or RGBA.
//!
//! Four source bytes `[Y1, U, Y2, V]` hold two neighbouring pixels that share
//! one chroma pair. Each pixel becomes three colour bytes, followed by an
//! opaque alpha byte where RGBA is asked for.
//!
//! The colour arithmetic keeps the low eight bits of each channel: a value
//! outside 0..=255 wraps, it is not clamped.

use crate::error::{BevyGstError, ErrorView};
use crate::text::{decimal, decimal_string};
use crate::types::FrameFormat;
use vstd::prelude::*;

verus! {

/// The low eight bits of `x` shifted right by eight places: the floor of
/// `x / 256`, reduced modulo 256.
pub open spec fn narrow(x: int) -> u8 {
    ((x / 256) % 256) as u8
}

/// The luma term shared by the three channels.
pub open spec fn luma_term(y: int) -> int {
    (y - 16) * 298
}

/// The red channel of a pixel with luma `y` and chroma `u`, `v`.
pub open spec fn red(y: int, u: int, v: int) -> u8 {
    narrow(luma_term(y) + 409 * (v - 128) + 128)
}

/// The green channel of a pixel with luma `y` and chroma `u`, `v`.
pub open spec fn green(y: int, u: int, v: int) -> u8 {
    narrow(luma_term(y) - 100 * (u - 128) - 208 * (v - 128) + 128)
}

/// The blue channel of a pixel with luma `y` and chroma `u`, `v`.
pub open spec fn blue(y: int, u: int, v: int) -> u8 {
    narrow(luma_term(y) + 516 * (u - 128) + 128)
}

/// Bytes per decoded pixel: four with an alpha channel, three without.
pub open spec fn pixel_size(rgba: bool) -> nat {
    if rgba {
        4
    } else {
        3
    }
}

/// Length of what a source of `source_len` bytes decodes to: two pixels for
/// every four source bytes.
pub open spec fn decoded_len(source_len: nat, rgba: bool) -> nat {
    (source_len / 4) * 2 * pixel_size(rgba)
}

/// The byte at position `k` of the decoded image of `data`.
pub open spec fn decoded_byte(data: Seq<u8>, rgba: bool, k: int) -> u8 {
    let size = pixel_size(rgba) as int;
    let pixel = k / size;
    let channel = k % size;
    let group = pixel / 2;
    let y = data[4 * group + 2 * (pixel % 2)] as int;
    let u = data[4 * group + 1] as int;
    let v = data[4 * group + 3] as int;
    if channel == 0 {
        red(y, u, v)
    } else if channel == 1 {
        green(y, u, v)
    } else if channel == 2 {
        blue(y, u, v)
    } else {
        255
    }
}

/// The decoded image of `data`, pixel after pixel in source order.
pub open spec fn decoded(data: Seq<u8>, rgba: bool) -> Seq<u8> {
    Seq::new(decoded_len(data.len(), rgba), |k: int| decoded_byte(data, rgba, k))
}

/// The error for a source whose length is no multiple of four.
pub open spec fn not_422() -> ErrorView {
    ErrorView::ProcessFrameError {
        src: FrameFormat::YUYV,
        destination: "RGB888"@,
        error: "Assertion failure, the YUV stream isn't 4:2:2! (wrong number of bytes)"@,
    }
}

/// The error for a destination of `actual` bytes where `expected` are needed.
pub open spec fn wrong_destination_size(expected: nat, actual: nat) -> ErrorView {
    ErrorView::ProcessFrameError {
        src: FrameFormat::YUYV,
        destination: "RGB888"@,
        error: "Assertion failure, the destination RGB buffer is of the wrong size! [expected: "@
            + decimal(expected) + ", actual: "@ + decimal(actual) + "]"@,
    }
}

/// What converting `data` gives: the decoded image, or the error for a source
/// whose length is no multiple of four.
pub open spec fn converted(data: Seq<u8>, rgba: bool) -> Result<Seq<u8>, ErrorView> {
    if data.len() % 4 != 0 {
        Err(not_422())
    } else {
        Ok(decoded(data, rgba))
    }
}

/// What decoding `data` into a destination that holds `before` leaves there:
/// the decoded image where both lengths fit, else the error for the first
/// length that does not, the source's before the destination's.
pub open spec fn written(data: Seq<u8>, before: Seq<u8>, rgba: bool) -> Result<
    Seq<u8>,
    ErrorView,
> {
    if data.len() % 4 != 0 {
        Err(not_422())
    } else if before.len() != decoded_len(data.len(), rgba) {
        Err(wrong_destination_size(decoded_len(data.len(), rgba), before.len()))
    } else {
        Ok(decoded(data, rgba))
    }
}

/// One colour channel from the sum of its terms.
fn channel(sum: i64) -> (byte: u8)
    ensures
        byte == narrow(sum as int),
{
    let shifted: i64 = sum >> 8;
    let byte: u8 = #[verifier::truncate]
    (shifted as u8);
    assert(shifted == sum / 256) by (bit_vector)
        requires
            shifted == sum >> 8,
    ;
    assert(byte == shifted % 256) by (bit_vector)
        requires
            byte == shifted as u8,
    ;
    byte
}

/// Converts one pixel from luma and chroma to red, green and blue. The sums
/// are formed in 64 bits, so no input overflows them.
#[must_use]
#[inline]
pub fn yuyv444_to_rgb(y: i32, u: i32, v: i32) -> (pixel: [u8; 3])
    ensures
        pixel@ == seq![
            red(y as int, u as int, v as int),
            green(y as int, u as int, v as int),
            blue(y as int, u as int, v as int),
        ],
{
    let c298: i64 = (y as i64 - 16) * 298;
    let d: i64 = u as i64 - 128;
    let e: i64 = v as i64 - 128;
    let r: u8 = channel(c298 + 409 * e + 128);
    let g: u8 = channel(c298 - 100 * d - 208 * e + 128);
    let b: u8 = channel(c298 + 516 * d + 128);
    let pixel = [r, g, b];
    assert(pixel@ =~= seq![r, g, b]);
    pixel
}

/// As [`yuyv444_to_rgb`], with an opaque alpha channel attached.
#[must_use]
#[inline]
pub fn yuyv444_to_rgba(y: i32, u: i32, v: i32) -> (pixel: [u8; 4])
    ensures
        pixel@ == seq![
            red(y as int, u as int, v as int),
            green(y as int, u as int, v as int),
            blue(y as int, u as int, v as int),
            255u8,
        ],
{
    let rgb = yuyv444_to_rgb(y, u, v);
    let pixel = [rgb[0], rgb[1], rgb[2], 255];
    assert(pixel@ =~= seq![rgb[0], rgb[1], rgb[2], 255u8]);
    pixel
}

/// The six bytes that group `g` of `data` decodes to without alpha.
proof fn lemma_group_rgb(data: Seq<u8>, g: int)
    requires
        0 <= g,
    ensures
        decoded_byte(data, false, 6 * g) == red(
            data[4 * g] as int,
            data[4 * g + 1] as int,
            data[4 * g + 3] as int,
        ),
        decoded_byte(data, false, 6 * g + 1) == green(
            data[4 * g] as int,
            data[4 * g + 1] as int,
            data[4 * g + 3] as int,
        ),
        decoded_byte(data, false, 6 * g + 2) == blue(
            data[4 * g] as int,
            data[4 * g + 1] as int,
            data[4 * g + 3] as int,
        ),
        decoded_byte(data, false, 6 * g + 3) == red(
            data[4 * g + 2] as int,
            data[4 * g + 1] as int,
            data[4 * g + 3] as int,
        ),
        decoded_byte(data, false, 6 * g + 4) == green(
            data[4 * g + 2] as int,
            data[4 * g + 1] as int,
            data[4 * g + 3] as int,
        ),
        decoded_byte(data, false, 6 * g + 5) == blue(
            data[4 * g + 2] as int,
            data[4 * g + 1] as int,
            data[4 * g + 3] as int,
        ),
{
}

/// The eight bytes that group `g` of `data` decodes to with alpha.
proof fn lemma_group_rgba(data: Seq<u8>, g: int)
    requires
        0 <= g,
    ensures
        decoded_byte(data, true, 8 * g) == red(
            data[4 * g] as int,
            data[4 * g + 1] as int,
            data[4 * g + 3] as int,
        ),
        decoded_byte(data, true, 8 * g + 1) == green(
            data[4 * g] as int,
            data[4 * g + 1] as int,
            data[4 * g + 3] as int,
        ),
        decoded_byte(data, true, 8 * g + 2) == blue(
            data[4 * g] as int,
            data[4 * g + 1] as int,
            data[4 * g + 3] as int,
        ),
        decoded_byte(data, true, 8 * g + 3) == 255,
        decoded_byte(data, true, 8 * g + 4) == red(
            data[4 * g + 2] as int,
            data[4 * g + 1] as int,
            data[4 * g + 3] as int,
        ),
        decoded_byte(data, true, 8 * g + 5) == green(
            data[4 * g + 2] as int,
            data[4 * g + 1] as int,
            data[4 * g + 3] as int,
        ),
        decoded_byte(data, true, 8 * g + 6) == blue(
            data[4 * g + 2] as int,
            data[4 * g + 1] as int,
            data[4 * g + 3] as int,
        ),
        decoded_byte(data, true, 8 * g + 7) == 255,
{
}

fn not_422_error() -> (e: BevyGstError)
    ensures
        e@ == not_422(),
{
    BevyGstError::ProcessFrameError {
        src: FrameFormat::YUYV,
        destination: "RGB888".to_owned(),
        error: "Assertion failure, the YUV stream isn't 4:2:2! (wrong number of bytes)".to_owned(),
    }
}

fn wrong_destination_size_error(expected: u128, actual: usize) -> (e: BevyGstError)
    ensures
        e@ == wrong_destination_size(expected as nat, actual as nat),
{
    let mut error =
        "Assertion failure, the destination RGB buffer is of the wrong size! [expected: ".to_owned();
    error.append(decimal_string(expected).as_str());
    error.append(", actual: ");
    error.append(decimal_string(actual as u128).as_str());
    error.append("]");
    BevyGstError::ProcessFrameError {
        src: FrameFormat::YUYV,
        destination: "RGB888".to_owned(),
        error,
    }
}

/// Decodes packed 4:2:2 `data` into `dest`, which must have exactly the
/// length of the decoded image. On an error `dest` is left as it was.
pub fn buf_yuyv422_to_rgb(data: &[u8], dest: &mut [u8], rgba: bool) -> (res: Result<
    (),
    BevyGstError,
>)
    ensures
        match res {
            Ok(()) => written(data@, old(dest)@, rgba) == Ok::<Seq<u8>, ErrorView>(final(dest)@),
            Err(e) => written(data@, old(dest)@, rgba) == Err::<Seq<u8>, ErrorView>(e@)
                && final(dest)@ == old(dest)@,
        },
{
    if data.len() % 4 != 0 {
        return Err(not_422_error());
    }
    let groups: usize = data.len() / 4;
    // two pixels for each group of four source bytes
    let expected: u128 = if rgba {
        (groups as u128) * 8
    } else {
        (groups as u128) * 6
    };
    assert(expected == decoded_len(data@.len(), rgba));
    if dest.len() as u128 != expected {
        return Err(wrong_destination_size_error(expected, dest.len()));
    }
    let mut g: usize = 0;
    if rgba {
        while g < groups
            invariant
                data@.len() == 4 * groups,
                dest@.len() == 8 * groups,
                dest@.len() <= usize::MAX,
                g <= groups,
                forall|k: int| 0 <= k < g * 8 ==> dest@[k] == decoded_byte(data@, true, k),
            decreases groups - g,
        {
            let y1 = data[4 * g] as i32;
            let u = data[4 * g + 1] as i32;
            let y2 = data[4 * g + 2] as i32;
            let v = data[4 * g + 3] as i32;
            let pixel1 = yuyv444_to_rgba(y1, u, v);
            let pixel2 = yuyv444_to_rgba(y2, u, v);
            let at: usize = 8 * g;
            let ghost before = dest@;
            dest[at] = pixel1[0];
            dest[at + 1] = pixel1[1];
            dest[at + 2] = pixel1[2];
            dest[at + 3] = pixel1[3];
            dest[at + 4] = pixel2[0];
            dest[at + 5] = pixel2[1];
            dest[at + 6] = pixel2[2];
            dest[at + 7] = pixel2[3];
            proof {
                lemma_group_rgba(data@, g as int);
                assert forall|k: int| 0 <= k < (g + 1) * 8 implies dest@[k] == decoded_byte(
                    data@,
                    true,
                    k,
                ) by {
                    if k < 8 * g {
                        assert(dest@[k] == before[k]);
                    }
                }
            }
            g += 1;
        }
    } else {
        while g < groups
            invariant
                data@.len() == 4 * groups,
                dest@.len() == 6 * groups,
                dest@.len() <= usize::MAX,
                g <= groups,
                forall|k: int| 0 <= k < g * 6 ==> dest@[k] == decoded_byte(data@, false, k),
            decreases groups - g,
        {
            let y1 = data[4 * g] as i32;
            let u = data[4 * g + 1] as i32;
            let y2 = data[4 * g + 2] as i32;
            let v = data[4 * g + 3] as i32;
            let pixel1 = yuyv444_to_rgb(y1, u, v);
            let pixel2 = yuyv444_to_rgb(y2, u, v);
            let at: usize = 6 * g;
            let ghost before = dest@;
            dest[at] = pixel1[0];
            dest[at + 1] = pixel1[1];
            dest[at + 2] = pixel1[2];
            dest[at + 3] = pixel2[0];
            dest[at + 4] = pixel2[1];
            dest[at + 5] = pixel2[2];
            proof {
                lemma_group_rgb(data@, g as int);
                assert forall|k: int| 0 <= k < (g + 1) * 6 implies dest@[k] == decoded_byte(
                    data@,
                    false,
                    k,
                ) by {
                    if k < 6 * g {
                        assert(dest@[k] == before[k]);
                    }
                }
            }
            g += 1;
        }
    }
    assert(dest@ =~= decoded(data@, rgba));
    Ok(())
}

/// Decodes packed 4:2:2 `data` into a new buffer of RGB pixels, or of RGBA
/// pixels where `rgba` is set.
pub fn yuyv422_to_rgb(data: &[u8], rgba: bool) -> (res: Result<Vec<u8>, BevyGstError>)
    ensures
        match res {
            Ok(pixels) => converted(data@, rgba) == Ok::<Seq<u8>, ErrorView>(pixels@),
            Err(e) => converted(data@, rgba) == Err::<Seq<u8>, ErrorView>(e@),
        },
        res matches Ok(pixels) ==> pixels@.len() == decoded_len(data@.len(), rgba),
{
    if data.len() % 4 != 0 {
        return Err(not_422_error());
    }
    let groups: usize = data.len() / 4;
    let mut dest: Vec<u8> = Vec::new();
    let mut g: usize = 0;
    // yuyv yields two pixels per chunk of four bytes
    while g < groups
        invariant
            data@.len() == 4 * groups,
            data@.len() <= usize::MAX,
            g <= groups,
            dest@.len() == g * 2 * pixel_size(rgba),
            forall|k: int| 0 <= k < dest@.len() ==> dest@[k] == decoded_byte(data@, rgba, k),
        decreases groups - g,
    {
        let y1 = data[4 * g] as i32;
        let u = data[4 * g + 1] as i32;
        let y2 = data[4 * g + 2] as i32;
        let v = data[4 * g + 3] as i32;
        let pixel1 = yuyv444_to_rgb(y1, u, v);
        let pixel2 = yuyv444_to_rgb(y2, u, v);
        let ghost before = dest@;
        dest.push(pixel1[0]);
        dest.push(pixel1[1]);
        dest.push(pixel1[2]);
        if rgba {
            dest.push(255);
        }
        dest.push(pixel2[0]);
        dest.push(pixel2[1]);
        dest.push(pixel2[2]);
        if rgba {
            dest.push(255);
        }
        proof {
            if rgba {
                lemma_group_rgba(data@, g as int);
            } else {
                lemma_group_rgb(data@, g as int);
            }
            assert forall|k: int| 0 <= k < dest@.len() implies dest@[k] == decoded_byte(
                data@,
                rgba,
                k,
            ) by {
                if k < before.len() {
                    assert(dest@[k] == before[k]);
                }
            }
        }
        g += 1;
    }
    assert(dest@ =~= decoded(data@, rgba));
    Ok(dest)
}

/// A source of `4 * n` bytes decodes to `6 * n` bytes of RGB and to `8 * n`
/// bytes of RGBA.
pub proof fn lemma_decoded_len(data: Seq<u8>, n: nat)
    requires
        data.len() == 4 * n,
    ensures
        converted(data, false) matches Ok(pixels) && pixels.len() == 6 * n,
        converted(data, true) matches Ok(pixels) && pixels.len() == 8 * n,
{
}

/// A source whose length is no multiple of four is refused in both modes,
/// whatever the destination holds.
pub proof fn lemma_odd_length_refused(data: Seq<u8>, before: Seq<u8>, rgba: bool)
    requires
        data.len() % 4 != 0,
    ensures
        converted(data, rgba) == Err::<Seq<u8>, ErrorView>(not_422()),
        written(data, before, rgba) == Err::<Seq<u8>, ErrorView>(not_422()),
{
}

/// A destination of any length but that of the decoded image is refused.
pub proof fn lemma_wrong_destination_refused(data: Seq<u8>, before: Seq<u8>, rgba: bool)
    requires
        data.len() % 4 == 0,
        before.len() != decoded_len(data.len(), rgba),
    ensures
        written(data, before, rgba) == Err::<Seq<u8>, ErrorView>(
            wrong_destination_size(decoded_len(data.len(), rgba), before.len()),
        ),
{
}

/// Luma 235 with neutral chroma, repeated, decodes to full white: every
/// byte of the image, alpha included, is 255.
pub proof fn lemma_peak_white(data: Seq<u8>, rgba: bool)
    requires
        data.len() % 4 == 0,
        forall|i: int| 0 <= i < data.len() ==> data[i] == (if i % 2 == 0 { 235u8 } else { 128u8 }),
    ensures
        converted(data, rgba) matches Ok(pixels) && forall|k: int|
            0 <= k < pixels.len() ==> pixels[k] == 255,
{
    let pixels = decoded(data, rgba);
    assert forall|k: int| 0 <= k < pixels.len() implies pixels[k] == 255 by {
        lemma_source_positions(data, rgba, k);
    }
}

/// Luma 16 with neutral chroma, repeated, decodes to black: every colour
/// byte is 0, and every alpha byte 255.
pub proof fn lemma_black(data: Seq<u8>, rgba: bool)
    requires
        data.len() % 4 == 0,
        forall|i: int| 0 <= i < data.len() ==> data[i] == (if i % 2 == 0 { 16u8 } else { 128u8 }),
    ensures
        converted(data, rgba) matches Ok(pixels) && forall|k: int|
            0 <= k < pixels.len() ==> pixels[k] == (if rgba && k % 4 == 3 { 255u8 } else { 0u8 }),
{
    let pixels = decoded(data, rgba);
    assert forall|k: int| 0 <= k < pixels.len() implies pixels[k] == (if rgba && k % 4 == 3 {
        255u8
    } else {
        0u8
    }) by {
        lemma_source_positions(data, rgba, k);
    }
}

/// The source bytes that byte `k` of the decoded image is made from lie
/// inside the source: the luma at an even position, the chroma at odd ones.
proof fn lemma_source_positions(data: Seq<u8>, rgba: bool, k: int)
    requires
        0 <= k < decoded_len(data.len(), rgba),
    ensures
        ({
            let pixel = k / (pixel_size(rgba) as int);
            let group = pixel / 2;
            &&& 0 <= group
            &&& 4 * group + 3 < data.len()
            &&& (4 * group + 2 * (pixel % 2)) % 2 == 0
        }),
{
}

} // verus!
