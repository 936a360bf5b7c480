//! Typed frame handles and the conversions of a frame into RGB, RGBA and luma.
//!
//! A [`Frame<F>`] wraps a [`Buffer`] whose pixel format is `F::FRAME_FORMAT`.
//! Conversions are lazy: `into_rgb()` / `into_rgba()` / `into_luma()` give a
//! conversion handle, and `materialize()` or `write_to()` runs the decoder.

use crate::buffer::{Buffer, TimestampKind};
use crate::decode::{
    buf_bgr_to_rgb, buf_nv12_extract_luma, buf_nv12_to_rgb, buf_yuyv422_to_rgb,
    buf_yuyv_extract_luma, color_target, frame_area, is_process_error, mismatch_message,
    mismatch_text, nv12_even, nv12_len, nv12_to_rgb, vec_of_zeros, yuyv422_to_rgb,
    yuyv_shape_message,
};
use crate::error::NokhwaError;
use crate::format_types::{CaptureFormat, Gray, Mjpeg, Nv12, RawBgr, RawRgb, Yuyv};
use crate::simd::{
    alpha_expanded, bgr_swap_pixels, bgr_swapped, bgr_to_rgba_simd, channel_of, nv12_decoded,
    pixel_of, pixel_size, rgb_mean, rgb_mean_pixels, rgb_to_luma_scalar, rgb_to_rgba_scalar, rgb_to_rgba_simd,
    swapped_into, yuyv_decoded, yuyv_luma,
};
use crate::text::{decimal, decimal_string, joined};
use crate::types::{FrameFormat, Resolution};
use image::{ImageBuffer, Luma, Rgb, Rgba};
use std::marker::PhantomData;
use std::time::Duration;
use vstd::prelude::*;

verus! {

// ──────────────────────────────────────────────
// Outside image types
// ──────────────────────────────────────────────

/// An RGB888 image of the `image` crate (`ImageBuffer<Rgb<u8>, Vec<u8>>`).
#[verifier::external_body]
#[derive(Debug)]
pub struct RgbImage {
    inner: ImageBuffer<Rgb<u8>, Vec<u8>>,
}

/// An RGBA8888 image of the `image` crate (`ImageBuffer<Rgba<u8>, Vec<u8>>`).
#[verifier::external_body]
#[derive(Debug)]
pub struct RgbaImage {
    inner: ImageBuffer<Rgba<u8>, Vec<u8>>,
}

/// An 8-bit luma image of the `image` crate (`ImageBuffer<Luma<u8>, Vec<u8>>`).
#[verifier::external_body]
#[derive(Debug)]
pub struct LumaImage {
    inner: ImageBuffer<Luma<u8>, Vec<u8>>,
}

/// The raw bytes an RGB image holds.
pub uninterp spec fn rgb_image_raw(img: RgbImage) -> Seq<u8>;

/// The width and height an RGB image was made with.
pub uninterp spec fn rgb_image_dims(img: RgbImage) -> (u32, u32);

/// The raw bytes an RGBA image holds.
pub uninterp spec fn rgba_image_raw(img: RgbaImage) -> Seq<u8>;

/// The width and height an RGBA image was made with.
pub uninterp spec fn rgba_image_dims(img: RgbaImage) -> (u32, u32);

/// The raw bytes a luma image holds.
pub uninterp spec fn luma_image_raw(img: LumaImage) -> Seq<u8>;

/// The width and height a luma image was made with.
pub uninterp spec fn luma_image_dims(img: LumaImage) -> (u32, u32);

/// `ImageBuffer::<Rgb<u8>, _>::from_raw`: an image over `buf` when `buf` holds at
/// least `3 * width * height` bytes, else nothing (image's `check_image_fits`).
#[verifier::external_body]
fn rgb_image_from_raw(width: u32, height: u32, buf: Vec<u8>) -> (r: Option<RgbImage>)
    ensures
        r is Some <==> 3 * width * height <= buf@.len(),
        r matches Some(img) ==> rgb_image_raw(img) == buf@ && rgb_image_dims(img) == (
            width,
            height,
        ),
{
    match ImageBuffer::from_raw(width, height, buf) {
        Some(inner) => Some(RgbImage { inner }),
        None => None,
    }
}

/// `ImageBuffer::<Rgba<u8>, _>::from_raw`: an image over `buf` when `buf` holds
/// at least `4 * width * height` bytes, else nothing.
#[verifier::external_body]
fn rgba_image_from_raw(width: u32, height: u32, buf: Vec<u8>) -> (r: Option<RgbaImage>)
    ensures
        r is Some <==> 4 * width * height <= buf@.len(),
        r matches Some(img) ==> rgba_image_raw(img) == buf@ && rgba_image_dims(img) == (
            width,
            height,
        ),
{
    match ImageBuffer::from_raw(width, height, buf) {
        Some(inner) => Some(RgbaImage { inner }),
        None => None,
    }
}

/// `ImageBuffer::<Luma<u8>, _>::from_raw`: an image over `buf` when `buf` holds
/// at least `width * height` bytes, else nothing.
#[verifier::external_body]
fn luma_image_from_raw(width: u32, height: u32, buf: Vec<u8>) -> (r: Option<LumaImage>)
    ensures
        r is Some <==> width * height <= buf@.len(),
        r matches Some(img) ==> luma_image_raw(img) == buf@ && luma_image_dims(img) == (
            width,
            height,
        ),
{
    match ImageBuffer::from_raw(width, height, buf) {
        Some(inner) => Some(LumaImage { inner }),
        None => None,
    }
}

impl RgbImage {
    /// `ImageBuffer::width`: the width the image was made with.
    #[verifier::external_body]
    pub fn width(&self) -> (r: u32)
        ensures
            r == rgb_image_dims(*self).0,
    {
        self.inner.width()
    }

    /// `ImageBuffer::height`: the height the image was made with.
    #[verifier::external_body]
    pub fn height(&self) -> (r: u32)
        ensures
            r == rgb_image_dims(*self).1,
    {
        self.inner.height()
    }

    /// `ImageBuffer::as_raw`: the raw bytes.
    #[verifier::external_body]
    pub fn as_raw(&self) -> (r: &[u8])
        ensures
            r@ == rgb_image_raw(*self),
    {
        self.inner.as_raw().as_slice()
    }

    /// `ImageBuffer::get_pixel`: the 3 bytes of pixel (`x`, `y`).
    #[verifier::external_body]
    pub fn get_pixel(&self, x: u32, y: u32) -> (r: [u8; 3])
        requires
            x < rgb_image_dims(*self).0,
            y < rgb_image_dims(*self).1,
        ensures
            forall|c: int|
                0 <= c < 3 ==> r@[c] == rgb_image_raw(*self)[3 * (y * rgb_image_dims(*self).0 + x)
                    + c],
    {
        self.inner.get_pixel(x, y).0
    }
}

impl RgbaImage {
    /// `ImageBuffer::width`: the width the image was made with.
    #[verifier::external_body]
    pub fn width(&self) -> (r: u32)
        ensures
            r == rgba_image_dims(*self).0,
    {
        self.inner.width()
    }

    /// `ImageBuffer::height`: the height the image was made with.
    #[verifier::external_body]
    pub fn height(&self) -> (r: u32)
        ensures
            r == rgba_image_dims(*self).1,
    {
        self.inner.height()
    }

    /// `ImageBuffer::as_raw`: the raw bytes.
    #[verifier::external_body]
    pub fn as_raw(&self) -> (r: &[u8])
        ensures
            r@ == rgba_image_raw(*self),
    {
        self.inner.as_raw().as_slice()
    }

    /// `ImageBuffer::get_pixel`: the 4 bytes of pixel (`x`, `y`).
    #[verifier::external_body]
    pub fn get_pixel(&self, x: u32, y: u32) -> (r: [u8; 4])
        requires
            x < rgba_image_dims(*self).0,
            y < rgba_image_dims(*self).1,
        ensures
            forall|c: int|
                0 <= c < 4 ==> r@[c] == rgba_image_raw(*self)[4 * (y * rgba_image_dims(*self).0
                    + x) + c],
    {
        self.inner.get_pixel(x, y).0
    }
}

impl LumaImage {
    /// `ImageBuffer::width`: the width the image was made with.
    #[verifier::external_body]
    pub fn width(&self) -> (r: u32)
        ensures
            r == luma_image_dims(*self).0,
    {
        self.inner.width()
    }

    /// `ImageBuffer::height`: the height the image was made with.
    #[verifier::external_body]
    pub fn height(&self) -> (r: u32)
        ensures
            r == luma_image_dims(*self).1,
    {
        self.inner.height()
    }

    /// `ImageBuffer::as_raw`: the raw bytes.
    #[verifier::external_body]
    pub fn as_raw(&self) -> (r: &[u8])
        ensures
            r@ == luma_image_raw(*self),
    {
        self.inner.as_raw().as_slice()
    }

    /// `ImageBuffer::get_pixel`: the byte of pixel (`x`, `y`).
    #[verifier::external_body]
    pub fn get_pixel(&self, x: u32, y: u32) -> (r: [u8; 1])
        requires
            x < luma_image_dims(*self).0,
            y < luma_image_dims(*self).1,
        ensures
            r@[0] == luma_image_raw(*self)[y * luma_image_dims(*self).0 + x],
    {
        self.inner.get_pixel(x, y).0
    }
}

/// The RGB888 pixels that the `image` crate decodes JPEG bytes `data` into
/// (`load_from_memory_with_format` with `ImageFormat::Jpeg`, then
/// `into_rgb8`), or `None` when they do not decode. The decode is a function
/// of the bytes alone: zune-jpeg's SIMD IDCT is documented to be bit-identical
/// to its scalar one, and its colour conversion uses the same integer
/// coefficients on every path.
pub uninterp spec fn jpeg_rgb8(data: Seq<u8>) -> Option<Seq<u8>>;

/// `image::load_from_memory_with_format(data, Jpeg)` then `into_rgb8().into_raw()`:
/// the decoded RGB888 pixels, or `None` when the bytes do not decode; the
/// result is [`jpeg_rgb8`] of the bytes.
#[verifier::external_body]
fn decode_mjpeg(data: &[u8]) -> (r: Option<Vec<u8>>)
    ensures
        (match r {
            Some(v) => Some(v@),
            None => None,
        }) == jpeg_rgb8(data@),
{
    match image::load_from_memory_with_format(data, image::ImageFormat::Jpeg) {
        Ok(img) => Some(img.into_rgb8().into_raw()),
        Err(_) => None,
    }
}

// ──────────────────────────────────────────────
// Frame
// ──────────────────────────────────────────────

/// A frame whose buffer is known to be in the pixel format `F`.
#[derive(Debug)]
pub struct Frame<F: CaptureFormat> {
    buffer: Buffer,
    _format: PhantomData<F>,
}

impl<F: CaptureFormat> Frame<F> {
    /// The wrapped buffer.
    pub closed spec fn spec_buffer(&self) -> Buffer {
        self.buffer
    }

    /// A frame over `buffer`, whose format must be `F::FRAME_FORMAT`.
    pub fn new(buffer: Buffer) -> (r: Self)
        requires
            buffer.spec_format() == F::FRAME_FORMAT,
        ensures
            r.spec_buffer() == buffer,
    {
        Frame { buffer, _format: PhantomData }
    }

    /// A frame over `buffer` when its format is `F::FRAME_FORMAT`.
    /// # Errors
    /// A format mismatch gives a [`NokhwaError::ProcessFrameError`] from the
    /// buffer's format to `Frame<expected>`.
    pub fn try_new(buffer: Buffer) -> (r: Result<Self, NokhwaError>)
        ensures
            buffer.spec_format() == F::FRAME_FORMAT ==> r is Ok && r->Ok_0.spec_buffer() == buffer,
            buffer.spec_format() != F::FRAME_FORMAT ==> r is Err && is_process_error(
                r->Err_0,
                buffer.spec_format(),
                "Frame<"@ + crate::types::frame_format_name(F::FRAME_FORMAT) + ">"@,
                "expected "@ + crate::types::frame_format_name(F::FRAME_FORMAT) + ", got "@
                    + crate::types::frame_format_name(buffer.spec_format()),
            ),
    {
        let got = buffer.source_frame_format();
        if got != F::FRAME_FORMAT {
            let expected = F::FRAME_FORMAT;
            let dst = joined(joined(String::from_str("Frame<"), expected.name()), ">");
            let msg = joined(
                joined(joined(String::from_str("expected "), expected.name()), ", got "),
                got.name(),
            );
            return Err(NokhwaError::ProcessFrameError { src: got, destination: dst, error: msg });
        }
        Ok(Frame { buffer, _format: PhantomData })
    }

    /// The frame size.
    pub fn resolution(&self) -> (r: Resolution)
        ensures
            r == self.spec_buffer().spec_resolution(),
    {
        self.buffer.resolution()
    }

    /// The frame bytes.
    pub fn buffer(&self) -> (r: &[u8])
        ensures
            r@ == self.spec_buffer().spec_data(),
    {
        self.buffer.buffer()
    }

    /// The wrapped buffer.
    pub fn as_buffer(&self) -> (r: &Buffer)
        ensures
            *r == self.spec_buffer(),
    {
        &self.buffer
    }

    /// Give back the wrapped buffer.
    pub fn into_buffer(self) -> (r: Buffer)
        ensures
            r == self.spec_buffer(),
    {
        self.buffer
    }

    /// The capture timestamp, if any.
    pub fn capture_timestamp(&self) -> (r: Option<Duration>)
        ensures
            r == match self.spec_buffer().spec_timestamp() {
                Some((d, _)) => Some(d),
                None => None::<Duration>,
            },
    {
        self.buffer.capture_timestamp()
    }

    /// The capture timestamp with its kind, if any.
    pub fn capture_timestamp_with_kind(&self) -> (r: Option<(Duration, TimestampKind)>)
        ensures
            r == self.spec_buffer().spec_timestamp(),
    {
        self.buffer.capture_timestamp_with_kind()
    }
}

impl<F: CaptureFormat> Clone for Frame<F> {
    /// A frame over a clone of the same buffer.
    fn clone(&self) -> (r: Self)
        ensures
            r.spec_buffer().spec_resolution() == self.spec_buffer().spec_resolution(),
            r.spec_buffer().spec_data() == self.spec_buffer().spec_data(),
            r.spec_buffer().spec_format() == self.spec_buffer().spec_format(),
            r.spec_buffer().spec_timestamp() == self.spec_buffer().spec_timestamp(),
    {
        Frame { buffer: self.buffer.clone(), _format: PhantomData }
    }
}


// ──────────────────────────────────────────────
// Conversion model
// ──────────────────────────────────────────────

/// `n` zero bytes.
pub open spec fn zeros(n: nat) -> Seq<u8> {
    Seq::new(n, |_i: int| 0u8)
}

/// Grayscale bytes replicated into R, G and B (plus alpha 255 when `alpha`).
pub open spec fn gray_expanded(data: Seq<u8>, alpha: bool) -> Seq<u8> {
    Seq::new(
        (data.len() * pixel_size(alpha)) as nat,
        |k: int| if channel_of(alpha, k) == 3 { 255u8 } else { data[pixel_of(alpha, k)] },
    )
}

/// BGR888 swapped into RGB888; a trailing partial pixel becomes zero bytes.
pub open spec fn bgr_padded(data: Seq<u8>) -> Seq<u8> {
    swapped_into(data, zeros(data.len()), data.len() as int / 3)
}

/// The message for raw RGB/BGR data whose length is not a multiple of 3.
pub open spec fn not_multiple_of_3_text(len: nat) -> Seq<char> {
    "input length "@ + decimal(len) + " is not a multiple of 3"@
}

/// The message when MJPEG data does not decode.
pub open spec fn mjpeg_failure_text() -> Seq<char> {
    "failed to decode MJPEG data"@
}

/// The message when a decoded image would not fit in memory once expanded.
pub open spec fn too_large_text() -> Seq<char> {
    "decoded image too large"@
}

/// What the MJPEG path produces from the decoder's RGB output `decoded`
/// (`None` when the data did not decode): the RGB bytes, or the RGBA bytes
/// with alpha 255.
pub open spec fn mjpeg_output(decoded: Option<Seq<u8>>, rgba: bool) -> Result<Seq<u8>, Seq<char>> {
    match decoded {
        None => Err(mjpeg_failure_text()),
        Some(px) => if rgba {
            if px.len() / 3 * 4 > usize::MAX {
                Err(too_large_text())
            } else {
                Ok(alpha_expanded(px, false))
            }
        } else {
            Ok(px)
        },
    }
}

/// The input length message for raw RGB/BGR data.
fn not_multiple_of_3_message(len: usize) -> (r: String)
    ensures
        r@ == not_multiple_of_3_text(len as nat),
{
    let s = joined(String::from_str("input length "), decimal_string(len as u128).as_str());
    joined(s, " is not a multiple of 3")
}

/// Finish the MJPEG path from the decoder's RGB output: pass RGB through, or
/// expand it to RGBA with alpha 255.
/// # Errors
/// Data that did not decode, or an RGBA image too large for memory, gives a
/// [`NokhwaError::ProcessFrameError`] from MJPEG.
pub fn mjpeg_finish(decoded: Option<Vec<u8>>, rgba: bool) -> (r: Result<Vec<u8>, NokhwaError>)
    ensures
        match mjpeg_output(
            match decoded {
                Some(v) => Some(v@),
                None => None,
            },
            rgba,
        ) {
            Ok(out) => r is Ok && r->Ok_0@ == out,
            Err(msg) => r is Err && is_process_error(
                r->Err_0,
                FrameFormat::MJPEG,
                color_target(rgba),
                msg,
            ),
        },
{
    proof {
        reveal_strlit("RGBA");
        reveal_strlit("RGB");
    }
    let target = if rgba {
        "RGBA"
    } else {
        "RGB"
    };
    match decoded {
        None => Err(
            NokhwaError::process_frame(FrameFormat::MJPEG, target, "failed to decode MJPEG data"),
        ),
        Some(px) => {
            if rgba {
                if px.len() / 3 > usize::MAX / 4 {
                    return Err(
                        NokhwaError::process_frame(
                            FrameFormat::MJPEG,
                            target,
                            "decoded image too large",
                        ),
                    );
                }
                let mut out = vec_of_zeros((px.len() / 3) * 4);
                rgb_to_rgba_scalar(px.as_slice(), out.as_mut_slice());
                assert(out@ =~= alpha_expanded(px@, false));
                Ok(out)
            } else {
                Ok(px)
            }
        },
    }
}

/// Decode MJPEG data into RGB888 (RGBA8888 when `rgba`) with the `image` crate.
/// # Errors
/// Data that does not decode gives a [`NokhwaError::ProcessFrameError`].
pub fn mjpeg_to_rgb(data: &[u8], rgba: bool) -> (r: Result<Vec<u8>, NokhwaError>)
    ensures
        match mjpeg_output(jpeg_rgb8(data@), rgba) {
                Ok(out) => r is Ok && r->Ok_0@ == out,
                Err(msg) => r is Err && is_process_error(
                    r->Err_0,
                    FrameFormat::MJPEG,
                    color_target(rgba),
                    msg,
                ),
            },
{
    let decoded = decode_mjpeg(data);
    let ghost d = match &decoded {
        Some(v) => Some(v@),
        None => None,
    };
    let r = mjpeg_finish(decoded, rgba);
    assert(match mjpeg_output(d, rgba) {
        Ok(out) => r is Ok && r->Ok_0@ == out,
        Err(msg) => r is Err && is_process_error(
            r->Err_0,
            FrameFormat::MJPEG,
            color_target(rgba),
            msg,
        ),
    });
    r
}

/// Decode MJPEG data into `dest`, which must be exactly as long as the decoded image.
/// # Errors
/// Data that does not decode, or a `dest` of another length, gives a
/// [`NokhwaError::ProcessFrameError`]; `dest` is then unchanged.
pub fn buf_mjpeg_to_rgb(data: &[u8], dest: &mut [u8], rgba: bool) -> (r: Result<(), NokhwaError>)
    ensures
        r is Err ==> final(dest)@ == old(dest)@ && r->Err_0 is ProcessFrameError
            && r->Err_0->src == FrameFormat::MJPEG,
        match mjpeg_output(jpeg_rgb8(data@), rgba) {
                Ok(out) => if out.len() == old(dest).len() {
                    r is Ok && final(dest)@ == out
                } else {
                    r is Err && is_process_error(
                        r->Err_0,
                        FrameFormat::MJPEG,
                        color_target(rgba),
                        mismatch_text("Bad buffer length"@, out.len(), old(dest).len() as nat),
                    )
                },
                Err(msg) => r is Err && is_process_error(
                    r->Err_0,
                    FrameFormat::MJPEG,
                    color_target(rgba),
                    msg,
                ),
            },
{
    let decoded = decode_mjpeg(data);
    let ghost d = match &decoded {
        Some(v) => Some(v@),
        None => None,
    };
    let out = match mjpeg_finish(decoded, rgba) {
        Ok(out) => out,
        Err(e) => {
            assert(mjpeg_output(d, rgba) is Err);
            return Err(e);
        },
    };
    proof {
        reveal_strlit("RGBA");
        reveal_strlit("RGB");
    }
    if out.len() != dest.len() {
        let msg = mismatch_message("Bad buffer length", out.len() as u128, dest.len() as u128);
        let target = if rgba {
            "RGBA"
        } else {
            "RGB"
        };
        let e = NokhwaError::ProcessFrameError {
            src: FrameFormat::MJPEG,
            destination: String::from_str(target),
            error: msg,
        };
        assert(mjpeg_output(d, rgba) is Ok);
        return Err(e);
    }
    copy_into(out.as_slice(), dest);
    Ok(())
}

/// Copy `src` into the equally long `dest`.
fn copy_into(src: &[u8], dest: &mut [u8])
    requires
        src.len() == old(dest).len(),
    ensures
        final(dest)@ == src@,
{
    let n = src.len();
    let mut i: usize = 0;
    while i < n
        invariant
            n == src.len(),
            n == dest.len(),
            i <= n,
            forall|k: int| 0 <= k < i ==> #[trigger] dest@[k] == src@[k],
        decreases n - i,
    {
        dest[i] = src[i];
        i += 1;
    }
    assert(dest@ =~= src@);
}

/// Write grayscale bytes replicated into RGB (RGBA with alpha 255) into `dest`.
fn gray_into(data: &[u8], dest: &mut [u8], alpha: bool)
    requires
        old(dest).len() == data.len() * pixel_size(alpha),
    ensures
        final(dest)@ == gray_expanded(data@, alpha),
{
    let n = data.len();
    let px: usize = if alpha {
        4
    } else {
        3
    };
    let mut i: usize = 0;
    let mut di: usize = 0;
    while i < n
        invariant
            n == data.len(),
            px == pixel_size(alpha),
            alpha ==> dest.len() == 4 * n && di == 4 * i,
            !alpha ==> dest.len() == 3 * n && di == 3 * i,
            i <= n,
            forall|k: int| 0 <= k < di ==> #[trigger] dest@[k] == gray_expanded(data@, alpha)[k],
        decreases n - i,
    {
        let v = data[i];
        dest[di] = v;
        dest[di + 1] = v;
        dest[di + 2] = v;
        if alpha {
            dest[di + 3] = 255;
        }
        proof {
            assert forall|k: int| 0 <= k < di + px implies #[trigger] dest@[k] == gray_expanded(
                data@,
                alpha,
            )[k] by {
                if k >= di {
                    if alpha {
                        assert(k / 4 == i && k % 4 == k - di);
                    } else {
                        assert(k / 3 == i && k % 3 == k - di);
                    }
                }
            }
        }
        i += 1;
        di += px;
    }
    assert(dest@ =~= gray_expanded(data@, alpha));
}

/// What converting a frame to RGB (RGBA when `alpha`) gives, for every format but MJPEG.
pub open spec fn color_conversion_ok(
    fcc: FrameFormat,
    resolution: Resolution,
    data: Seq<u8>,
    alpha: bool,
    r: Result<Vec<u8>, NokhwaError>,
) -> bool {
    match fcc {
        FrameFormat::MJPEG => match mjpeg_output(jpeg_rgb8(data), alpha) {
                Ok(out) => r is Ok && r->Ok_0@ == out,
                Err(msg) => r is Err && is_process_error(
                    r->Err_0,
                    FrameFormat::MJPEG,
                    color_target(alpha),
                    msg,
                ),
            },
        FrameFormat::YUYV => if data.len() % 4 != 0 {
            r is Err && is_process_error(
                r->Err_0,
                FrameFormat::YUYV,
                color_target(alpha),
                crate::decode::yuyv_shape_message(),
            )
        } else {
            r is Ok && r->Ok_0@ == yuyv_decoded(data, alpha)
        },
        FrameFormat::NV12 => if !nv12_even(resolution) {
            r is Err && is_process_error(
                r->Err_0,
                FrameFormat::NV12,
                color_target(alpha),
                "bad resolution"@,
            )
        } else if data.len() != nv12_len(resolution) {
            r is Err && is_process_error(
                r->Err_0,
                FrameFormat::NV12,
                color_target(alpha),
                "bad input buffer size"@,
            )
        } else {
            r is Ok && r->Ok_0@ == nv12_decoded(
                resolution.width_x as int,
                resolution.height_y as int,
                data,
                alpha,
            )
        },
        FrameFormat::RAWRGB => if alpha {
            if data.len() % 3 != 0 {
                r is Err && is_process_error(
                    r->Err_0,
                    FrameFormat::RAWRGB,
                    "RGBA"@,
                    not_multiple_of_3_text(data.len()),
                )
            } else {
                r is Ok && r->Ok_0@ == alpha_expanded(data, false)
            }
        } else {
            r is Ok && r->Ok_0@ == data
        },
        FrameFormat::RAWBGR => if alpha {
            if data.len() % 3 != 0 {
                r is Err && is_process_error(
                    r->Err_0,
                    FrameFormat::RAWBGR,
                    "RGBA"@,
                    not_multiple_of_3_text(data.len()),
                )
            } else {
                r is Ok && r->Ok_0@ == alpha_expanded(data, true)
            }
        } else {
            r is Ok && r->Ok_0@ == bgr_padded(data)
        },
        FrameFormat::GRAY => r is Ok && r->Ok_0@ == gray_expanded(data, alpha),
    }
}

/// The decoded image fits in memory (a machine limit, not a rule of the format).
pub open spec fn color_output_fits(fcc: FrameFormat, resolution: Resolution, data_len: int, alpha: bool) -> bool {
    match fcc {
        FrameFormat::YUYV => (data_len / 4) * 2 * pixel_size(alpha) <= usize::MAX,
        FrameFormat::NV12 => nv12_even(resolution) && data_len == nv12_len(resolution)
            ==> resolution.width_x * resolution.height_y * pixel_size(alpha) <= usize::MAX,
        FrameFormat::GRAY => data_len * pixel_size(alpha) <= usize::MAX,
        FrameFormat::RAWRGB | FrameFormat::RAWBGR => alpha ==> (data_len / 3) * 4 <= usize::MAX,
        FrameFormat::MJPEG => true,
    }
}

/// Whether converting `data_len` bytes of `fcc` at `resolution` to RGB (RGBA
/// when `alpha`) gives an image whose size fits in `usize`
/// ([`color_output_fits`]).
pub fn color_output_fits_check(fcc: FrameFormat, resolution: Resolution, data_len: usize, alpha: bool) -> (r: bool)
    ensures
        r == color_output_fits(fcc, resolution, data_len as int, alpha),
{
    let px: u128 = if alpha {
        4
    } else {
        3
    };
    let max: u128 = usize::MAX as u128;
    let n: u128 = data_len as u128;
    match fcc {
        FrameFormat::YUYV => {
            assert((n / 4) * 2 * px <= 0x1_0000_0000_0000_0000 * 8) by (nonlinear_arith)
                requires
                    n <= 0x1_0000_0000_0000_0000,
                    px <= 4,
            ;
            (n / 4) * 2 * px <= max
        },
        FrameFormat::NV12 => {
            let w: u128 = resolution.width() as u128;
            let h: u128 = resolution.height() as u128;
            assert(w * h <= 0x1_0000_0000 * 0x1_0000_0000) by (nonlinear_arith)
                requires
                    w <= 0x1_0000_0000,
                    h <= 0x1_0000_0000,
            ;
            let wh = w * h;
            let even = w % 2 == 0 && h % 2 == 0;
            let exact = n == wh * 3 / 2;
            !(even && exact) || wh * px <= max
        },
        FrameFormat::GRAY => n * px <= max,
        FrameFormat::RAWRGB | FrameFormat::RAWBGR => !alpha || (n / 3) * 4 <= max,
        FrameFormat::MJPEG => true,
    }
}

/// Shared RGB / RGBA conversion into a new buffer.
fn convert_color(fcc: FrameFormat, resolution: Resolution, data: &[u8], alpha: bool) -> (r: Result<
    Vec<u8>,
    NokhwaError,
>)
    requires
        color_output_fits(fcc, resolution, data.len() as int, alpha),
    ensures
        color_conversion_ok(fcc, resolution, data@, alpha, r),
{
    match fcc {
        FrameFormat::MJPEG => mjpeg_to_rgb(data, alpha),
        FrameFormat::YUYV => yuyv422_to_rgb(data, alpha),
        FrameFormat::NV12 => nv12_to_rgb(resolution, data, alpha),
        FrameFormat::RAWRGB | FrameFormat::RAWBGR => {
            let swap = fcc == FrameFormat::RAWBGR;
            if alpha {
                if data.len() % 3 != 0 {
                    proof {
                        reveal_strlit("RGBA");
                    }
                    return Err(
                        NokhwaError::ProcessFrameError {
                            src: fcc,
                            destination: String::from_str("RGBA"),
                            error: not_multiple_of_3_message(data.len()),
                        },
                    );
                }
                let mut out = vec_of_zeros((data.len() / 3) * 4);
                if swap {
                    bgr_to_rgba_simd(data, out.as_mut_slice());
                } else {
                    rgb_to_rgba_simd(data, out.as_mut_slice());
                }
                Ok(out)
            } else if swap {
                let mut out = vec_of_zeros(data.len());
                bgr_swap_pixels(data, out.as_mut_slice());
                assert(out@ =~= bgr_padded(data@));
                Ok(out)
            } else {
                Ok(vstd::slice::slice_to_vec(data))
            }
        },
        FrameFormat::GRAY => {
            let px: usize = if alpha {
                4
            } else {
                3
            };
            let mut out = vec_of_zeros(data.len() * px);
            gray_into(data, out.as_mut_slice(), alpha);
            Ok(out)
        },
    }
}

/// Convert a frame's bytes to RGB888.
/// # Errors
/// See [`color_conversion_ok`]: malformed YUYV/NV12 shapes and undecodable MJPEG.
pub fn convert_to_rgb(fcc: FrameFormat, resolution: Resolution, data: &[u8]) -> (r: Result<
    Vec<u8>,
    NokhwaError,
>)
    requires
        color_output_fits(fcc, resolution, data.len() as int, false),
    ensures
        color_conversion_ok(fcc, resolution, data@, false, r),
{
    convert_color(fcc, resolution, data, false)
}

/// Convert a frame's bytes to RGBA8888 (alpha 255).
/// # Errors
/// See [`color_conversion_ok`]; raw RGB/BGR data must also be whole pixels.
pub fn convert_to_rgba(fcc: FrameFormat, resolution: Resolution, data: &[u8]) -> (r: Result<
    Vec<u8>,
    NokhwaError,
>)
    requires
        color_output_fits(fcc, resolution, data.len() as int, true),
    ensures
        color_conversion_ok(fcc, resolution, data@, true, r),
{
    convert_color(fcc, resolution, data, true)
}


/// What converting a frame to RGB (RGBA when `alpha`) into a caller-owned
/// buffer does: `dest` before is `before`, after is `after`.
pub open spec fn color_buffer_ok(
    fcc: FrameFormat,
    resolution: Resolution,
    data: Seq<u8>,
    alpha: bool,
    before: Seq<u8>,
    after: Seq<u8>,
    r: Result<(), NokhwaError>,
) -> bool {
    &&& r is Err ==> after == before && r->Err_0 is ProcessFrameError && r->Err_0->src == fcc
    &&& match fcc {
        FrameFormat::MJPEG => match mjpeg_output(jpeg_rgb8(data), alpha) {
                Ok(out) => if out.len() == before.len() {
                    r is Ok && after == out
                } else {
                    r is Err && is_process_error(
                        r->Err_0,
                        FrameFormat::MJPEG,
                        color_target(alpha),
                        mismatch_text("Bad buffer length"@, out.len(), before.len()),
                    )
                },
                Err(msg) => r is Err && is_process_error(
                    r->Err_0,
                    FrameFormat::MJPEG,
                    color_target(alpha),
                    msg,
                ),
            },
        FrameFormat::YUYV => if data.len() % 4 != 0 {
            r is Err && is_process_error(
                r->Err_0,
                FrameFormat::YUYV,
                color_target(alpha),
                yuyv_shape_message(),
            )
        } else if before.len() != (data.len() / 4) * 2 * pixel_size(alpha) {
            r is Err && is_process_error(
                r->Err_0,
                FrameFormat::YUYV,
                color_target(alpha),
                mismatch_text(
                    "Bad buffer length"@,
                    ((data.len() / 4) * 2 * pixel_size(alpha)) as nat,
                    before.len(),
                ),
            )
        } else {
            r is Ok && after == yuyv_decoded(data, alpha)
        },
        FrameFormat::NV12 => if !nv12_even(resolution) {
            r is Err && is_process_error(
                r->Err_0,
                FrameFormat::NV12,
                color_target(alpha),
                "bad resolution"@,
            )
        } else if data.len() != nv12_len(resolution) {
            r is Err && is_process_error(
                r->Err_0,
                FrameFormat::NV12,
                color_target(alpha),
                "bad input buffer size"@,
            )
        } else if before.len() != resolution.width_x * resolution.height_y * pixel_size(alpha) {
            r is Err && is_process_error(
                r->Err_0,
                FrameFormat::NV12,
                color_target(alpha),
                "bad output buffer size"@,
            )
        } else {
            r is Ok && after == nv12_decoded(
                resolution.width_x as int,
                resolution.height_y as int,
                data,
                alpha,
            )
        },
        FrameFormat::RAWRGB | FrameFormat::RAWBGR => if alpha {
            if data.len() % 3 != 0 {
                r is Err && is_process_error(
                    r->Err_0,
                    fcc,
                    "RGBA"@,
                    not_multiple_of_3_text(data.len()),
                )
            } else if before.len() != (data.len() / 3) * 4 {
                r is Err && is_process_error(
                    r->Err_0,
                    fcc,
                    "RGBA"@,
                    mismatch_text(
                        "destination buffer size mismatch"@,
                        ((data.len() / 3) * 4) as nat,
                        before.len(),
                    ),
                )
            } else {
                r is Ok && after == alpha_expanded(data, fcc == FrameFormat::RAWBGR)
            }
        } else if fcc == FrameFormat::RAWRGB {
            if before.len() != data.len() {
                r is Err && is_process_error(
                    r->Err_0,
                    fcc,
                    "RGB"@,
                    mismatch_text("destination buffer size mismatch"@, data.len(), before.len()),
                )
            } else {
                r is Ok && after == data
            }
        } else {
            if data.len() != resolution.width_x * resolution.height_y * 3 {
                r is Err && is_process_error(r->Err_0, fcc, "RGB"@, "bad input buffer size"@)
            } else if before.len() != data.len() {
                r is Err && is_process_error(r->Err_0, fcc, "RGB"@, "bad output buffer size"@)
            } else {
                r is Ok && after == bgr_swapped(data)
            }
        },
        FrameFormat::GRAY => if before.len() != data.len() * pixel_size(alpha) {
            r is Err && is_process_error(
                r->Err_0,
                fcc,
                color_target(alpha),
                "Bad buffer length"@,
            )
        } else {
            r is Ok && after == gray_expanded(data, alpha)
        },
    }
}

/// Shared RGB / RGBA conversion into a caller-owned buffer.
fn convert_color_buffer(
    fcc: FrameFormat,
    resolution: Resolution,
    data: &[u8],
    dest: &mut [u8],
    alpha: bool,
) -> (r: Result<(), NokhwaError>)
    ensures
        color_buffer_ok(fcc, resolution, data@, alpha, old(dest)@, final(dest)@, r),
{
    proof {
        reveal_strlit("RGBA");
        reveal_strlit("RGB");
    }
    match fcc {
        FrameFormat::MJPEG => buf_mjpeg_to_rgb(data, dest, alpha),
        FrameFormat::YUYV => buf_yuyv422_to_rgb(data, dest, alpha),
        FrameFormat::NV12 => buf_nv12_to_rgb(resolution, data, dest, alpha),
        FrameFormat::RAWRGB | FrameFormat::RAWBGR => {
            if alpha {
                if data.len() % 3 != 0 {
                    return Err(
                        NokhwaError::ProcessFrameError {
                            src: fcc,
                            destination: String::from_str("RGBA"),
                            error: not_multiple_of_3_message(data.len()),
                        },
                    );
                }
                let expected = (data.len() / 3) as u128 * 4;
                if dest.len() as u128 != expected {
                    let msg = mismatch_message(
                        "destination buffer size mismatch",
                        expected,
                        dest.len() as u128,
                    );
                    return Err(
                        NokhwaError::ProcessFrameError {
                            src: fcc,
                            destination: String::from_str("RGBA"),
                            error: msg,
                        },
                    );
                }
                if fcc == FrameFormat::RAWBGR {
                    bgr_to_rgba_simd(data, dest);
                } else {
                    rgb_to_rgba_simd(data, dest);
                }
                Ok(())
            } else if fcc == FrameFormat::RAWRGB {
                if dest.len() != data.len() {
                    let msg = mismatch_message(
                        "destination buffer size mismatch",
                        data.len() as u128,
                        dest.len() as u128,
                    );
                    return Err(
                        NokhwaError::ProcessFrameError {
                            src: fcc,
                            destination: String::from_str("RGB"),
                            error: msg,
                        },
                    );
                }
                copy_into(data, dest);
                Ok(())
            } else {
                buf_bgr_to_rgb(resolution, data, dest)
            }
        },
        FrameFormat::GRAY => {
            let px: u128 = if alpha {
                4
            } else {
                3
            };
            if dest.len() as u128 != data.len() as u128 * px {
                return Err(
                    NokhwaError::process_frame(
                        fcc,
                        if alpha {
                            "RGBA"
                        } else {
                            "RGB"
                        },
                        "Bad buffer length",
                    ),
                );
            }
            gray_into(data, dest, alpha);
            Ok(())
        },
    }
}

/// Converting into a caller's buffer and converting into a new buffer agree:
/// whenever the buffer form succeeds, the allocating form succeeds with the
/// same bytes.
pub proof fn lemma_buffer_and_allocating_conversions_agree(
    fcc: FrameFormat,
    resolution: Resolution,
    data: Seq<u8>,
    alpha: bool,
    before: Seq<u8>,
    after: Seq<u8>,
    written: Result<(), NokhwaError>,
    made: Result<Vec<u8>, NokhwaError>,
)
    requires
        color_buffer_ok(fcc, resolution, data, alpha, before, after, written),
        color_conversion_ok(fcc, resolution, data, alpha, made),
        written is Ok,
    ensures
        made is Ok && made->Ok_0@ == after,
{
    if fcc == FrameFormat::RAWBGR && !alpha {
        assert(data.len() % 3 == 0) by (nonlinear_arith)
            requires
                data.len() == resolution.width_x * resolution.height_y * 3,
        ;
        assert(bgr_padded(data) =~= bgr_swapped(data));
    }
}

/// Convert a frame's bytes to RGB888 into `dest`.
/// # Errors
/// See [`color_buffer_ok`]: malformed input shapes, undecodable MJPEG, or a
/// `dest` of the wrong length; `dest` is then unchanged.
pub fn convert_to_rgb_buffer(
    fcc: FrameFormat,
    resolution: Resolution,
    data: &[u8],
    dest: &mut [u8],
) -> (r: Result<(), NokhwaError>)
    ensures
        color_buffer_ok(fcc, resolution, data@, false, old(dest)@, final(dest)@, r),
{
    convert_color_buffer(fcc, resolution, data, dest, false)
}

/// Convert a frame's bytes to RGBA8888 (alpha 255) into `dest`.
/// # Errors
/// See [`color_buffer_ok`].
pub fn convert_to_rgba_buffer(
    fcc: FrameFormat,
    resolution: Resolution,
    data: &[u8],
    dest: &mut [u8],
) -> (r: Result<(), NokhwaError>)
    ensures
        color_buffer_ok(fcc, resolution, data@, true, old(dest)@, final(dest)@, r),
{
    convert_color_buffer(fcc, resolution, data, dest, true)
}


/// What converting a frame to luma gives.
pub open spec fn luma_conversion_ok(
    fcc: FrameFormat,
    resolution: Resolution,
    data: Seq<u8>,
    r: Result<Vec<u8>, NokhwaError>,
) -> bool {
    let area = resolution.width_x * resolution.height_y;
    match fcc {
        FrameFormat::GRAY => r is Ok && r->Ok_0@ == data,
        FrameFormat::YUYV => if data.len() % 4 != 0 {
            r is Err && is_process_error(r->Err_0, fcc, "Luma"@, yuyv_shape_message())
        } else if data.len() / 2 != area {
            r is Err && is_process_error(
                r->Err_0,
                fcc,
                "Luma"@,
                mismatch_text(
                    "destination buffer size mismatch"@,
                    (data.len() / 2) as nat,
                    area as nat,
                ),
            )
        } else {
            r is Ok && r->Ok_0@ == yuyv_luma(data)
        },
        FrameFormat::NV12 => if data.len() != nv12_len(resolution) {
            r is Err && is_process_error(
                r->Err_0,
                fcc,
                "Luma"@,
                mismatch_text(
                    "NV12 input size mismatch"@,
                    nv12_len(resolution) as nat,
                    data.len(),
                ),
            )
        } else {
            r is Ok && r->Ok_0@ == data.take(area)
        },
        FrameFormat::MJPEG => match mjpeg_output(jpeg_rgb8(data), false) {
                Ok(px) => r is Ok && r->Ok_0@ == rgb_mean(px),
                Err(msg) => r is Err && is_process_error(r->Err_0, fcc, "RGB"@, msg),
            },
        FrameFormat::RAWRGB | FrameFormat::RAWBGR => if data.len() % 3 != 0 {
            r is Err && is_process_error(r->Err_0, fcc, "Luma"@, not_multiple_of_3_text(data.len()))
        } else {
            r is Ok && r->Ok_0@ == rgb_mean(data)
        },
    }
}

/// Average every whole 3-byte pixel of `data` into a new buffer.
fn mean_of(data: &[u8]) -> (r: Vec<u8>)
    ensures
        r@ == rgb_mean(data@),
{
    let mut out = vec_of_zeros(data.len() / 3);
    rgb_mean_pixels(data, out.as_mut_slice());
    assert(out@ =~= rgb_mean(data@));
    out
}

/// Convert a frame's bytes to 8-bit luma. YUYV and NV12 take their Y bytes
/// directly; MJPEG, RAWRGB and RAWBGR use `(R + G + B) / 3`.
/// # Errors
/// See [`luma_conversion_ok`].
pub fn convert_to_luma(fcc: FrameFormat, resolution: Resolution, data: &[u8]) -> (r: Result<
    Vec<u8>,
    NokhwaError,
>)
    requires
        fcc == FrameFormat::YUYV || fcc == FrameFormat::NV12 ==> resolution.width_x
            * resolution.height_y <= usize::MAX,
    ensures
        luma_conversion_ok(fcc, resolution, data@, r),
{
    proof {
        reveal_strlit("Luma");
    }
    match fcc {
        FrameFormat::GRAY => Ok(vstd::slice::slice_to_vec(data)),
        FrameFormat::YUYV => {
            let mut dest = vec_of_zeros(frame_area(resolution) as usize);
            match buf_yuyv_extract_luma(data, dest.as_mut_slice()) {
                Ok(()) => Ok(dest),
                Err(e) => Err(e),
            }
        },
        FrameFormat::NV12 => {
            let mut dest = vec_of_zeros(frame_area(resolution) as usize);
            match buf_nv12_extract_luma(resolution, data, dest.as_mut_slice()) {
                Ok(()) => Ok(dest),
                Err(e) => Err(e),
            }
        },
        FrameFormat::MJPEG => {
            let decoded = decode_mjpeg(data);
            let ghost d = match &decoded {
                Some(v) => Some(v@),
                None => None,
            };
            let r = match mjpeg_finish(decoded, false) {
                Ok(rgb) => Ok(mean_of(rgb.as_slice())),
                Err(e) => Err(e),
            };
            proof {
                reveal_strlit("RGB");
                assert(match mjpeg_output(d, false) {
                    Ok(px) => r is Ok && r->Ok_0@ == rgb_mean(px),
                    Err(msg) => r is Err && is_process_error(r->Err_0, fcc, "RGB"@, msg),
                });
            }
            r
        },
        FrameFormat::RAWRGB | FrameFormat::RAWBGR => {
            if data.len() % 3 != 0 {
                return Err(
                    NokhwaError::ProcessFrameError {
                        src: fcc,
                        destination: String::from_str("Luma"),
                        error: not_multiple_of_3_message(data.len()),
                    },
                );
            }
            Ok(mean_of(data))
        },
    }
}

/// What converting a frame to luma into a caller-owned buffer does.
pub open spec fn luma_buffer_ok(
    fcc: FrameFormat,
    resolution: Resolution,
    data: Seq<u8>,
    before: Seq<u8>,
    after: Seq<u8>,
    r: Result<(), NokhwaError>,
) -> bool {
    let area = resolution.width_x * resolution.height_y;
    &&& r is Err ==> after == before
    &&& match fcc {
        FrameFormat::GRAY => if before.len() != data.len() {
            r is Err && is_process_error(
                r->Err_0,
                fcc,
                "Luma"@,
                mismatch_text("destination buffer size mismatch"@, data.len(), before.len()),
            )
        } else {
            r is Ok && after == data
        },
        FrameFormat::YUYV => if data.len() % 4 != 0 {
            r is Err && is_process_error(r->Err_0, fcc, "Luma"@, yuyv_shape_message())
        } else if before.len() != data.len() / 2 {
            r is Err && is_process_error(
                r->Err_0,
                fcc,
                "Luma"@,
                mismatch_text(
                    "destination buffer size mismatch"@,
                    (data.len() / 2) as nat,
                    before.len(),
                ),
            )
        } else {
            r is Ok && after == yuyv_luma(data)
        },
        FrameFormat::NV12 => if data.len() != nv12_len(resolution) {
            r is Err && is_process_error(
                r->Err_0,
                fcc,
                "Luma"@,
                mismatch_text(
                    "NV12 input size mismatch"@,
                    nv12_len(resolution) as nat,
                    data.len(),
                ),
            )
        } else if before.len() != area {
            r is Err && is_process_error(
                r->Err_0,
                fcc,
                "Luma"@,
                mismatch_text("destination buffer size mismatch"@, area as nat, before.len()),
            )
        } else {
            r is Ok && after == data.take(area)
        },
        FrameFormat::RAWRGB | FrameFormat::RAWBGR => if data.len() % 3 != 0 {
            r is Err && is_process_error(r->Err_0, fcc, "Luma"@, not_multiple_of_3_text(data.len()))
        } else if before.len() != data.len() / 3 {
            r is Err && is_process_error(
                r->Err_0,
                fcc,
                "Luma"@,
                mismatch_text(
                    "destination buffer size mismatch"@,
                    (data.len() / 3) as nat,
                    before.len(),
                ),
            )
        } else {
            r is Ok && after == rgb_mean(data)
        },
        FrameFormat::MJPEG => match mjpeg_output(jpeg_rgb8(data), false) {
                Ok(px) => if before.len() < rgb_mean(px).len() {
                    r is Err && is_process_error(
                        r->Err_0,
                        fcc,
                        "Luma"@,
                        "Destination buffer too small"@,
                    )
                } else {
                    r is Ok && after == rgb_mean(px) + before.skip(rgb_mean(px).len() as int)
                },
                Err(msg) => r is Err && is_process_error(r->Err_0, fcc, "RGB"@, msg),
            },
    }
}

/// Luma conversion into a caller's buffer and into a new buffer agree:
/// whenever the buffer form succeeds, the allocating form gives the same
/// bytes; for MJPEG, which accepts a longer buffer, they are the buffer's
/// head and its tail is kept. For YUYV the allocating form also needs the
/// data to hold `width * height` pixels, which the buffer form does not check.
pub proof fn lemma_luma_conversions_agree(
    fcc: FrameFormat,
    resolution: Resolution,
    data: Seq<u8>,
    before: Seq<u8>,
    after: Seq<u8>,
    written: Result<(), NokhwaError>,
    made: Result<Vec<u8>, NokhwaError>,
)
    requires
        fcc == FrameFormat::YUYV ==> data.len() / 2 == resolution.width_x * resolution.height_y,
        luma_buffer_ok(fcc, resolution, data, before, after, written),
        luma_conversion_ok(fcc, resolution, data, made),
        written is Ok,
    ensures
        made is Ok,
        fcc != FrameFormat::MJPEG ==> made->Ok_0@ == after,
        fcc == FrameFormat::MJPEG ==> after == made->Ok_0@ + before.skip(made->Ok_0@.len() as int),
{
}

/// Convert a frame's bytes to 8-bit luma into `dest`. MJPEG accepts a larger
/// `dest` and leaves its tail untouched; every other format needs an exact fit.
/// # Errors
/// See [`luma_buffer_ok`]; `dest` is then unchanged.
pub fn convert_to_luma_buffer(
    fcc: FrameFormat,
    resolution: Resolution,
    data: &[u8],
    dest: &mut [u8],
) -> (r: Result<(), NokhwaError>)
    ensures
        luma_buffer_ok(fcc, resolution, data@, old(dest)@, final(dest)@, r),
{
    proof {
        reveal_strlit("Luma");
    }
    match fcc {
        FrameFormat::GRAY => {
            if dest.len() != data.len() {
                let msg = mismatch_message(
                    "destination buffer size mismatch",
                    data.len() as u128,
                    dest.len() as u128,
                );
                return Err(
                    NokhwaError::ProcessFrameError {
                        src: fcc,
                        destination: String::from_str("Luma"),
                        error: msg,
                    },
                );
            }
            copy_into(data, dest);
            Ok(())
        },
        FrameFormat::YUYV => buf_yuyv_extract_luma(data, dest),
        FrameFormat::NV12 => buf_nv12_extract_luma(resolution, data, dest),
        FrameFormat::RAWRGB | FrameFormat::RAWBGR => {
            if data.len() % 3 != 0 {
                return Err(
                    NokhwaError::ProcessFrameError {
                        src: fcc,
                        destination: String::from_str("Luma"),
                        error: not_multiple_of_3_message(data.len()),
                    },
                );
            }
            if dest.len() != data.len() / 3 {
                let msg = mismatch_message(
                    "destination buffer size mismatch",
                    (data.len() / 3) as u128,
                    dest.len() as u128,
                );
                return Err(
                    NokhwaError::ProcessFrameError {
                        src: fcc,
                        destination: String::from_str("Luma"),
                        error: msg,
                    },
                );
            }
            rgb_to_luma_scalar(data, dest);
            assert(dest@ =~= rgb_mean(data@));
            Ok(())
        },
        FrameFormat::MJPEG => {
            let decoded = decode_mjpeg(data);
            let ghost d = match &decoded {
                Some(v) => Some(v@),
                None => None,
            };
            let rgb = match mjpeg_finish(decoded, false) {
                Ok(rgb) => rgb,
                Err(e) => {
                    proof {
                        reveal_strlit("RGB");
                    }
                    assert(mjpeg_output(d, false) is Err);
                    return Err(e);
                },
            };
            let luma = mean_of(rgb.as_slice());
            if dest.len() < luma.len() {
                let e = NokhwaError::process_frame(fcc, "Luma", "Destination buffer too small");
                assert(mjpeg_output(d, false) is Ok);
                return Err(e);
            }
            let ghost before = dest@;
            let n = luma.len();
            let mut i: usize = 0;
            while i < n
                invariant
                    n == luma.len(),
                    n <= dest.len(),
                    dest.len() == before.len(),
                    i <= n,
                    forall|k: int| 0 <= k < i ==> #[trigger] dest@[k] == luma@[k],
                    forall|k: int| n <= k < dest.len() ==> #[trigger] dest@[k] == before[k],
                decreases n - i,
            {
                dest[i] = luma[i];
                i += 1;
            }
            assert(dest@ =~= luma@ + before.skip(n as int));
            assert(mjpeg_output(d, false) is Ok);
            Ok(())
        },
    }
}


// ──────────────────────────────────────────────
// Lazy conversions
// ──────────────────────────────────────────────

/// What an image made by `ImageBuffer::from_raw` over a converted buffer gives:
/// the conversion's bytes and the frame size, "Failed to create ImageBuffer"
/// when the bytes are too few for `channels` per pixel, or the conversion's error.
pub open spec fn image_outcome(
    conv: Result<Vec<u8>, NokhwaError>,
    fcc: FrameFormat,
    resolution: Resolution,
    channels: nat,
    target: Seq<char>,
    made: Result<(Seq<u8>, (u32, u32)), NokhwaError>,
) -> bool {
    match conv {
        Ok(v) => if channels * resolution.width_x * resolution.height_y <= v@.len() {
            made == Ok::<(Seq<u8>, (u32, u32)), NokhwaError>(
                (v@, (resolution.width_x, resolution.height_y)),
            )
        } else {
            made is Err && is_process_error(
                made->Err_0,
                fcc,
                target,
                "Failed to create ImageBuffer"@,
            )
        },
        Err(e) => made == Err::<(Seq<u8>, (u32, u32)), NokhwaError>(e),
    }
}

/// An RGB image result seen as its bytes and size.
pub open spec fn rgb_made(r: Result<RgbImage, NokhwaError>) -> Result<(Seq<u8>, (u32, u32)), NokhwaError> {
    match r {
        Ok(img) => Ok((rgb_image_raw(img), rgb_image_dims(img))),
        Err(e) => Err(e),
    }
}

/// An RGBA image result seen as its bytes and size.
pub open spec fn rgba_made(r: Result<RgbaImage, NokhwaError>) -> Result<(Seq<u8>, (u32, u32)), NokhwaError> {
    match r {
        Ok(img) => Ok((rgba_image_raw(img), rgba_image_dims(img))),
        Err(e) => Err(e),
    }
}

/// A luma image result seen as its bytes and size.
pub open spec fn luma_made(r: Result<LumaImage, NokhwaError>) -> Result<(Seq<u8>, (u32, u32)), NokhwaError> {
    match r {
        Ok(img) => Ok((luma_image_raw(img), luma_image_dims(img))),
        Err(e) => Err(e),
    }
}

/// The luma conversion needs `width * height` to fit in memory for YUYV and NV12.
pub open spec fn luma_output_fits(fcc: FrameFormat, resolution: Resolution) -> bool {
    fcc == FrameFormat::YUYV || fcc == FrameFormat::NV12 ==> resolution.width_x
        * resolution.height_y <= usize::MAX
}

/// A pending conversion of a frame to RGB888.
pub struct RgbConversion {
    buffer: Buffer,
}

/// A pending conversion of a frame to RGBA8888.
pub struct RgbaConversion {
    buffer: Buffer,
}

/// A pending conversion of a frame to 8-bit luma.
pub struct LumaConversion {
    buffer: Buffer,
}

impl RgbConversion {
    /// The buffer to convert.
    pub closed spec fn spec_buffer(&self) -> Buffer {
        self.buffer
    }

    /// Whether the RGB image of this conversion fits in memory, as
    /// [`RgbConversion::materialize`] requires.
    pub fn output_fits(&self) -> (r: bool)
        ensures
            r == color_output_fits(
                self.spec_buffer().spec_format(),
                self.spec_buffer().spec_resolution(),
                self.spec_buffer().spec_data().len() as int,
                false,
            ),
    {
        color_output_fits_check(
            self.buffer.source_frame_format(),
            self.buffer.resolution(),
            self.buffer.buffer().len(),
            false,
        )
    }

    /// Convert, and wrap the result in an RGB image of the frame size.
    /// # Errors
    /// The conversion's error, or "Failed to create ImageBuffer" when it gave
    /// fewer than `3 * width * height` bytes.
    pub fn materialize(self) -> (r: Result<RgbImage, NokhwaError>)
        requires
            color_output_fits(
                self.spec_buffer().spec_format(),
                self.spec_buffer().spec_resolution(),
                self.spec_buffer().spec_data().len() as int,
                false,
            ),
        ensures
            exists|conv: Result<Vec<u8>, NokhwaError>|
                #[trigger] color_conversion_ok(
                    self.spec_buffer().spec_format(),
                    self.spec_buffer().spec_resolution(),
                    self.spec_buffer().spec_data(),
                    false,
                    conv,
                ) && image_outcome(
                    conv,
                    self.spec_buffer().spec_format(),
                    self.spec_buffer().spec_resolution(),
                    3,
                    "Rgb"@,
                    rgb_made(r),
                ),
    {
        let resolution = self.buffer.resolution();
        let fcc = self.buffer.source_frame_format();
        let conv = convert_to_rgb(fcc, resolution, self.buffer.buffer());
        let ghost conv_g = conv;
        let r = match conv {
            Ok(v) => match rgb_image_from_raw(resolution.width_x, resolution.height_y, v) {
                Some(img) => Ok(img),
                None => Err(NokhwaError::process_frame(fcc, "Rgb", "Failed to create ImageBuffer")),
            },
            Err(e) => Err(e),
        };
        proof {
            reveal_strlit("Rgb");
            reveal_strlit("Failed to create ImageBuffer");
            assert(image_outcome(conv_g, fcc, resolution, 3, "Rgb"@, rgb_made(r)));
        }
        r
    }

    /// The pixel format of the buffer to convert.
    pub fn source_frame_format(&self) -> (r: FrameFormat)
        ensures
            r == self.spec_buffer().spec_format(),
    {
        self.buffer.source_frame_format()
    }

    /// Convert into `dest`, which must be exactly the size of the RGB image.
    /// # Errors
    /// See [`color_buffer_ok`]; `dest` is then unchanged.
    pub fn write_to(self, dest: &mut [u8]) -> (r: Result<(), NokhwaError>)
        ensures
            color_buffer_ok(
                self.spec_buffer().spec_format(),
                self.spec_buffer().spec_resolution(),
                self.spec_buffer().spec_data(),
                false,
                old(dest)@,
                final(dest)@,
                r,
            ),
    {
        let resolution = self.buffer.resolution();
        let fcc = self.buffer.source_frame_format();
        convert_to_rgb_buffer(fcc, resolution, self.buffer.buffer(), dest)
    }
}


impl RgbaConversion {
    /// The buffer to convert.
    pub closed spec fn spec_buffer(&self) -> Buffer {
        self.buffer
    }

    /// Convert, and wrap the result in an RGBA image of the frame size.
    /// # Errors
    /// The conversion's error, or "Failed to create ImageBuffer" when it gave
    /// fewer than `4 * width * height` bytes.
    pub fn materialize(self) -> (r: Result<RgbaImage, NokhwaError>)
        requires
            color_output_fits(
                self.spec_buffer().spec_format(),
                self.spec_buffer().spec_resolution(),
                self.spec_buffer().spec_data().len() as int,
                true,
            ),
        ensures
            exists|conv: Result<Vec<u8>, NokhwaError>|
                #[trigger] color_conversion_ok(
                    self.spec_buffer().spec_format(),
                    self.spec_buffer().spec_resolution(),
                    self.spec_buffer().spec_data(),
                    true,
                    conv,
                ) && image_outcome(
                    conv,
                    self.spec_buffer().spec_format(),
                    self.spec_buffer().spec_resolution(),
                    4,
                    "Rgba"@,
                    rgba_made(r),
                ),
    {
        let resolution = self.buffer.resolution();
        let fcc = self.buffer.source_frame_format();
        let conv = convert_to_rgba(fcc, resolution, self.buffer.buffer());
        let ghost conv_g = conv;
        let r = match conv {
            Ok(v) => match rgba_image_from_raw(resolution.width_x, resolution.height_y, v) {
                Some(img) => Ok(img),
                None => Err(NokhwaError::process_frame(fcc, "Rgba", "Failed to create ImageBuffer")),
            },
            Err(e) => Err(e),
        };
        proof {
            reveal_strlit("Rgba");
            reveal_strlit("Failed to create ImageBuffer");
            assert(image_outcome(conv_g, fcc, resolution, 4, "Rgba"@, rgba_made(r)));
        }
        r
    }

    /// Convert into `dest`, which must be exactly the size of the RGBA image.
    /// # Errors
    /// See [`color_buffer_ok`]; `dest` is then unchanged.
    pub fn write_to(self, dest: &mut [u8]) -> (r: Result<(), NokhwaError>)
        ensures
            color_buffer_ok(
                self.spec_buffer().spec_format(),
                self.spec_buffer().spec_resolution(),
                self.spec_buffer().spec_data(),
                true,
                old(dest)@,
                final(dest)@,
                r,
            ),
    {
        let resolution = self.buffer.resolution();
        let fcc = self.buffer.source_frame_format();
        convert_to_rgba_buffer(fcc, resolution, self.buffer.buffer(), dest)
    }
}

impl LumaConversion {
    /// The buffer to convert.
    pub closed spec fn spec_buffer(&self) -> Buffer {
        self.buffer
    }

    /// Convert, and wrap the result in a luma image of the frame size.
    /// # Errors
    /// The conversion's error, or "Failed to create ImageBuffer" when it gave
    /// fewer than `width * height` bytes.
    pub fn materialize(self) -> (r: Result<LumaImage, NokhwaError>)
        requires
            luma_output_fits(self.spec_buffer().spec_format(), self.spec_buffer().spec_resolution()),
        ensures
            exists|conv: Result<Vec<u8>, NokhwaError>|
                #[trigger] luma_conversion_ok(
                    self.spec_buffer().spec_format(),
                    self.spec_buffer().spec_resolution(),
                    self.spec_buffer().spec_data(),
                    conv,
                ) && image_outcome(
                    conv,
                    self.spec_buffer().spec_format(),
                    self.spec_buffer().spec_resolution(),
                    1,
                    "Luma"@,
                    luma_made(r),
                ),
    {
        let resolution = self.buffer.resolution();
        let fcc = self.buffer.source_frame_format();
        let conv = convert_to_luma(fcc, resolution, self.buffer.buffer());
        let ghost conv_g = conv;
        let r = match conv {
            Ok(v) => match luma_image_from_raw(resolution.width_x, resolution.height_y, v) {
                Some(img) => Ok(img),
                None => Err(NokhwaError::process_frame(fcc, "Luma", "Failed to create ImageBuffer")),
            },
            Err(e) => Err(e),
        };
        proof {
            reveal_strlit("Luma");
            reveal_strlit("Failed to create ImageBuffer");
            assert(image_outcome(conv_g, fcc, resolution, 1, "Luma"@, luma_made(r)));
        }
        r
    }

    /// Convert into `dest`.
    /// # Errors
    /// See [`luma_buffer_ok`]; `dest` is then unchanged.
    pub fn write_to(self, dest: &mut [u8]) -> (r: Result<(), NokhwaError>)
        ensures
            luma_buffer_ok(
                self.spec_buffer().spec_format(),
                self.spec_buffer().spec_resolution(),
                self.spec_buffer().spec_data(),
                old(dest)@,
                final(dest)@,
                r,
            ),
    {
        let resolution = self.buffer.resolution();
        let fcc = self.buffer.source_frame_format();
        convert_to_luma_buffer(fcc, resolution, self.buffer.buffer(), dest)
    }
}

/// Frames that can be converted to RGB888 (every format but GRAY).
pub trait IntoRgb: Sized {
    /// The buffer the frame holds.
    spec fn source_buffer(&self) -> Buffer;

    /// A pending RGB conversion of the frame's buffer.
    fn into_rgb(self) -> (r: RgbConversion)
        ensures
            r.spec_buffer() == self.source_buffer(),
    ;
}

/// Frames that can be converted to RGBA8888 (every format but GRAY).
pub trait IntoRgba: Sized {
    /// The buffer the frame holds.
    spec fn source_buffer(&self) -> Buffer;

    /// A pending RGBA conversion of the frame's buffer.
    fn into_rgba(self) -> (r: RgbaConversion)
        ensures
            r.spec_buffer() == self.source_buffer(),
    ;
}

/// Frames that can be converted to 8-bit luma (every format).
pub trait IntoLuma: Sized {
    /// The buffer the frame holds.
    spec fn source_buffer(&self) -> Buffer;

    /// A pending luma conversion of the frame's buffer.
    fn into_luma(self) -> (r: LumaConversion)
        ensures
            r.spec_buffer() == self.source_buffer(),
    ;
}

impl IntoRgb for Frame<Yuyv> {
    open spec fn source_buffer(&self) -> Buffer {
        self.spec_buffer()
    }

    fn into_rgb(self) -> (r: RgbConversion) {
        RgbConversion { buffer: self.buffer }
    }
}

impl IntoRgba for Frame<Yuyv> {
    open spec fn source_buffer(&self) -> Buffer {
        self.spec_buffer()
    }

    fn into_rgba(self) -> (r: RgbaConversion) {
        RgbaConversion { buffer: self.buffer }
    }
}

impl IntoRgb for Frame<Nv12> {
    open spec fn source_buffer(&self) -> Buffer {
        self.spec_buffer()
    }

    fn into_rgb(self) -> (r: RgbConversion) {
        RgbConversion { buffer: self.buffer }
    }
}

impl IntoRgba for Frame<Nv12> {
    open spec fn source_buffer(&self) -> Buffer {
        self.spec_buffer()
    }

    fn into_rgba(self) -> (r: RgbaConversion) {
        RgbaConversion { buffer: self.buffer }
    }
}

impl IntoRgb for Frame<Mjpeg> {
    open spec fn source_buffer(&self) -> Buffer {
        self.spec_buffer()
    }

    fn into_rgb(self) -> (r: RgbConversion) {
        RgbConversion { buffer: self.buffer }
    }
}

impl IntoRgba for Frame<Mjpeg> {
    open spec fn source_buffer(&self) -> Buffer {
        self.spec_buffer()
    }

    fn into_rgba(self) -> (r: RgbaConversion) {
        RgbaConversion { buffer: self.buffer }
    }
}

impl IntoRgb for Frame<RawRgb> {
    open spec fn source_buffer(&self) -> Buffer {
        self.spec_buffer()
    }

    fn into_rgb(self) -> (r: RgbConversion) {
        RgbConversion { buffer: self.buffer }
    }
}

impl IntoRgba for Frame<RawRgb> {
    open spec fn source_buffer(&self) -> Buffer {
        self.spec_buffer()
    }

    fn into_rgba(self) -> (r: RgbaConversion) {
        RgbaConversion { buffer: self.buffer }
    }
}

impl IntoRgb for Frame<RawBgr> {
    open spec fn source_buffer(&self) -> Buffer {
        self.spec_buffer()
    }

    fn into_rgb(self) -> (r: RgbConversion) {
        RgbConversion { buffer: self.buffer }
    }
}

impl IntoRgba for Frame<RawBgr> {
    open spec fn source_buffer(&self) -> Buffer {
        self.spec_buffer()
    }

    fn into_rgba(self) -> (r: RgbaConversion) {
        RgbaConversion { buffer: self.buffer }
    }
}

impl IntoLuma for Frame<Yuyv> {
    open spec fn source_buffer(&self) -> Buffer {
        self.spec_buffer()
    }

    fn into_luma(self) -> (r: LumaConversion) {
        LumaConversion { buffer: self.buffer }
    }
}

impl IntoLuma for Frame<Nv12> {
    open spec fn source_buffer(&self) -> Buffer {
        self.spec_buffer()
    }

    fn into_luma(self) -> (r: LumaConversion) {
        LumaConversion { buffer: self.buffer }
    }
}

impl IntoLuma for Frame<Mjpeg> {
    open spec fn source_buffer(&self) -> Buffer {
        self.spec_buffer()
    }

    fn into_luma(self) -> (r: LumaConversion) {
        LumaConversion { buffer: self.buffer }
    }
}

impl IntoLuma for Frame<Gray> {
    open spec fn source_buffer(&self) -> Buffer {
        self.spec_buffer()
    }

    fn into_luma(self) -> (r: LumaConversion) {
        LumaConversion { buffer: self.buffer }
    }
}

impl IntoLuma for Frame<RawRgb> {
    open spec fn source_buffer(&self) -> Buffer {
        self.spec_buffer()
    }

    fn into_luma(self) -> (r: LumaConversion) {
        LumaConversion { buffer: self.buffer }
    }
}

impl IntoLuma for Frame<RawBgr> {
    open spec fn source_buffer(&self) -> Buffer {
        self.spec_buffer()
    }

    fn into_luma(self) -> (r: LumaConversion) {
        LumaConversion { buffer: self.buffer }
    }
}

} // verus!
