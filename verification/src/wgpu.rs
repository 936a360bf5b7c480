//! How a frame's raw bytes are laid out in a GPU texture, so that a shader can
//! decode the native pixel format.

use crate::error::NokhwaError;
use crate::text::{decimal, decimal_string, joined};
use crate::types::{FrameFormat, Resolution};
use vstd::prelude::*;

verus! {

/// The texel formats raw frames are stored in.
#[derive(Clone, Copy, Debug, PartialEq, Eq, Hash, Structural)]
pub enum TextureFormat {
    /// One 8-bit normalized channel per texel.
    R8Unorm,
    /// Two 8-bit normalized channels per texel.
    Rg8Unorm,
}

/// The size of a texture in texels.
#[derive(Clone, Copy, Debug, PartialEq, Eq, Hash, Structural)]
pub struct Extent3d {
    pub width: u32,
    pub height: u32,
    pub depth_or_array_layers: u32,
}

/// A texture holding a frame's raw bytes in its native pixel format, with
/// what a shader needs to decode it.
#[derive(Debug)]
pub struct RawTextureData<T> {
    /// The texture holding the raw bytes.
    pub texture: T,
    /// The camera's native pixel format.
    pub source_frame_format: FrameFormat,
    /// The texel format the bytes are stored in.
    pub texture_format: TextureFormat,
    /// The frame's resolution.
    pub resolution: Resolution,
}

/// The message for an MJPEG source, which has no raw texture layout.
pub open spec fn mjpeg_texture_text() -> Seq<char> {
    "frame_texture_raw() cannot be used with MJPEG sources; use frame_texture() instead"@
}

/// A 2D extent.
pub open spec fn extent(width: int, height: int) -> Extent3d {
    Extent3d { width: width as u32, height: height as u32, depth_or_array_layers: 1 }
}

/// The layout's dimensions fit in `u32` wherever a layout is computed (even
/// YUYV widths, even NV12 dimensions, raw RGB/BGR).
pub open spec fn layout_fits(format: FrameFormat, resolution: Resolution) -> bool {
    let w = resolution.width_x as int;
    let h = resolution.height_y as int;
    match format {
        FrameFormat::YUYV => w % 2 == 0 ==> 2 * w <= u32::MAX,
        FrameFormat::NV12 => w % 2 == 0 && h % 2 == 0 ==> 3 * h <= u32::MAX,
        FrameFormat::RAWRGB | FrameFormat::RAWBGR => 3 * w <= u32::MAX,
        _ => true,
    }
}

/// What laying out raw frames of `format` at `resolution` gives.
pub open spec fn layout_outcome(
    format: FrameFormat,
    resolution: Resolution,
    r: Result<(TextureFormat, Extent3d, u32), NokhwaError>,
) -> bool {
    let w = resolution.width_x as int;
    let h = resolution.height_y as int;
    match format {
        FrameFormat::YUYV => if w % 2 != 0 {
            r is Err && (r->Err_0 matches NokhwaError::ProcessFrameError {
                src,
                destination,
                error,
            } && src == format && destination@ == "RawTextureData"@ && error@
                == "YUYV requires even width, got "@ + decimal(w as nat))
        } else {
            r == Ok::<(TextureFormat, Extent3d, u32), NokhwaError>(
                (TextureFormat::Rg8Unorm, extent(w, h), (2 * w) as u32),
            )
        },
        FrameFormat::NV12 => if w % 2 != 0 || h % 2 != 0 {
            r is Err && (r->Err_0 matches NokhwaError::ProcessFrameError {
                src,
                destination,
                error,
            } && src == format && destination@ == "RawTextureData"@ && error@
                == "NV12 requires even dimensions, got "@ + decimal(w as nat) + "x"@
                + decimal(h as nat))
        } else {
            r == Ok::<(TextureFormat, Extent3d, u32), NokhwaError>(
                (TextureFormat::R8Unorm, extent(w, h * 3 / 2), w as u32),
            )
        },
        FrameFormat::GRAY => r == Ok::<(TextureFormat, Extent3d, u32), NokhwaError>(
            (TextureFormat::R8Unorm, extent(w, h), w as u32),
        ),
        FrameFormat::RAWRGB | FrameFormat::RAWBGR => r == Ok::<
            (TextureFormat, Extent3d, u32),
            NokhwaError,
        >((TextureFormat::R8Unorm, extent(w * 3, h), (w * 3) as u32)),
        FrameFormat::MJPEG => r is Err && (r->Err_0 matches NokhwaError::GeneralError {
            message,
            backend,
        } && message@ == mjpeg_texture_text() && backend is None),
    }
}

/// The texel format, the texture size and the bytes per row for storing raw
/// frames of `format` at `resolution`: YUYV as `Rg8Unorm` `w x h` (`2w` bytes
/// a row), NV12 as `R8Unorm` `w x 3h/2`, GRAY as `R8Unorm` `w x h`, RAWRGB and
/// RAWBGR as `R8Unorm` `3w x h`.
/// # Errors
/// A [`NokhwaError::ProcessFrameError`] for YUYV of odd width or NV12 of an
/// odd dimension; a [`NokhwaError::GeneralError`] for MJPEG, which is compressed.
pub fn raw_texture_layout(format: FrameFormat, resolution: Resolution) -> (r: Result<
    (TextureFormat, Extent3d, u32),
    NokhwaError,
>)
    requires
        layout_fits(format, resolution),
    ensures
        layout_outcome(format, resolution, r),
{
    let w = resolution.width();
    let h = resolution.height();
    proof {
        reveal_strlit("RawTextureData");
    }
    match format {
        FrameFormat::YUYV => {
            if w % 2 != 0 {
                let msg = joined(
                    String::from_str("YUYV requires even width, got "),
                    decimal_string(w as u128).as_str(),
                );
                return Err(
                    NokhwaError::ProcessFrameError {
                        src: format,
                        destination: String::from_str("RawTextureData"),
                        error: msg,
                    },
                );
            }
            Ok(
                (
                    TextureFormat::Rg8Unorm,
                    Extent3d { width: w, height: h, depth_or_array_layers: 1 },
                    2 * w,
                ),
            )
        },
        FrameFormat::NV12 => {
            if w % 2 != 0 || h % 2 != 0 {
                let msg = joined(
                    String::from_str("NV12 requires even dimensions, got "),
                    decimal_string(w as u128).as_str(),
                );
                let msg = joined(msg, "x");
                let msg = joined(msg, decimal_string(h as u128).as_str());
                return Err(
                    NokhwaError::ProcessFrameError {
                        src: format,
                        destination: String::from_str("RawTextureData"),
                        error: msg,
                    },
                );
            }
            Ok(
                (
                    TextureFormat::R8Unorm,
                    Extent3d { width: w, height: h * 3 / 2, depth_or_array_layers: 1 },
                    w,
                ),
            )
        },
        FrameFormat::GRAY => Ok(
            (TextureFormat::R8Unorm, Extent3d { width: w, height: h, depth_or_array_layers: 1 }, w),
        ),
        FrameFormat::RAWRGB | FrameFormat::RAWBGR => Ok(
            (
                TextureFormat::R8Unorm,
                Extent3d { width: w * 3, height: h, depth_or_array_layers: 1 },
                w * 3,
            ),
        ),
        FrameFormat::MJPEG => Err(
            NokhwaError::general(
                "frame_texture_raw() cannot be used with MJPEG sources; use frame_texture() instead",
            ),
        ),
    }
}

/// The bytes a raw texture of this layout takes: bytes per row times rows.
pub open spec fn layout_bytes(layout: (TextureFormat, Extent3d, u32)) -> int {
    layout.2 * layout.1.height
}

/// The message for a raw frame too short for its texture.
pub open spec fn short_raw_text(got: nat, expected: nat) -> Seq<char> {
    "raw buffer ("@ + decimal(got) + " bytes) smaller than expected ("@ + decimal(expected)
        + " bytes)"@
}

/// The layout to upload a raw frame of `raw_len` bytes with: the layout of
/// [`raw_texture_layout`], provided the frame holds at least the texture's bytes.
/// # Errors
/// The layout's error, or a [`NokhwaError::ProcessFrameError`] to
/// `RawTextureData` when the frame is too short.
pub fn raw_texture_plan(format: FrameFormat, resolution: Resolution, raw_len: usize) -> (r: Result<
    (TextureFormat, Extent3d, u32),
    NokhwaError,
>)
    requires
        layout_fits(format, resolution),
        format == FrameFormat::YUYV && resolution.width_x % 2 == 0 ==> 2 * resolution.width_x
            * resolution.height_y <= u32::MAX,
        format == FrameFormat::NV12 && resolution.width_x % 2 == 0 && resolution.height_y % 2
            == 0 ==> resolution.width_x * (resolution.height_y * 3 / 2) <= u32::MAX,
        format == FrameFormat::GRAY ==> resolution.width_x * resolution.height_y <= u32::MAX,
        format == FrameFormat::RAWRGB || format == FrameFormat::RAWBGR ==> 3
            * resolution.width_x * resolution.height_y <= u32::MAX,
    ensures
        ({
            let w = resolution.width_x as int;
            let h = resolution.height_y as int;
            let layout = match format {
                FrameFormat::YUYV => (TextureFormat::Rg8Unorm, extent(w, h), (2 * w) as u32),
                FrameFormat::NV12 => (TextureFormat::R8Unorm, extent(w, h * 3 / 2), w as u32),
                FrameFormat::GRAY => (TextureFormat::R8Unorm, extent(w, h), w as u32),
                _ => (TextureFormat::R8Unorm, extent(w * 3, h), (w * 3) as u32),
            };
            let layout_ok = match format {
                FrameFormat::YUYV => w % 2 == 0,
                FrameFormat::NV12 => w % 2 == 0 && h % 2 == 0,
                FrameFormat::MJPEG => false,
                _ => true,
            };
            &&& !layout_ok ==> r is Err && layout_outcome(format, resolution, r)
            &&& layout_ok && raw_len < layout_bytes(layout) ==> r is Err && (r->Err_0 matches NokhwaError::ProcessFrameError {
                src,
                destination,
                error,
            } && src == format && destination@ == "RawTextureData"@ && error@ == short_raw_text(
                raw_len as nat,
                layout_bytes(layout) as nat,
            ))
            &&& layout_ok && raw_len >= layout_bytes(layout) ==> r == Ok::<
                (TextureFormat, Extent3d, u32),
                NokhwaError,
            >(layout)
        }),
{
    let layout = match raw_texture_layout(format, resolution) {
        Ok(l) => l,
        Err(e) => {
            return Err(e);
        },
    };
    proof {
        reveal_strlit("RawTextureData");
    }
    let (_, size, bytes_per_row) = layout;
    let expected: u32 = bytes_per_row * size.height;
    if (raw_len as u128) < (expected as u128) {
        let msg = joined(String::from_str("raw buffer ("), decimal_string(raw_len as u128).as_str());
        let msg = joined(msg, " bytes) smaller than expected (");
        let msg = joined(msg, decimal_string(expected as u128).as_str());
        let msg = joined(msg, " bytes)");
        return Err(
            NokhwaError::ProcessFrameError {
                src: format,
                destination: String::from_str("RawTextureData"),
                error: msg,
            },
        );
    }
    Ok(layout)
}

} // verus!
