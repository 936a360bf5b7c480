//! Whole-frame decoders: YUYV, NV12 and BGR into RGB/RGBA, and luma extraction.
//!
//! Each decoder checks the buffer shapes first and reports a mismatch as a
//! [`NokhwaError::ProcessFrameError`]; on success it produces exactly the
//! image the pixel kernels in [`crate::simd`] define.

use crate::error::NokhwaError;
use crate::simd::{
    bgr_swapped, bgr_to_rgb_simd, bt601_blue, bt601_green, bt601_red, nv12_decoded,
    nv12_to_rgb_simd, pixel_size, yuv_to_rgb_pixel, yuyv_decoded, yuyv_extract_luma_simd,
    yuyv_luma, yuyv_to_rgb_simd, yuyv_to_rgba_simd,
};
use crate::text::{decimal, decimal_string, joined};
use crate::types::{FrameFormat, Resolution};
use vstd::prelude::*;

verus! {

/// `"RGBA"` with alpha, `"RGB"` without.
pub open spec fn color_target(alpha: bool) -> Seq<char> {
    if alpha {
        "RGBA"@
    } else {
        "RGB"@
    }
}

/// A [`NokhwaError::ProcessFrameError`] with exactly these parts.
pub open spec fn is_process_error(e: NokhwaError, src: FrameFormat, dst: Seq<char>, msg: Seq<char>) -> bool {
    e matches NokhwaError::ProcessFrameError { src: s, destination: d, error: m } && s == src
        && d@ == dst && m@ == msg
}

/// `<label> (expected <e>, got <g>)`.
pub open spec fn mismatch_text(label: Seq<char>, expected: nat, got: nat) -> Seq<char> {
    label + " (expected "@ + decimal(expected) + ", got "@ + decimal(got) + ")"@
}

/// The message for a YUYV stream whose length is not a multiple of 4.
pub open spec fn yuyv_shape_message() -> Seq<char> {
    "Assertion failure, the YUV stream isn't 4:2:2! (wrong number of bytes)"@
}

/// Build `<label> (expected <e>, got <g>)`.
pub fn mismatch_message(label: &str, expected: u128, got: u128) -> (r: String)
    ensures
        r@ == mismatch_text(label@, expected as nat, got as nat),
{
    let s = joined(String::from_str(label), " (expected ");
    let e = decimal_string(expected);
    let s = joined(s, e.as_str());
    let s = joined(s, ", got ");
    let g = decimal_string(got);
    let s = joined(s, g.as_str());
    joined(s, ")")
}

/// `width * height` of a resolution, computed without overflow.
pub fn frame_area(resolution: Resolution) -> (a: u128)
    ensures
        a == resolution.width_x * resolution.height_y,
        a <= 0xffff_ffff_ffff_ffff,
{
    let w = resolution.width_x as u128;
    let h = resolution.height_y as u128;
    proof {
        assert(w * h <= 0xffff_ffff_ffff_ffff) by (nonlinear_arith)
            requires
                w <= 0xffff_ffff,
                h <= 0xffff_ffff,
        ;
    }
    w * h
}

/// The `[R, G, B]` of one BT.601 YUV sample.
pub fn yuyv444_to_rgb(y: u8, u: u8, v: u8) -> (r: [u8; 3])
    ensures
        r@ == seq![
            bt601_red(y as int, u as int, v as int),
            bt601_green(y as int, u as int, v as int),
            bt601_blue(y as int, u as int, v as int),
        ],
{
    let (red, grn, blu) = yuv_to_rgb_pixel(y, u, v);
    let r = [red, grn, blu];
    assert(r@ =~= seq![red, grn, blu]);
    r
}

/// Decode YUYV 4:2:2 data into RGB888 (RGBA8888 when `rgba`) in `dest`.
/// # Errors
/// The data length must be a multiple of 4 and `dest` must hold exactly the
/// decoded image; otherwise a [`NokhwaError::ProcessFrameError`] is returned
/// and `dest` is unchanged.
pub fn buf_yuyv422_to_rgb(data: &[u8], dest: &mut [u8], rgba: bool) -> (r: Result<(), NokhwaError>)
    ensures
        data.len() % 4 != 0 ==> r is Err && is_process_error(
            r->Err_0,
            FrameFormat::YUYV,
            color_target(rgba),
            yuyv_shape_message(),
        ) && final(dest)@ == old(dest)@,
        data.len() % 4 == 0 && old(dest).len() != (data.len() / 4) * 2 * pixel_size(rgba) ==> r
            is Err && is_process_error(
            r->Err_0,
            FrameFormat::YUYV,
            color_target(rgba),
            mismatch_text(
                "Bad buffer length"@,
                ((data.len() / 4) * 2 * pixel_size(rgba)) as nat,
                old(dest).len() as nat,
            ),
        ) && final(dest)@ == old(dest)@,
        data.len() % 4 == 0 && old(dest).len() == (data.len() / 4) * 2 * pixel_size(rgba) ==> r
            is Ok && final(dest)@ == yuyv_decoded(data@, rgba),
{
    let target = if rgba {
        "RGBA"
    } else {
        "RGB"
    };
    proof {
        reveal_strlit("RGBA");
        reveal_strlit("RGB");
    }
    if data.len() % 4 != 0 {
        return Err(
            NokhwaError::process_frame(
                FrameFormat::YUYV,
                target,
                "Assertion failure, the YUV stream isn't 4:2:2! (wrong number of bytes)",
            ),
        );
    }
    let px: u128 = if rgba {
        8
    } else {
        6
    };
    let expected: u128 = (data.len() / 4) as u128 * px;
    if dest.len() as u128 != expected {
        let msg = mismatch_message("Bad buffer length", expected, dest.len() as u128);
        return Err(
            NokhwaError::ProcessFrameError {
                src: FrameFormat::YUYV,
                destination: String::from_str(target),
                error: msg,
            },
        );
    }
    if rgba {
        yuyv_to_rgba_simd(data, dest);
    } else {
        yuyv_to_rgb_simd(data, dest);
    }
    Ok(())
}

/// Decode YUYV 4:2:2 data into a new RGB888 (RGBA8888 when `rgba`) buffer.
/// # Errors
/// The data length must be a multiple of 4.
pub fn yuyv422_to_rgb(data: &[u8], rgba: bool) -> (r: Result<Vec<u8>, NokhwaError>)
    requires
        (data.len() / 4) * 2 * pixel_size(rgba) <= usize::MAX,
    ensures
        data.len() % 4 != 0 ==> r is Err && is_process_error(
            r->Err_0,
            FrameFormat::YUYV,
            color_target(rgba),
            yuyv_shape_message(),
        ),
        data.len() % 4 == 0 ==> r is Ok && r->Ok_0@ == yuyv_decoded(data@, rgba),
{
    if data.len() % 4 != 0 {
        proof {
            reveal_strlit("RGBA");
            reveal_strlit("RGB");
        }
        return Err(
            NokhwaError::process_frame(
                FrameFormat::YUYV,
                if rgba {
                    "RGBA"
                } else {
                    "RGB"
                },
                "Assertion failure, the YUV stream isn't 4:2:2! (wrong number of bytes)",
            ),
        );
    }
    let px: usize = if rgba {
        8
    } else {
        6
    };
    assert((data.len() / 4) * 2 * pixel_size(rgba) == (data.len() / 4) * px);
    let mut dest = vec_of_zeros((data.len() / 4) * px);
    let res = buf_yuyv422_to_rgb(data, dest.as_mut_slice(), rgba);
    match res {
        Ok(()) => Ok(dest),
        Err(e) => Err(e),
    }
}

/// A vector of `n` zero bytes.
pub fn vec_of_zeros(n: usize) -> (r: Vec<u8>)
    ensures
        r@ == Seq::new(n as nat, |_i: int| 0u8),
{
    let mut v: Vec<u8> = Vec::with_capacity(n);
    let mut i: usize = 0;
    while i < n
        invariant
            i <= n,
            v@ == Seq::new(i as nat, |_i: int| 0u8),
        decreases n - i,
    {
        v.push(0);
        i += 1;
        assert(v@ =~= Seq::new(i as nat, |_i: int| 0u8));
    }
    v
}

/// Whether a resolution is a valid NV12 frame: both dimensions even.
pub open spec fn nv12_even(resolution: Resolution) -> bool {
    resolution.width_x % 2 == 0 && resolution.height_y % 2 == 0
}

/// The byte length of an NV12 frame: `w * h * 3 / 2`.
pub open spec fn nv12_len(resolution: Resolution) -> int {
    resolution.width_x * resolution.height_y * 3 / 2
}

/// Decode NV12 data into RGB888 (RGBA8888 when `rgba`) in `out`.
/// # Errors
/// Both dimensions must be even, `data` must hold `w * h * 3 / 2` bytes and
/// `out` must hold `w * h` pixels; otherwise a [`NokhwaError::ProcessFrameError`]
/// is returned and `out` is unchanged.
pub fn buf_nv12_to_rgb(resolution: Resolution, data: &[u8], out: &mut [u8], rgba: bool) -> (r:
    Result<(), NokhwaError>)
    ensures
        !nv12_even(resolution) ==> r is Err && is_process_error(
            r->Err_0,
            FrameFormat::NV12,
            color_target(rgba),
            "bad resolution"@,
        ),
        nv12_even(resolution) && data.len() != nv12_len(resolution) ==> r is Err
            && is_process_error(
            r->Err_0,
            FrameFormat::NV12,
            color_target(rgba),
            "bad input buffer size"@,
        ),
        nv12_even(resolution) && data.len() == nv12_len(resolution) && old(out).len()
            != resolution.width_x * resolution.height_y * pixel_size(rgba) ==> r is Err
            && is_process_error(
            r->Err_0,
            FrameFormat::NV12,
            color_target(rgba),
            "bad output buffer size"@,
        ),
        r is Err ==> final(out)@ == old(out)@,
        nv12_even(resolution) && data.len() == nv12_len(resolution) && old(out).len()
            == resolution.width_x * resolution.height_y * pixel_size(rgba) ==> r is Ok
            && final(out)@ == nv12_decoded(
            resolution.width_x as int,
            resolution.height_y as int,
            data@,
            rgba,
        ),
{
    proof {
        reveal_strlit("RGBA");
        reveal_strlit("RGB");
    }
    let target = if rgba {
        "RGBA"
    } else {
        "RGB"
    };
    let w = resolution.width_x;
    let h = resolution.height_y;
    if w % 2 != 0 || h % 2 != 0 {
        return Err(NokhwaError::process_frame(FrameFormat::NV12, target, "bad resolution"));
    }
    let area: u128 = frame_area(resolution);
    let px: u128 = if rgba {
        4
    } else {
        3
    };
    if data.len() as u128 != area * 3 / 2 {
        return Err(NokhwaError::process_frame(FrameFormat::NV12, target, "bad input buffer size"));
    }
    if out.len() as u128 != area * px {
        return Err(NokhwaError::process_frame(FrameFormat::NV12, target, "bad output buffer size"));
    }
    proof {
        assert(area * px <= out.len());
        assert(area <= area * px) by (nonlinear_arith)
            requires
                px >= 1,
        ;
    }
    let width = w as usize;
    let height = h as usize;
    nv12_to_rgb_simd(width, height, data, out, rgba);
    Ok(())
}

/// Decode NV12 data into a new RGB888 (RGBA8888 when `rgba`) buffer.
/// # Errors
/// Both dimensions must be even and `data` must hold `w * h * 3 / 2` bytes.
pub fn nv12_to_rgb(resolution: Resolution, data: &[u8], rgba: bool) -> (r: Result<Vec<u8>, NokhwaError>)
    requires
        nv12_even(resolution) && data.len() == nv12_len(resolution) ==> resolution.width_x
            * resolution.height_y * pixel_size(rgba) <= usize::MAX,
    ensures
        !nv12_even(resolution) ==> r is Err && is_process_error(
            r->Err_0,
            FrameFormat::NV12,
            color_target(rgba),
            "bad resolution"@,
        ),
        nv12_even(resolution) && data.len() != nv12_len(resolution) ==> r is Err
            && is_process_error(
            r->Err_0,
            FrameFormat::NV12,
            color_target(rgba),
            "bad input buffer size"@,
        ),
        nv12_even(resolution) && data.len() == nv12_len(resolution) ==> r is Ok && r->Ok_0@
            == nv12_decoded(resolution.width_x as int, resolution.height_y as int, data@, rgba),
{
    proof {
        reveal_strlit("RGBA");
        reveal_strlit("RGB");
    }
    let target = if rgba {
        "RGBA"
    } else {
        "RGB"
    };
    let w = resolution.width_x;
    let h = resolution.height_y;
    if w % 2 != 0 || h % 2 != 0 {
        return Err(NokhwaError::process_frame(FrameFormat::NV12, target, "bad resolution"));
    }
    let area: u128 = frame_area(resolution);
    if data.len() as u128 != area * 3 / 2 {
        return Err(NokhwaError::process_frame(FrameFormat::NV12, target, "bad input buffer size"));
    }
    let px: u128 = if rgba {
        4
    } else {
        3
    };
    let mut out = vec_of_zeros((area * px) as usize);
    let res = buf_nv12_to_rgb(resolution, data, out.as_mut_slice(), rgba);
    match res {
        Ok(()) => Ok(out),
        Err(e) => Err(e),
    }
}

/// Swap BGR888 data into RGB888 in `rgb`.
/// # Errors
/// Both buffers must hold exactly `w * h * 3` bytes; otherwise a
/// [`NokhwaError::ProcessFrameError`] is returned and `rgb` is unchanged.
pub fn buf_bgr_to_rgb(resolution: Resolution, bgr: &[u8], rgb: &mut [u8]) -> (r: Result<(), NokhwaError>)
    ensures
        bgr.len() != resolution.width_x * resolution.height_y * 3 ==> r is Err
            && is_process_error(r->Err_0, FrameFormat::RAWBGR, "RGB"@, "bad input buffer size"@),
        bgr.len() == resolution.width_x * resolution.height_y * 3 && old(rgb).len() != bgr.len()
            ==> r is Err && is_process_error(
            r->Err_0,
            FrameFormat::RAWBGR,
            "RGB"@,
            "bad output buffer size"@,
        ),
        r is Err ==> final(rgb)@ == old(rgb)@,
        bgr.len() == resolution.width_x * resolution.height_y * 3 && old(rgb).len() == bgr.len()
            ==> r is Ok && final(rgb)@ == bgr_swapped(bgr@),
{
    let size: u128 = frame_area(resolution) * 3;
    if bgr.len() as u128 != size {
        return Err(NokhwaError::process_frame(FrameFormat::RAWBGR, "RGB", "bad input buffer size"));
    }
    if rgb.len() != bgr.len() {
        return Err(
            NokhwaError::process_frame(FrameFormat::RAWBGR, "RGB", "bad output buffer size"),
        );
    }
    bgr_to_rgb_simd(bgr, rgb);
    Ok(())
}

/// Copy the Y bytes of YUYV data into `dest`.
/// # Errors
/// The data length must be a multiple of 4 and `dest` must hold half as many
/// bytes; otherwise a [`NokhwaError::ProcessFrameError`] is returned and
/// `dest` is unchanged.
pub fn buf_yuyv_extract_luma(data: &[u8], dest: &mut [u8]) -> (r: Result<(), NokhwaError>)
    ensures
        data.len() % 4 != 0 ==> r is Err && is_process_error(
            r->Err_0,
            FrameFormat::YUYV,
            "Luma"@,
            yuyv_shape_message(),
        ),
        data.len() % 4 == 0 && old(dest).len() != data.len() / 2 ==> r is Err && is_process_error(
            r->Err_0,
            FrameFormat::YUYV,
            "Luma"@,
            mismatch_text(
                "destination buffer size mismatch"@,
                (data.len() / 2) as nat,
                old(dest).len() as nat,
            ),
        ),
        r is Err ==> final(dest)@ == old(dest)@,
        data.len() % 4 == 0 && old(dest).len() == data.len() / 2 ==> r is Ok && final(dest)@
            == yuyv_luma(data@),
{
    if data.len() % 4 != 0 {
        return Err(
            NokhwaError::process_frame(
                FrameFormat::YUYV,
                "Luma",
                "Assertion failure, the YUV stream isn't 4:2:2! (wrong number of bytes)",
            ),
        );
    }
    if dest.len() != data.len() / 2 {
        let msg = mismatch_message(
            "destination buffer size mismatch",
            (data.len() / 2) as u128,
            dest.len() as u128,
        );
        return Err(
            NokhwaError::ProcessFrameError {
                src: FrameFormat::YUYV,
                destination: String::from_str("Luma"),
                error: msg,
            },
        );
    }
    yuyv_extract_luma_simd(data, dest);
    Ok(())
}

/// Copy the Y plane of NV12 data into `dest`.
/// # Errors
/// `data` must hold `w * h * 3 / 2` bytes and `dest` exactly `w * h`;
/// otherwise a [`NokhwaError::ProcessFrameError`] is returned and `dest` is
/// unchanged.
pub fn buf_nv12_extract_luma(resolution: Resolution, data: &[u8], dest: &mut [u8]) -> (r: Result<
    (),
    NokhwaError,
>)
    ensures
        data.len() != nv12_len(resolution) ==> r is Err && is_process_error(
            r->Err_0,
            FrameFormat::NV12,
            "Luma"@,
            mismatch_text(
                "NV12 input size mismatch"@,
                nv12_len(resolution) as nat,
                data.len() as nat,
            ),
        ),
        data.len() == nv12_len(resolution) && old(dest).len() != resolution.width_x
            * resolution.height_y ==> r is Err && is_process_error(
            r->Err_0,
            FrameFormat::NV12,
            "Luma"@,
            mismatch_text(
                "destination buffer size mismatch"@,
                (resolution.width_x * resolution.height_y) as nat,
                old(dest).len() as nat,
            ),
        ),
        r is Err ==> final(dest)@ == old(dest)@,
        data.len() == nv12_len(resolution) && old(dest).len() == resolution.width_x
            * resolution.height_y ==> r is Ok && final(dest)@ == data@.take(old(dest).len() as int),
{
    let area: u128 = frame_area(resolution);
    let expected_in: u128 = area * 3 / 2;
    if data.len() as u128 != expected_in {
        let msg = mismatch_message("NV12 input size mismatch", expected_in, data.len() as u128);
        return Err(
            NokhwaError::ProcessFrameError {
                src: FrameFormat::NV12,
                destination: String::from_str("Luma"),
                error: msg,
            },
        );
    }
    if dest.len() as u128 != area {
        let msg = mismatch_message("destination buffer size mismatch", area, dest.len() as u128);
        return Err(
            NokhwaError::ProcessFrameError {
                src: FrameFormat::NV12,
                destination: String::from_str("Luma"),
                error: msg,
            },
        );
    }
    let n = dest.len();
    let mut i: usize = 0;
    while i < n
        invariant
            n == dest.len(),
            n <= data.len(),
            i <= n,
            forall|k: int| 0 <= k < i ==> #[trigger] dest@[k] == data@[k],
        decreases n - i,
    {
        dest[i] = data[i];
        i += 1;
    }
    assert(dest@ =~= data@.take(n as int));
    Ok(())
}

} // verus!
