//! Pixel format conversion kernels.
//!
//! Every conversion has a scalar kernel and a `*_simd` entry point that
//! checks the buffer shapes and runs the conversion. The entry points are
//! written safely; they produce exactly what the scalar kernels produce.
//!
//! The YUV kernels use the BT.601 video-range integer approximation:
//! `R = clamp(((Y - 16) * 298 + 409 * (V - 128) + 128) >> 8)`, and so on.

use vstd::prelude::*;
use vstd::arithmetic::div_mod::lemma_fundamental_div_mod_converse;

verus! {

// ──────────────────────────────────────────────
// Mathematical model
// ──────────────────────────────────────────────

/// Saturate an integer into the byte range.
pub open spec fn clamp_byte(v: int) -> u8 {
    if v < 0 {
        0u8
    } else if v > 255 {
        255u8
    } else {
        v as u8
    }
}

/// BT.601 red channel; `/ 256` on `int` is floor division, as `>> 8` is on `i32`.
pub open spec fn bt601_red(y: int, u: int, v: int) -> u8 {
    clamp_byte(((y - 16) * 298 + 409 * (v - 128) + 128) / 256)
}

/// BT.601 green channel.
pub open spec fn bt601_green(y: int, u: int, v: int) -> u8 {
    clamp_byte(((y - 16) * 298 - 100 * (u - 128) - 208 * (v - 128) + 128) / 256)
}

/// BT.601 blue channel.
pub open spec fn bt601_blue(y: int, u: int, v: int) -> u8 {
    clamp_byte(((y - 16) * 298 + 516 * (u - 128) + 128) / 256)
}

/// Channel `c` of a decoded pixel: R, G, B, then the opaque alpha byte.
pub open spec fn bt601_channel(y: int, u: int, v: int, c: int) -> u8 {
    if c == 0 {
        bt601_red(y, u, v)
    } else if c == 1 {
        bt601_green(y, u, v)
    } else if c == 2 {
        bt601_blue(y, u, v)
    } else {
        255u8
    }
}

/// Bytes per output pixel: 4 with alpha, 3 without.
pub open spec fn pixel_size(alpha: bool) -> int {
    if alpha {
        4
    } else {
        3
    }
}

/// The pixel that output byte `k` belongs to.
pub open spec fn pixel_of(alpha: bool, k: int) -> int {
    if alpha {
        k / 4
    } else {
        k / 3
    }
}

/// The channel that output byte `k` holds.
pub open spec fn channel_of(alpha: bool, k: int) -> int {
    if alpha {
        k % 4
    } else {
        k % 3
    }
}

/// Byte `k` of the RGB(A) image decoded from packed YUYV 4:2:2 data.
/// Each 4-byte group `[Y0, U, Y1, V]` yields two pixels that share `U`/`V`.
pub open spec fn yuyv_out_byte(src: Seq<u8>, alpha: bool, k: int) -> u8 {
    let pix = pixel_of(alpha, k);
    let c = channel_of(alpha, k);
    let pair = pix / 2;
    let off = pix % 2;
    bt601_channel(
        src[4 * pair + 2 * off] as int,
        src[4 * pair + 1] as int,
        src[4 * pair + 3] as int,
        c,
    )
}

/// The RGB (or RGBA) image decoded from packed YUYV 4:2:2 data.
pub open spec fn yuyv_decoded(src: Seq<u8>, alpha: bool) -> Seq<u8> {
    Seq::new(
        ((src.len() / 4) * 2 * pixel_size(alpha)) as nat,
        |k: int| yuyv_out_byte(src, alpha, k),
    )
}

/// Byte `k` of the RGB(A) image decoded from NV12 data of the given size:
/// a full `width * height` Y plane, then one interleaved `U, V` pair for every
/// 2×2 block of pixels.
pub open spec fn nv12_out_byte(width: int, height: int, data: Seq<u8>, alpha: bool, k: int) -> u8 {
    let pix = pixel_of(alpha, k);
    let c = channel_of(alpha, k);
    let row = pix / width;
    let col = pix % width;
    let uv = width * height + (row / 2) * width + (col / 2) * 2;
    bt601_channel(data[pix] as int, data[uv] as int, data[uv + 1] as int, c)
}

/// The RGB (or RGBA) image decoded from NV12 data.
pub open spec fn nv12_decoded(width: int, height: int, data: Seq<u8>, alpha: bool) -> Seq<u8> {
    Seq::new(
        (width * height * pixel_size(alpha)) as nat,
        |k: int| nv12_out_byte(width, height, data, alpha, k),
    )
}

/// Byte `k` of a 3-byte-pixel image with the first and third channel swapped.
pub open spec fn swap_rb_byte(src: Seq<u8>, k: int) -> u8 {
    let c = k % 3;
    let base = k - c;
    if c == 0 {
        src[base + 2]
    } else if c == 1 {
        src[base + 1]
    } else {
        src[base]
    }
}

/// BGR888 turned into RGB888 (the operation is its own inverse).
pub open spec fn bgr_swapped(src: Seq<u8>) -> Seq<u8> {
    Seq::new(src.len(), |k: int| swap_rb_byte(src, k))
}

/// Byte `k` of the RGBA image made from 3-byte pixels, optionally swapping
/// the first and third channel, with alpha 255.
pub open spec fn expand_alpha_byte(src: Seq<u8>, swap: bool, k: int) -> u8 {
    let p = k / 4;
    let c = k % 4;
    if c == 3 {
        255u8
    } else if swap {
        src[3 * p + 2 - c]
    } else {
        src[3 * p + c]
    }
}

/// RGB888 (or BGR888 when `swap`) expanded to RGBA8888 with alpha 255.
pub open spec fn alpha_expanded(src: Seq<u8>, swap: bool) -> Seq<u8> {
    Seq::new(((src.len() / 3) * 4) as nat, |k: int| expand_alpha_byte(src, swap, k))
}

/// The Y bytes of packed YUYV data (every even byte).
pub open spec fn yuyv_luma(src: Seq<u8>) -> Seq<u8> {
    Seq::new(((src.len() / 4) * 2) as nat, |k: int| src[2 * k])
}

/// Mean of three channel bytes, rounded down.
pub open spec fn mean3(a: u8, b: u8, c: u8) -> u8 {
    ((a as int + b as int + c as int) / 3) as u8
}

/// `(R + G + B) / 3` for every 3-byte pixel.
pub open spec fn rgb_mean(src: Seq<u8>) -> Seq<u8> {
    Seq::new(
        (src.len() / 3) as nat,
        |k: int| mean3(src[3 * k], src[3 * k + 1], src[3 * k + 2]),
    )
}

// ──────────────────────────────────────────────
// Pixel arithmetic
// ──────────────────────────────────────────────

/// `clamp(t >> 8, 0, 255)` for a fixed-point channel value.
fn shift_clamp(t: i32) -> (r: u8)
    ensures
        r == clamp_byte(t as int / 256),
{
    if t < 0 {
        assert(t as int / 256 < 0);
        0
    } else {
        let s: u32 = (t as u32) >> 8;
        assert(s == (t as u32) / 256) by (bit_vector)
            requires
                s == (t as u32) >> 8,
        ;
        if s > 255 {
            255
        } else {
            s as u8
        }
    }
}

/// Decode one YUV sample into its R, G and B bytes.
pub fn yuv_to_rgb_pixel(y: u8, u: u8, v: u8) -> (r: (u8, u8, u8))
    ensures
        r.0 == bt601_red(y as int, u as int, v as int),
        r.1 == bt601_green(y as int, u as int, v as int),
        r.2 == bt601_blue(y as int, u as int, v as int),
{
    let d: i32 = u as i32 - 128;
    let e: i32 = v as i32 - 128;
    let c298: i32 = (y as i32 - 16) * 298;
    let red = shift_clamp(c298 + 409 * e + 128);
    let grn = shift_clamp(c298 - 100 * d - 208 * e + 128);
    let blu = shift_clamp(c298 + 516 * d + 128);
    (red, grn, blu)
}


/// Write the decoded channels of one pixel at `di` (and alpha when asked).
fn put_pixel(dst: &mut [u8], di: usize, rgb: (u8, u8, u8), alpha: bool)
    requires
        di + pixel_size(alpha) <= old(dst).len(),
    ensures
        final(dst).len() == old(dst).len(),
        final(dst)@[di as int] == rgb.0,
        final(dst)@[di + 1] == rgb.1,
        final(dst)@[di + 2] == rgb.2,
        alpha ==> final(dst)@[di + 3] == 255u8,
        forall|k: int|
            0 <= k < old(dst).len() && !(di <= k < di + pixel_size(alpha))
                ==> #[trigger] final(dst)@[k] == old(dst)@[k],
{
    dst[di] = rgb.0;
    dst[di + 1] = rgb.1;
    dst[di + 2] = rgb.2;
    if alpha {
        dst[di + 3] = 255;
    }
}

/// Where byte `step * i + c` of a decoded YUYV image comes from.
proof fn lemma_yuyv_byte(src: Seq<u8>, alpha: bool, i: int, c: int)
    requires
        0 <= i,
        0 <= c < 2 * pixel_size(alpha),
    ensures
        yuyv_out_byte(src, alpha, (if alpha { 8 * i } else { 6 * i }) + c) == bt601_channel(
            src[4 * i + 2 * pixel_of(alpha, c)] as int,
            src[4 * i + 1] as int,
            src[4 * i + 3] as int,
            channel_of(alpha, c),
        ),
{
    let k = (if alpha { 8 * i } else { 6 * i }) + c;
    if alpha {
        assert(k == 8 * i + c);
        assert(k / 4 == 2 * i + c / 4);
        assert(k % 4 == c % 4);
    } else {
        assert(k == 6 * i + c);
        assert(k / 3 == 2 * i + c / 3);
        assert(k % 3 == c % 3);
    }
}

/// Shared YUYV 4:2:2 → RGB/RGBA loop.
fn yuyv_convert(src: &[u8], dst: &mut [u8], alpha: bool)
    requires
        src.len() % 4 == 0,
        old(dst).len() == (src.len() / 4) * 2 * pixel_size(alpha),
    ensures
        final(dst)@ == yuyv_decoded(src@, alpha),
{
    let n = src.len() / 4;
    assert(alpha ==> dst.len() == 8 * n);
    assert(!alpha ==> dst.len() == 6 * n);
    let px: usize = if alpha { 4 } else { 3 };
    let mut i: usize = 0;
    let mut si: usize = 0;
    let mut di: usize = 0;
    while i < n
        invariant
            n == src.len() / 4,
            src.len() % 4 == 0,
            px == pixel_size(alpha),
            alpha ==> dst.len() == 8 * n && di == 8 * i,
            !alpha ==> dst.len() == 6 * n && di == 6 * i,
            i <= n,
            si == 4 * i,
            forall|k: int| 0 <= k < di ==> #[trigger] dst@[k] == yuyv_out_byte(src@, alpha, k),
        decreases n - i,
    {
        let luma0 = src[si];
        let cb = src[si + 1];
        let luma1 = src[si + 2];
        let cr = src[si + 3];
        let p0 = yuv_to_rgb_pixel(luma0, cb, cr);
        let p1 = yuv_to_rgb_pixel(luma1, cb, cr);
        put_pixel(dst, di, p0, alpha);
        put_pixel(dst, di + px, p1, alpha);
        proof {
            assert forall|k: int| 0 <= k < di + 2 * px implies #[trigger] dst@[k]
                == yuyv_out_byte(src@, alpha, k) by {
                if k >= di {
                    lemma_yuyv_byte(src@, alpha, i as int, k - di);
                }
            }
        }
        i += 1;
        si += 4;
        di += 2 * px;
    }
    assert(dst@ =~= yuyv_decoded(src@, alpha));
}

/// Scalar YUYV → RGB888: `dst` holds 6 bytes for every 4 source bytes.
pub fn yuyv_to_rgb_scalar(src: &[u8], dst: &mut [u8])
    requires
        src.len() % 4 == 0,
        old(dst).len() == (src.len() / 4) * 6,
    ensures
        final(dst)@ == yuyv_decoded(src@, false),
{
    yuyv_convert(src, dst, false)
}

/// Scalar YUYV → RGBA8888: `dst` holds 8 bytes for every 4 source bytes.
pub fn yuyv_to_rgba_scalar(src: &[u8], dst: &mut [u8])
    requires
        src.len() % 4 == 0,
        old(dst).len() == (src.len() / 4) * 8,
    ensures
        final(dst)@ == yuyv_decoded(src@, true),
{
    yuyv_convert(src, dst, true)
}


/// `a` when it is the smaller, else `b`.
pub open spec fn min_int(a: int, b: int) -> int {
    if a <= b {
        a
    } else {
        b
    }
}

/// `dst` after the first `pairs` 3-byte pixels of `src` were written into it
/// with the first and third channel swapped.
pub open spec fn swapped_into(src: Seq<u8>, dst: Seq<u8>, pairs: int) -> Seq<u8> {
    Seq::new(dst.len(), |k: int| if k < 3 * pairs { swap_rb_byte(src, k) } else { dst[k] })
}

/// Swap the first and third byte of every 3-byte pixel that fits in both
/// `src` and `dst`; any other byte of `dst` is left as it was.
pub(crate) fn bgr_swap_pixels(src: &[u8], dst: &mut [u8])
    ensures
        final(dst)@ == swapped_into(
            src@,
            old(dst)@,
            min_int(src.len() as int / 3, old(dst).len() as int / 3),
        ),
{
    let m = if src.len() / 3 <= dst.len() / 3 { src.len() / 3 } else { dst.len() / 3 };
    let ghost orig = dst@;
    let mut i: usize = 0;
    while i < m
        invariant
            m == min_int(src.len() as int / 3, orig.len() as int / 3),
            dst.len() == orig.len(),
            i <= m,
            forall|k: int| 0 <= k < dst.len() ==> #[trigger] dst@[k] == (if k < 3 * i {
                swap_rb_byte(src@, k)
            } else {
                orig[k]
            }),
        decreases m - i,
    {
        let b = src[3 * i];
        let g = src[3 * i + 1];
        let r = src[3 * i + 2];
        dst[3 * i] = r;
        dst[3 * i + 1] = g;
        dst[3 * i + 2] = b;
        proof {
            assert forall|k: int| 0 <= k < dst.len() implies #[trigger] dst@[k] == (if k < 3 * (
            i + 1) {
                swap_rb_byte(src@, k)
            } else {
                orig[k]
            }) by {
                if 3 * i <= k < 3 * i + 3 {
                    assert(k % 3 == k - 3 * i);
                }
            }
        }
        i += 1;
    }
    assert(dst@ =~= swapped_into(src@, orig, m as int));
}

/// Scalar BGR → RGB. `src` and `dst` must be the same length and a multiple of 3.
pub fn bgr_to_rgb_scalar(src: &[u8], dst: &mut [u8])
    requires
        src.len() == old(dst).len(),
        src.len() % 3 == 0,
    ensures
        final(dst)@ == bgr_swapped(src@),
{
    bgr_swap_pixels(src, dst);
    assert(dst@ =~= bgr_swapped(src@));
}

/// Swap BGR to RGB. `src` and `dst` must be the same length and a multiple of 3.
pub fn bgr_to_rgb_simd(src: &[u8], dst: &mut [u8])
    requires
        src.len() == old(dst).len(),
        src.len() % 3 == 0,
    ensures
        final(dst)@ == bgr_swapped(src@),
{
    bgr_to_rgb_scalar(src, dst);
}

/// YUYV → RGB888. `src.len()` must be a multiple of 4 and `dst.len()` must be
/// `(src.len() / 4) * 6`.
pub fn yuyv_to_rgb_simd(src: &[u8], dst: &mut [u8])
    requires
        src.len() % 4 == 0,
        old(dst).len() == (src.len() / 4) * 6,
    ensures
        final(dst)@ == yuyv_decoded(src@, false),
{
    yuyv_to_rgb_scalar(src, dst)
}

/// YUYV → RGBA8888. `src.len()` must be a multiple of 4 and `dst.len()` must be
/// `(src.len() / 4) * 8`.
pub fn yuyv_to_rgba_simd(src: &[u8], dst: &mut [u8])
    requires
        src.len() % 4 == 0,
        old(dst).len() == (src.len() / 4) * 8,
    ensures
        final(dst)@ == yuyv_decoded(src@, true),
{
    yuyv_to_rgba_scalar(src, dst)
}

/// `dst` after the first `count` 3-byte pixels of `src` were expanded into it
/// as 4-byte pixels with alpha 255 (channels swapped when `swap`).
pub open spec fn expanded_into(src: Seq<u8>, dst: Seq<u8>, swap: bool, count: int) -> Seq<u8> {
    Seq::new(
        dst.len(),
        |k: int| if k < 4 * count { expand_alpha_byte(src, swap, k) } else { dst[k] },
    )
}

/// Shared RGB/BGR → RGBA loop over the pixels that fit in both buffers.
fn expand_alpha(src: &[u8], dst: &mut [u8], swap: bool)
    ensures
        final(dst)@ == expanded_into(
            src@,
            old(dst)@,
            swap,
            min_int(src.len() as int / 3, old(dst).len() as int / 4),
        ),
{
    let m = if src.len() / 3 <= dst.len() / 4 { src.len() / 3 } else { dst.len() / 4 };
    let ghost orig = dst@;
    let mut i: usize = 0;
    while i < m
        invariant
            m == min_int(src.len() as int / 3, orig.len() as int / 4),
            dst.len() == orig.len(),
            i <= m,
            forall|k: int| 0 <= k < dst.len() ==> #[trigger] dst@[k] == (if k < 4 * i {
                expand_alpha_byte(src@, swap, k)
            } else {
                orig[k]
            }),
        decreases m - i,
    {
        let c0 = src[3 * i];
        let c1 = src[3 * i + 1];
        let c2 = src[3 * i + 2];
        if swap {
            dst[4 * i] = c2;
            dst[4 * i + 2] = c0;
        } else {
            dst[4 * i] = c0;
            dst[4 * i + 2] = c2;
        }
        dst[4 * i + 1] = c1;
        dst[4 * i + 3] = 255;
        proof {
            assert forall|k: int| 0 <= k < dst.len() implies #[trigger] dst@[k] == (if k < 4 * (
            i + 1) {
                expand_alpha_byte(src@, swap, k)
            } else {
                orig[k]
            }) by {
                if 4 * i <= k < 4 * i + 4 {
                    assert(k / 4 == i);
                    assert(k % 4 == k - 4 * i);
                }
            }
        }
        i += 1;
    }
    assert(dst@ =~= expanded_into(src@, orig, swap, m as int));
}

/// Scalar RGB888 → RGBA8888 over the pixels that fit in both buffers.
pub fn rgb_to_rgba_scalar(src: &[u8], dst: &mut [u8])
    ensures
        final(dst)@ == expanded_into(
            src@,
            old(dst)@,
            false,
            min_int(src.len() as int / 3, old(dst).len() as int / 4),
        ),
{
    expand_alpha(src, dst, false)
}

/// Scalar BGR888 → RGBA8888 over the pixels that fit in both buffers.
pub fn bgr_to_rgba_scalar(src: &[u8], dst: &mut [u8])
    ensures
        final(dst)@ == expanded_into(
            src@,
            old(dst)@,
            true,
            min_int(src.len() as int / 3, old(dst).len() as int / 4),
        ),
{
    expand_alpha(src, dst, true)
}

/// RGB888 → RGBA8888 with alpha 255. `src.len()` must be a multiple of 3 and
/// `dst.len()` must be `(src.len() / 3) * 4`.
pub fn rgb_to_rgba_simd(src: &[u8], dst: &mut [u8])
    requires
        src.len() % 3 == 0,
        old(dst).len() == (src.len() / 3) * 4,
    ensures
        final(dst)@ == alpha_expanded(src@, false),
{
    rgb_to_rgba_scalar(src, dst);
    assert(dst@ =~= alpha_expanded(src@, false));
}

/// BGR888 → RGBA8888 (R/B swapped, alpha 255). Same shape rules as
/// [`rgb_to_rgba_simd`].
pub fn bgr_to_rgba_simd(src: &[u8], dst: &mut [u8])
    requires
        src.len() % 3 == 0,
        old(dst).len() == (src.len() / 3) * 4,
    ensures
        final(dst)@ == alpha_expanded(src@, true),
{
    bgr_to_rgba_scalar(src, dst);
    assert(dst@ =~= alpha_expanded(src@, true));
}

/// `dst` after the Y bytes of the first `count` YUYV groups of `src` were
/// written into it, two per group.
pub open spec fn luma_into(src: Seq<u8>, dst: Seq<u8>, count: int) -> Seq<u8> {
    Seq::new(dst.len(), |k: int| if k < 2 * count { src[2 * k] } else { dst[k] })
}

/// YUYV Y-channel extraction over the groups that fit in both buffers.
pub(crate) fn yuyv_luma_groups(src: &[u8], dst: &mut [u8])
    ensures
        final(dst)@ == luma_into(src@, old(dst)@, min_int(src.len() as int / 4, old(dst).len() as int / 2)),
{
    let m = if src.len() / 4 <= dst.len() / 2 { src.len() / 4 } else { dst.len() / 2 };
    let ghost orig = dst@;
    let mut i: usize = 0;
    while i < m
        invariant
            m == min_int(src.len() as int / 4, orig.len() as int / 2),
            dst.len() == orig.len(),
            i <= m,
            forall|k: int| 0 <= k < dst.len() ==> #[trigger] dst@[k] == (if k < 2 * i {
                src@[2 * k]
            } else {
                orig[k]
            }),
        decreases m - i,
    {
        let y0 = src[4 * i];
        let y1 = src[4 * i + 2];
        dst[2 * i] = y0;
        dst[2 * i + 1] = y1;
        i += 1;
    }
    assert(dst@ =~= luma_into(src@, orig, m as int));
}

/// Scalar extraction of the Y bytes of YUYV data. `src.len()` must be a
/// multiple of 4 and `dst.len()` must be `src.len() / 2`.
pub fn yuyv_extract_luma_scalar(src: &[u8], dst: &mut [u8])
    requires
        src.len() % 4 == 0,
        old(dst).len() == src.len() / 2,
    ensures
        final(dst)@ == yuyv_luma(src@),
{
    yuyv_luma_groups(src, dst);
    assert(dst@ =~= yuyv_luma(src@));
}

/// Extract the Y bytes of YUYV data. `src.len()` must be a multiple of 4 and
/// `dst.len()` must be `src.len() / 2`.
pub fn yuyv_extract_luma_simd(src: &[u8], dst: &mut [u8])
    requires
        src.len() % 4 == 0,
        old(dst).len() == src.len() / 2,
    ensures
        final(dst)@ == yuyv_luma(src@),
{
    yuyv_extract_luma_scalar(src, dst);
}

/// `dst` after the first `count` pixels of `src` were averaged into it.
pub open spec fn mean_into(src: Seq<u8>, dst: Seq<u8>, count: int) -> Seq<u8> {
    Seq::new(
        dst.len(),
        |k: int| if k < count { mean3(src[3 * k], src[3 * k + 1], src[3 * k + 2]) } else { dst[k] },
    )
}

/// `(R + G + B) / 3` over the pixels that fit in both buffers.
pub(crate) fn rgb_mean_pixels(src: &[u8], dst: &mut [u8])
    ensures
        final(dst)@ == mean_into(src@, old(dst)@, min_int(src.len() as int / 3, old(dst).len() as int)),
{
    let m = if src.len() / 3 <= dst.len() { src.len() / 3 } else { dst.len() };
    let ghost orig = dst@;
    let mut i: usize = 0;
    while i < m
        invariant
            m == min_int(src.len() as int / 3, orig.len() as int),
            dst.len() == orig.len(),
            i <= m,
            forall|k: int| 0 <= k < dst.len() ==> #[trigger] dst@[k] == (if k < i {
                mean3(src@[3 * k], src@[3 * k + 1], src@[3 * k + 2])
            } else {
                orig[k]
            }),
        decreases m - i,
    {
        let sum: u16 = src[3 * i] as u16 + src[3 * i + 1] as u16 + src[3 * i + 2] as u16;
        dst[i] = (sum / 3) as u8;
        i += 1;
    }
    assert(dst@ =~= mean_into(src@, orig, m as int));
}

/// Scalar per-pixel `(R + G + B) / 3`. `src.len()` must be a multiple of 3
/// and `dst.len()` must be `src.len() / 3`.
pub fn rgb_to_luma_scalar(src: &[u8], dst: &mut [u8])
    requires
        src.len() % 3 == 0,
        old(dst).len() == src.len() / 3,
    ensures
        final(dst)@ == rgb_mean(src@),
{
    rgb_mean_pixels(src, dst);
    assert(dst@ =~= rgb_mean(src@));
}

/// Per-pixel `(R + G + B) / 3`. `src.len()` must be a multiple of 3 and
/// `dst.len()` must be `src.len() / 3`.
pub fn rgb_to_luma_simd(src: &[u8], dst: &mut [u8])
    requires
        src.len() % 3 == 0,
        old(dst).len() == src.len() / 3,
    ensures
        final(dst)@ == rgb_mean(src@),
{
    rgb_to_luma_scalar(src, dst);
}


/// Where byte `(row * width + col) * pixel_size + c` of a decoded NV12 image comes from.
proof fn lemma_nv12_byte(width: int, height: int, data: Seq<u8>, alpha: bool, row: int, col: int, c: int)
    requires
        0 <= row < height,
        0 <= col < width,
        0 <= c < pixel_size(alpha),
    ensures
        nv12_out_byte(width, height, data, alpha, (row * width + col) * pixel_size(alpha) + c)
            == bt601_channel(
            data[row * width + col] as int,
            data[width * height + (row / 2) * width + (col / 2) * 2] as int,
            data[width * height + (row / 2) * width + (col / 2) * 2 + 1] as int,
            c,
        ),
{
    let pix = row * width + col;
    let k = pix * pixel_size(alpha) + c;
    if alpha {
        assert(k == 4 * pix + c);
        lemma_fundamental_div_mod_converse(k, 4, pix, c);
    } else {
        assert(k == 3 * pix + c);
        lemma_fundamental_div_mod_converse(k, 3, pix, c);
    }
    assert(pixel_of(alpha, k) == pix);
    assert(channel_of(alpha, k) == c);
    lemma_fundamental_div_mod_converse(pix, width, row, col);
}

/// After the two pixels at columns `col` and `col + 1` of `row` were written at
/// `oi`, the decoded prefix of the output grows by two pixels.
proof fn lemma_nv12_pair(
    w: int,
    h: int,
    data: Seq<u8>,
    rgba: bool,
    row: int,
    col: int,
    oi: int,
    before: Seq<u8>,
    after: Seq<u8>,
    p0: (u8, u8, u8),
    p1: (u8, u8, u8),
)
    requires
        0 <= row < h,
        0 <= col,
        col + 2 <= w,
        col % 2 == 0,
        oi == (row * w + col) * pixel_size(rgba),
        oi + 2 * pixel_size(rgba) <= after.len(),
        after.len() == before.len(),
        w * h + (row / 2) * w + col + 1 < data.len(),
        forall|k: int|
            0 <= k < oi ==> #[trigger] before[k] == nv12_out_byte(w, h, data, rgba, k),
        forall|k: int|
            0 <= k < before.len() && !(oi <= k < oi + 2 * pixel_size(rgba)) ==> #[trigger] after[k]
                == before[k],
        p0.0 == bt601_red(data[row * w + col] as int, data[w * h + (row / 2) * w + col] as int, data[w * h + (row / 2) * w + col + 1] as int),
        p0.1 == bt601_green(data[row * w + col] as int, data[w * h + (row / 2) * w + col] as int, data[w * h + (row / 2) * w + col + 1] as int),
        p0.2 == bt601_blue(data[row * w + col] as int, data[w * h + (row / 2) * w + col] as int, data[w * h + (row / 2) * w + col + 1] as int),
        p1.0 == bt601_red(data[row * w + col + 1] as int, data[w * h + (row / 2) * w + col] as int, data[w * h + (row / 2) * w + col + 1] as int),
        p1.1 == bt601_green(data[row * w + col + 1] as int, data[w * h + (row / 2) * w + col] as int, data[w * h + (row / 2) * w + col + 1] as int),
        p1.2 == bt601_blue(data[row * w + col + 1] as int, data[w * h + (row / 2) * w + col] as int, data[w * h + (row / 2) * w + col + 1] as int),
        after[oi] == p0.0,
        after[oi + 1] == p0.1,
        after[oi + 2] == p0.2,
        rgba ==> after[oi + 3] == 255u8,
        after[oi + pixel_size(rgba)] == p1.0,
        after[oi + pixel_size(rgba) + 1] == p1.1,
        after[oi + pixel_size(rgba) + 2] == p1.2,
        rgba ==> after[oi + pixel_size(rgba) + 3] == 255u8,
    ensures
        forall|k: int|
            0 <= k < oi + 2 * pixel_size(rgba) ==> #[trigger] after[k] == nv12_out_byte(
                w,
                h,
                data,
                rgba,
                k,
            ),
{
    let px = pixel_size(rgba);
    assert forall|k: int| 0 <= k < oi + 2 * px implies #[trigger] after[k] == nv12_out_byte(
        w,
        h,
        data,
        rgba,
        k,
    ) by {
        if k >= oi {
            let off: int = if k >= oi + px { 1 } else { 0 };
            let c = k - oi - off * px;
            assert(k == (row * w + (col + off)) * px + c) by (nonlinear_arith)
                requires
                    oi == (row * w + col) * px,
                    c == k - oi - off * px,
            ;
            lemma_nv12_byte(w, h, data, rgba, row, col + off, c);
            assert((col + off) / 2 * 2 == col);
        }
    }
}

/// Decode the pixels of one NV12 row, two at a time, appending them to the
/// already decoded prefix of `out`.
#[verifier::rlimit(30)]
fn nv12_row(
    width: usize,
    height: usize,
    data: &[u8],
    out: &mut [u8],
    rgba: bool,
    row: usize,
    ybase: usize,
    uvbase: usize,
)
    requires
        width % 2 == 0,
        row < height,
        ybase == row * width,
        ybase + width <= width * height,
        uvbase == width * height + (row / 2) * width,
        uvbase + width <= data.len(),
        (ybase + width) * pixel_size(rgba) <= old(out).len(),
        forall|k: int|
            0 <= k < ybase * pixel_size(rgba) ==> #[trigger] old(out)@[k] == nv12_out_byte(
                width as int,
                height as int,
                data@,
                rgba,
                k,
            ),
    ensures
        final(out).len() == old(out).len(),
        forall|k: int|
            0 <= k < (ybase + width) * pixel_size(rgba) ==> #[trigger] final(out)@[k]
                == nv12_out_byte(width as int, height as int, data@, rgba, k),
{
    let ghost w = width as int;
    let ghost h = height as int;
    let px: usize = if rgba { 4 } else { 3 };
    let mut col: usize = 0;
    let mut oi: usize = ybase * px;
    let ghost len = out.len();
    while col < width
        invariant
            out.len() == len,
            w == width,
            h == height,
            width % 2 == 0,
            px == pixel_size(rgba),
            row < height,
            ybase == row * w,
            ybase + w <= w * h,
            (ybase + w) * px <= out.len(),
            uvbase == w * h + (row / 2) * w,
            uvbase + w <= data.len(),
            col <= width,
            col % 2 == 0,
            oi == (ybase + col) * px,
            forall|k: int|
                0 <= k < oi ==> #[trigger] out@[k] == nv12_out_byte(w, h, data@, rgba, k),
        decreases width - col,
    {
        let cb = data[uvbase + col];
        let cr = data[uvbase + col + 1];
        let y0 = data[ybase + col];
        let y1 = data[ybase + col + 1];
        let p0 = yuv_to_rgb_pixel(y0, cb, cr);
        let p1 = yuv_to_rgb_pixel(y1, cb, cr);
        proof {
            assert((ybase + col + 2) * px <= (ybase + w) * px) by (nonlinear_arith)
                requires
                    col + 2 <= w,
                    px >= 0,
            ;
            assert((ybase + col + 2) * px == oi + 2 * px) by (nonlinear_arith)
                requires
                    oi == (ybase + col) * px,
            ;
        }
        let ghost before = out@;
        put_pixel(out, oi, p0, rgba);
        put_pixel(out, oi + px, p1, rgba);
        proof {
            lemma_nv12_pair(w, h, data@, rgba, row as int, col as int, oi as int, before, out@, p0, p1);
        }
        col += 2;
        oi += 2 * px;
    }
}

/// The UV row of image row `row` lies inside the UV plane.
proof fn lemma_uv_row_fits(row: int, w: int, h: int)
    requires
        0 <= row < h,
        h % 2 == 0,
        w >= 0,
        w % 2 == 0,
    ensures
        (row / 2) * w + w <= w * h / 2,
{
    assert(row / 2 + 1 <= h / 2);
    assert((row / 2 + 1) * w <= (h / 2) * w) by (nonlinear_arith)
        requires
            row / 2 + 1 <= h / 2,
            w >= 0,
    ;
    assert((row / 2 + 1) * w == (row / 2) * w + w) by (nonlinear_arith);
    assert((h / 2) * w == w * h / 2) by (nonlinear_arith)
        requires
            h % 2 == 0,
    ;
}

/// Scalar NV12 → RGB/RGBA. `width` and `height` must be even, `data` must hold
/// the `width * height` Y plane followed by the `width * height / 2` UV plane,
/// and `out` must hold `width * height` pixels of 3 (RGB) or 4 (RGBA) bytes.
pub fn nv12_to_rgb_scalar(width: usize, height: usize, data: &[u8], out: &mut [u8], rgba: bool)
    requires
        width % 2 == 0,
        height % 2 == 0,
        data.len() == width * height * 3 / 2,
        old(out).len() == width * height * pixel_size(rgba),
    ensures
        final(out)@ == nv12_decoded(width as int, height as int, data@, rgba),
{
    let ghost w = width as int;
    let ghost h = height as int;
    let ghost px = pixel_size(rgba);
    let y_size = width * height;
    proof {
        assert(w * h * 3 / 2 == w * h + w * h / 2) by (nonlinear_arith)
            requires
                w % 2 == 0,
                w >= 0,
                h >= 0,
        ;
    }
    let mut row: usize = 0;
    let mut ybase: usize = 0;
    let mut uvbase: usize = y_size;
    while row < height
        invariant
            w == width,
            h == height,
            width % 2 == 0,
            height % 2 == 0,
            px == pixel_size(rgba),
            y_size == w * h,
            data.len() == w * h + w * h / 2,
            out.len() == w * h * px,
            row <= height,
            ybase == row * w,
            uvbase == w * h + (row / 2) * w,
            forall|k: int|
                0 <= k < ybase * px ==> #[trigger] out@[k] == nv12_out_byte(w, h, data@, rgba, k),
        decreases height - row,
    {
        proof {
            assert(ybase + w <= w * h && (ybase + w) * px <= w * h * px) by (nonlinear_arith)
                requires
                    ybase == row * w,
                    row < h,
                    w >= 0,
                    px >= 0,
            ;
            lemma_uv_row_fits(row as int, w, h);
        }
        nv12_row(width, height, data, out, rgba, row, ybase, uvbase);
        proof {
            assert((row as int + 1) * w == ybase + w) by (nonlinear_arith)
                requires
                    ybase == row * w,
            ;
            assert((row as int + 1) / 2 == row / 2 + row % 2);
            assert((row / 2 + 1) * w == (row / 2) * w + w) by (nonlinear_arith);
        }
        if row % 2 == 1 {
            uvbase += width;
        }
        ybase += width;
        row += 1;
    }
    proof {
        assert(ybase == w * h) by (nonlinear_arith)
            requires
                ybase == row * w,
                row == h,
        ;
    }
    assert(out@ =~= nv12_decoded(w, h, data@, rgba));
}

/// NV12 → RGB/RGBA. `width` and `height` must be even, `data.len()` must be
/// `width * height * 3 / 2` and `out.len()` must be `width * height * pxsize`,
/// where `pxsize` is 3 (RGB) or 4 (RGBA).
pub fn nv12_to_rgb_simd(width: usize, height: usize, data: &[u8], out: &mut [u8], rgba: bool)
    requires
        width % 2 == 0,
        height % 2 == 0,
        data.len() == width * height * 3 / 2,
        old(out).len() == width * height * pixel_size(rgba),
    ensures
        final(out)@ == nv12_decoded(width as int, height as int, data@, rgba),
{
    nv12_to_rgb_scalar(width, height, data, out, rgba)
}


/// Scalar NV12 → RGBA8888 (alpha 255); see [`nv12_to_rgb_scalar`].
pub fn nv12_to_rgba_scalar(width: usize, height: usize, data: &[u8], out: &mut [u8])
    requires
        width % 2 == 0,
        height % 2 == 0,
        data.len() == width * height * 3 / 2,
        old(out).len() == width * height * 4,
    ensures
        final(out)@ == nv12_decoded(width as int, height as int, data@, true),
{
    nv12_to_rgb_scalar(width, height, data, out, true)
}

/// NV12 → RGBA8888 (alpha 255); see [`nv12_to_rgb_simd`].
pub fn nv12_to_rgba_simd(width: usize, height: usize, data: &[u8], out: &mut [u8])
    requires
        width % 2 == 0,
        height % 2 == 0,
        data.len() == width * height * 3 / 2,
        old(out).len() == width * height * 4,
    ensures
        final(out)@ == nv12_decoded(width as int, height as int, data@, true),
{
    nv12_to_rgb_simd(width, height, data, out, true)
}


/// Swapping the first and third byte of each 3-byte pixel twice gives the
/// pixels back: BGR → RGB → BGR is the identity.
pub proof fn lemma_bgr_swap_involution(data: Seq<u8>)
    requires
        data.len() % 3 == 0,
    ensures
        bgr_swapped(bgr_swapped(data)) == data,
{
    let once = bgr_swapped(data);
    let twice = bgr_swapped(once);
    assert forall|k: int| 0 <= k < data.len() implies #[trigger] twice[k] == data[k] by {
        let c = k % 3;
        let base = k - c;
        assert(base + 2 < data.len());
        assert((base + 2) % 3 == 2 && (base + 1) % 3 == 1 && base % 3 == 0);
    }
    assert(twice =~= data);
}

/// Every pixel of an RGBA image expanded from 3-byte pixels is opaque.
pub proof fn lemma_expanded_alpha_opaque(data: Seq<u8>, swap: bool, p: int)
    requires
        0 <= p < data.len() / 3,
    ensures
        alpha_expanded(data, swap)[4 * p + 3] == 255u8,
{
    assert((4 * p + 3) % 4 == 3);
}

} // verus!

