//! What the BT.601 decoders do with each input byte: which chroma byte
//! drives which colour, in which direction each input moves each colour, and
//! the reference colours (grey, black, white, pure red and pure blue).

use crate::simd::{
    bt601_blue, bt601_channel, bt601_green, bt601_red, channel_of, clamp_byte, nv12_decoded,
    pixel_of, pixel_size, yuyv_decoded,
};
use vstd::prelude::*;

verus! {

// ──────────────────────────────────────────────
// What the YUV decoders do with each input byte
// ──────────────────────────────────────────────

/// Channel `c` (0 red, 1 green, 2 blue) of pixel `p` of the image decoded from YUYV `src`.
pub open spec fn yuyv_pixel_channel(src: Seq<u8>, alpha: bool, p: int, c: int) -> u8 {
    yuyv_decoded(src, alpha)[p * pixel_size(alpha) + c]
}

/// Where the shared `U` byte of pixel (`row`, `col`) sits in an NV12 frame; `V` follows it.
pub open spec fn nv12_uv_index(width: int, height: int, row: int, col: int) -> int {
    width * height + (row / 2) * width + (col / 2) * 2
}

/// Channel `c` of the pixel at (`row`, `col`) of the image decoded from NV12 `data`.
pub open spec fn nv12_pixel_channel(
    width: int,
    height: int,
    data: Seq<u8>,
    alpha: bool,
    row: int,
    col: int,
    c: int,
) -> u8 {
    nv12_decoded(width, height, data, alpha)[(row * width + col) * pixel_size(alpha) + c]
}

proof fn lemma_pixel_byte(alpha: bool, p: int, c: int)
    requires
        0 <= p,
        0 <= c < 3,
    ensures
        pixel_of(alpha, p * pixel_size(alpha) + c) == p,
        channel_of(alpha, p * pixel_size(alpha) + c) == c,
{
    if alpha {
        vstd::arithmetic::div_mod::lemma_fundamental_div_mod_converse(p * 4 + c, 4, p, c);
    } else {
        vstd::arithmetic::div_mod::lemma_fundamental_div_mod_converse(p * 3 + c, 3, p, c);
    }
}

proof fn lemma_yuyv_pixel(src: Seq<u8>, alpha: bool, i: int, o: int, c: int)
    requires
        0 <= i < src.len() / 4,
        0 <= o < 2,
        0 <= c < 3,
    ensures
        yuyv_pixel_channel(src, alpha, 2 * i + o, c) == bt601_channel(
            src[4 * i + 2 * o] as int,
            src[4 * i + 1] as int,
            src[4 * i + 3] as int,
            c,
        ),
{
    let p = 2 * i + o;
    let ps = pixel_size(alpha);
    lemma_pixel_byte(alpha, p, c);
    assert(p * ps + c < (src.len() / 4) * 2 * ps) by (nonlinear_arith)
        requires
            0 <= p < (src.len() / 4) * 2,
            0 <= c < 3,
            ps == 3 || ps == 4,
    ;
    assert(p / 2 == i && p % 2 == o);
}

proof fn lemma_nv12_pixel(
    width: int,
    height: int,
    data: Seq<u8>,
    alpha: bool,
    row: int,
    col: int,
    c: int,
)
    requires
        0 <= row < height,
        0 <= col < width,
        0 <= c < 3,
    ensures
        row * width + col < width * height,
        nv12_pixel_channel(width, height, data, alpha, row, col, c) == bt601_channel(
            data[row * width + col] as int,
            data[nv12_uv_index(width, height, row, col)] as int,
            data[nv12_uv_index(width, height, row, col) + 1] as int,
            c,
        ),
{
    let p = row * width + col;
    let ps = pixel_size(alpha);
    assert(0 <= p < width * height) by (nonlinear_arith)
        requires
            0 <= row < height,
            0 <= col < width,
            p == row * width + col,
    ;
    lemma_pixel_byte(alpha, p, c);
    assert(p * ps + c < width * height * ps) by (nonlinear_arith)
        requires
            0 <= p < width * height,
            0 <= c < 3,
            ps == 3 || ps == 4,
    ;
    vstd::arithmetic::div_mod::lemma_fundamental_div_mod_converse(p, width, row, col);
}

proof fn lemma_scaled_clamp_ordered(a: int, b: int)
    requires
        a <= b,
    ensures
        clamp_byte(a / 256) <= clamp_byte(b / 256),
{
    vstd::arithmetic::div_mod::lemma_div_is_ordered(a, b, 256);
}

/// How each BT.601 channel moves with each input: red does not depend on `u`
/// and rises with `v`; blue does not depend on `v` and rises with `u`; green
/// falls as either chroma input rises; every channel rises with `y`.
proof fn lemma_bt601_directions(y: int, u: int, v: int, y2: int, u2: int, v2: int)
    ensures
        bt601_red(y, u, v) == bt601_red(y, u2, v),
        bt601_blue(y, u, v) == bt601_blue(y, u, v2),
        v <= v2 ==> bt601_red(y, u, v) <= bt601_red(y, u, v2) && bt601_green(y, u, v2)
            <= bt601_green(y, u, v),
        u <= u2 ==> bt601_blue(y, u, v) <= bt601_blue(y, u2, v) && bt601_green(y, u2, v)
            <= bt601_green(y, u, v),
        y <= y2 ==> bt601_red(y, u, v) <= bt601_red(y2, u, v) && bt601_green(y, u, v)
            <= bt601_green(y2, u, v) && bt601_blue(y, u, v) <= bt601_blue(y2, u, v),
{
    if v <= v2 {
        lemma_scaled_clamp_ordered(
            (y - 16) * 298 + 409 * (v - 128) + 128,
            (y - 16) * 298 + 409 * (v2 - 128) + 128,
        );
        lemma_scaled_clamp_ordered(
            (y - 16) * 298 - 100 * (u - 128) - 208 * (v2 - 128) + 128,
            (y - 16) * 298 - 100 * (u - 128) - 208 * (v - 128) + 128,
        );
    }
    if u <= u2 {
        lemma_scaled_clamp_ordered(
            (y - 16) * 298 + 516 * (u - 128) + 128,
            (y - 16) * 298 + 516 * (u2 - 128) + 128,
        );
        lemma_scaled_clamp_ordered(
            (y - 16) * 298 - 100 * (u2 - 128) - 208 * (v - 128) + 128,
            (y - 16) * 298 - 100 * (u - 128) - 208 * (v - 128) + 128,
        );
    }
    if y <= y2 {
        lemma_scaled_clamp_ordered(
            (y - 16) * 298 + 409 * (v - 128) + 128,
            (y2 - 16) * 298 + 409 * (v - 128) + 128,
        );
        lemma_scaled_clamp_ordered(
            (y - 16) * 298 - 100 * (u - 128) - 208 * (v - 128) + 128,
            (y2 - 16) * 298 - 100 * (u - 128) - 208 * (v - 128) + 128,
        );
        lemma_scaled_clamp_ordered(
            (y - 16) * 298 + 516 * (u - 128) + 128,
            (y2 - 16) * 298 + 516 * (u - 128) + 128,
        );
    }
}

/// Neutral chroma (`u == v == 128`) gives grey, black at or below the video
/// black level 16 and white at or above the video white level 235; the
/// BT.601 encodings of pure red (81, 90, 240) and pure blue (41, 240, 110)
/// decode to pure red and pure blue.
proof fn lemma_bt601_reference_points(y: int)
    ensures
        bt601_red(y, 128, 128) == bt601_green(y, 128, 128),
        bt601_green(y, 128, 128) == bt601_blue(y, 128, 128),
        y <= 16 ==> bt601_red(y, 128, 128) == 0,
        y >= 235 ==> bt601_red(y, 128, 128) == 255,
        bt601_red(81, 90, 240) == 255 && bt601_green(81, 90, 240) == 0 && bt601_blue(81, 90, 240)
            == 0,
        bt601_red(41, 240, 110) == 0 && bt601_green(41, 240, 110) == 0 && bt601_blue(41, 240, 110)
            == 255,
{
    if y <= 16 {
        lemma_scaled_clamp_ordered((y - 16) * 298 + 128, 128);
    }
    if y >= 235 {
        lemma_scaled_clamp_ordered(219int * 298 + 128, (y - 16) * 298 + 128);
    }
}

/// YUYV: in each 4-byte group `[Y0, U, Y1, V]`, a pixel's red is untouched by
/// `U` and its blue by `V`; red rises with `V`, blue with `U`, green falls as
/// either rises; every channel rises with the pixel's own `Y`.
pub proof fn lemma_yuyv_chroma_and_luma_roles(src: Seq<u8>, alpha: bool, i: int, o: int, x: u8)
    requires
        0 <= i < src.len() / 4,
        0 <= o < 2,
    ensures
        yuyv_pixel_channel(src.update(4 * i + 1, x), alpha, 2 * i + o, 0) == yuyv_pixel_channel(
            src,
            alpha,
            2 * i + o,
            0,
        ),
        yuyv_pixel_channel(src.update(4 * i + 3, x), alpha, 2 * i + o, 2) == yuyv_pixel_channel(
            src,
            alpha,
            2 * i + o,
            2,
        ),
        src[4 * i + 3] <= x ==> yuyv_pixel_channel(src, alpha, 2 * i + o, 0) <= yuyv_pixel_channel(
            src.update(4 * i + 3, x),
            alpha,
            2 * i + o,
            0,
        ) && yuyv_pixel_channel(src.update(4 * i + 3, x), alpha, 2 * i + o, 1)
            <= yuyv_pixel_channel(src, alpha, 2 * i + o, 1),
        src[4 * i + 1] <= x ==> yuyv_pixel_channel(src, alpha, 2 * i + o, 2) <= yuyv_pixel_channel(
            src.update(4 * i + 1, x),
            alpha,
            2 * i + o,
            2,
        ) && yuyv_pixel_channel(src.update(4 * i + 1, x), alpha, 2 * i + o, 1)
            <= yuyv_pixel_channel(src, alpha, 2 * i + o, 1),
        forall|c: int|
            0 <= c < 3 && src[4 * i + 2 * o] <= x ==> #[trigger] yuyv_pixel_channel(
                src,
                alpha,
                2 * i + o,
                c,
            ) <= yuyv_pixel_channel(src.update(4 * i + 2 * o, x), alpha, 2 * i + o, c),
{
    let su = src.update(4 * i + 1, x);
    let sv = src.update(4 * i + 3, x);
    let sy = src.update(4 * i + 2 * o, x);
    let y = src[4 * i + 2 * o] as int;
    let u = src[4 * i + 1] as int;
    let v = src[4 * i + 3] as int;
    assert(su[4 * i + 2 * o] == y && su[4 * i + 3] == v && su[4 * i + 1] == x);
    assert(sv[4 * i + 2 * o] == y && sv[4 * i + 1] == u && sv[4 * i + 3] == x);
    assert(sy[4 * i + 1] == u && sy[4 * i + 3] == v && sy[4 * i + 2 * o] == x);
    lemma_bt601_directions(y, u, v, y, x as int, x as int);
    lemma_bt601_directions(y, u, v, x as int, u, v);
    lemma_yuyv_pixel(src, alpha, i, o, 0);
    lemma_yuyv_pixel(src, alpha, i, o, 1);
    lemma_yuyv_pixel(src, alpha, i, o, 2);
    lemma_yuyv_pixel(su, alpha, i, o, 0);
    lemma_yuyv_pixel(su, alpha, i, o, 1);
    lemma_yuyv_pixel(su, alpha, i, o, 2);
    lemma_yuyv_pixel(sv, alpha, i, o, 0);
    lemma_yuyv_pixel(sv, alpha, i, o, 1);
    lemma_yuyv_pixel(sv, alpha, i, o, 2);
    lemma_yuyv_pixel(sy, alpha, i, o, 0);
    lemma_yuyv_pixel(sy, alpha, i, o, 1);
    lemma_yuyv_pixel(sy, alpha, i, o, 2);
    assert forall|c: int|
        0 <= c < 3 && src[4 * i + 2 * o] <= x implies #[trigger] yuyv_pixel_channel(
        src,
        alpha,
        2 * i + o,
        c,
    ) <= yuyv_pixel_channel(sy, alpha, 2 * i + o, c) by {
        if c == 0 {
        } else if c == 1 {
        } else {
        }
    }
}

/// YUYV: a pixel whose group has neutral chroma (`U == V == 128`) is grey,
/// black when its `Y` is at or below 16, white when at or above 235; the
/// groups (81, 90, 81, 240) and (41, 240, 41, 110) decode to pure red and pure
/// blue.
pub proof fn lemma_yuyv_reference_colours(src: Seq<u8>, alpha: bool, i: int, o: int)
    requires
        0 <= i < src.len() / 4,
        0 <= o < 2,
    ensures
        src[4 * i + 1] == 128 && src[4 * i + 3] == 128 ==> {
            &&& yuyv_pixel_channel(src, alpha, 2 * i + o, 0) == yuyv_pixel_channel(
                src,
                alpha,
                2 * i + o,
                1,
            )
            &&& yuyv_pixel_channel(src, alpha, 2 * i + o, 1) == yuyv_pixel_channel(
                src,
                alpha,
                2 * i + o,
                2,
            )
            &&& src[4 * i + 2 * o] <= 16 ==> yuyv_pixel_channel(src, alpha, 2 * i + o, 0) == 0
            &&& src[4 * i + 2 * o] >= 235 ==> yuyv_pixel_channel(src, alpha, 2 * i + o, 0) == 255
        },
        src[4 * i + 2 * o] == 81 && src[4 * i + 1] == 90 && src[4 * i + 3] == 240 ==> {
            &&& yuyv_pixel_channel(src, alpha, 2 * i + o, 0) == 255
            &&& yuyv_pixel_channel(src, alpha, 2 * i + o, 1) == 0
            &&& yuyv_pixel_channel(src, alpha, 2 * i + o, 2) == 0
        },
        src[4 * i + 2 * o] == 41 && src[4 * i + 1] == 240 && src[4 * i + 3] == 110 ==> {
            &&& yuyv_pixel_channel(src, alpha, 2 * i + o, 0) == 0
            &&& yuyv_pixel_channel(src, alpha, 2 * i + o, 1) == 0
            &&& yuyv_pixel_channel(src, alpha, 2 * i + o, 2) == 255
        },
{
    lemma_yuyv_pixel(src, alpha, i, o, 0);
    lemma_yuyv_pixel(src, alpha, i, o, 1);
    lemma_yuyv_pixel(src, alpha, i, o, 2);
    lemma_bt601_reference_points(src[4 * i + 2 * o] as int);
}

/// NV12: for the pixel at (`row`, `col`), with its `U` at
/// [`nv12_uv_index`] and its `V` right after, red is untouched by `U` and
/// blue by `V`; red rises with `V`, blue with `U`, green falls as either
/// rises; every channel rises with the pixel's own `Y`.
pub proof fn lemma_nv12_chroma_and_luma_roles(
    width: int,
    height: int,
    data: Seq<u8>,
    alpha: bool,
    row: int,
    col: int,
    x: u8,
)
    requires
        0 <= row < height,
        0 <= col < width,
        nv12_uv_index(width, height, row, col) + 1 < data.len(),
    ensures
        ({
            let ui = nv12_uv_index(width, height, row, col);
            let yi = row * width + col;
            let su = data.update(ui, x);
            let sv = data.update(ui + 1, x);
            let sy = data.update(yi, x);
            &&& nv12_pixel_channel(width, height, su, alpha, row, col, 0) == nv12_pixel_channel(
                width,
                height,
                data,
                alpha,
                row,
                col,
                0,
            )
            &&& nv12_pixel_channel(width, height, sv, alpha, row, col, 2) == nv12_pixel_channel(
                width,
                height,
                data,
                alpha,
                row,
                col,
                2,
            )
            &&& data[ui + 1] <= x ==> nv12_pixel_channel(width, height, data, alpha, row, col, 0)
                <= nv12_pixel_channel(width, height, sv, alpha, row, col, 0) && nv12_pixel_channel(
                width,
                height,
                sv,
                alpha,
                row,
                col,
                1,
            ) <= nv12_pixel_channel(width, height, data, alpha, row, col, 1)
            &&& data[ui] <= x ==> nv12_pixel_channel(width, height, data, alpha, row, col, 2)
                <= nv12_pixel_channel(width, height, su, alpha, row, col, 2) && nv12_pixel_channel(
                width,
                height,
                su,
                alpha,
                row,
                col,
                1,
            ) <= nv12_pixel_channel(width, height, data, alpha, row, col, 1)
            &&& data[yi] <= x ==> nv12_pixel_channel(width, height, data, alpha, row, col, 0)
                <= nv12_pixel_channel(width, height, sy, alpha, row, col, 0) && nv12_pixel_channel(
                width,
                height,
                data,
                alpha,
                row,
                col,
                1,
            ) <= nv12_pixel_channel(width, height, sy, alpha, row, col, 1) && nv12_pixel_channel(
                width,
                height,
                data,
                alpha,
                row,
                col,
                2,
            ) <= nv12_pixel_channel(width, height, sy, alpha, row, col, 2)
        }),
{
    let ui = nv12_uv_index(width, height, row, col);
    let yi = row * width + col;
    let su = data.update(ui, x);
    let sv = data.update(ui + 1, x);
    let sy = data.update(yi, x);
    lemma_nv12_pixel(width, height, data, alpha, row, col, 0);
    assert(yi < width * height);
    assert(0 <= (row / 2) * width + (col / 2) * 2) by (nonlinear_arith)
        requires
            0 <= row,
            0 <= col,
            0 < width,
    ;
    let y = data[yi] as int;
    let u = data[ui] as int;
    let v = data[ui + 1] as int;
    assert(su[yi] == y && su[ui + 1] == v && su[ui] == x);
    assert(sv[yi] == y && sv[ui] == u && sv[ui + 1] == x);
    assert(sy[ui] == u && sy[ui + 1] == v && sy[yi] == x);
    lemma_nv12_pixel(width, height, data, alpha, row, col, 1);
    lemma_nv12_pixel(width, height, data, alpha, row, col, 2);
    lemma_nv12_pixel(width, height, su, alpha, row, col, 0);
    lemma_nv12_pixel(width, height, su, alpha, row, col, 1);
    lemma_nv12_pixel(width, height, su, alpha, row, col, 2);
    lemma_nv12_pixel(width, height, sv, alpha, row, col, 0);
    lemma_nv12_pixel(width, height, sv, alpha, row, col, 1);
    lemma_nv12_pixel(width, height, sv, alpha, row, col, 2);
    lemma_nv12_pixel(width, height, sy, alpha, row, col, 0);
    lemma_nv12_pixel(width, height, sy, alpha, row, col, 1);
    lemma_nv12_pixel(width, height, sy, alpha, row, col, 2);
    lemma_bt601_directions(y, u, v, y, x as int, x as int);
    lemma_bt601_directions(y, u, v, x as int, u, v);
}

/// NV12: a pixel whose `U`/`V` pair is neutral (128, 128) is grey, black when
/// its `Y` is at or below 16, white when at or above 235; `Y = 81` with the
/// pair (90, 240) decodes to pure red and `Y = 41` with (240, 110) to pure blue.
pub proof fn lemma_nv12_reference_colours(
    width: int,
    height: int,
    data: Seq<u8>,
    alpha: bool,
    row: int,
    col: int,
)
    requires
        0 <= row < height,
        0 <= col < width,
    ensures
        ({
            let ui = nv12_uv_index(width, height, row, col);
            let y = data[row * width + col];
            let r = nv12_pixel_channel(width, height, data, alpha, row, col, 0);
            let g = nv12_pixel_channel(width, height, data, alpha, row, col, 1);
            let b = nv12_pixel_channel(width, height, data, alpha, row, col, 2);
            &&& data[ui] == 128 && data[ui + 1] == 128 ==> r == g && g == b && (y <= 16 ==> r == 0)
                && (y >= 235 ==> r == 255)
            &&& y == 81 && data[ui] == 90 && data[ui + 1] == 240 ==> r == 255 && g == 0 && b == 0
            &&& y == 41 && data[ui] == 240 && data[ui + 1] == 110 ==> r == 0 && g == 0 && b == 255
        }),
{
    lemma_nv12_pixel(width, height, data, alpha, row, col, 0);
    lemma_nv12_pixel(width, height, data, alpha, row, col, 1);
    lemma_nv12_pixel(width, height, data, alpha, row, col, 2);
    lemma_bt601_reference_points(data[row * width + col] as int);
}

} // verus!
