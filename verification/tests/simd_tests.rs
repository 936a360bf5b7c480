use nokhwa::decode::yuyv444_to_rgb;
use nokhwa::simd::{
    bgr_to_rgb_scalar, bgr_to_rgb_simd, bgr_to_rgba_scalar, bgr_to_rgba_simd, nv12_to_rgb_scalar,
    nv12_to_rgb_simd, rgb_to_luma_scalar, rgb_to_luma_simd, rgb_to_rgba_scalar, rgb_to_rgba_simd,
    yuyv_extract_luma_scalar, yuyv_extract_luma_simd, yuyv_to_rgb_scalar, yuyv_to_rgb_simd,
    yuyv_to_rgba_scalar, yuyv_to_rgba_simd,
};

#[test]
fn simd_bgr_to_rgb_roundtrip() {
    let bgr = vec![10u8, 20, 30, 40, 50, 60, 70, 80, 90];
    let mut rgb = vec![0u8; 9];
    bgr_to_rgb_simd(&bgr, &mut rgb);
    assert_eq!(rgb, vec![30, 20, 10, 60, 50, 40, 90, 80, 70]);

    let mut recovered = vec![0u8; 9];
    bgr_to_rgb_simd(&rgb, &mut recovered);
    assert_eq!(recovered, bgr);
}

#[test]
fn simd_bgr_to_rgb_large_buffer() {
    let pixel_count = 100;
    let bgr: Vec<u8> = (0..pixel_count * 3).map(|i| (i % 256) as u8).collect();
    let mut rgb = vec![0u8; bgr.len()];
    bgr_to_rgb_simd(&bgr, &mut rgb);

    for i in 0..pixel_count {
        let si = i * 3;
        assert_eq!(rgb[si], bgr[si + 2], "R mismatch at pixel {i}");
        assert_eq!(rgb[si + 1], bgr[si + 1], "G mismatch at pixel {i}");
        assert_eq!(rgb[si + 2], bgr[si], "B mismatch at pixel {i}");
    }
}

#[test]
fn simd_bgr_to_rgb_non_aligned_exercises_tail() {
    let pixel_count = 103;
    let bgr: Vec<u8> = (0..pixel_count * 3).map(|i| (i % 256) as u8).collect();
    let mut rgb = vec![0u8; bgr.len()];
    bgr_to_rgb_simd(&bgr, &mut rgb);

    for i in 0..pixel_count {
        let si = i * 3;
        assert_eq!(rgb[si], bgr[si + 2], "R mismatch at pixel {i}");
        assert_eq!(rgb[si + 1], bgr[si + 1], "G mismatch at pixel {i}");
        assert_eq!(rgb[si + 2], bgr[si], "B mismatch at pixel {i}");
    }
}

#[test]
fn simd_yuyv_to_rgb_matches_scalar() {
    let yuyv: Vec<u8> = vec![
        128, 128, 128, 128, // neutral gray
        16, 128, 16, 128, // near black
        235, 128, 235, 128, // near white
        180, 50, 100, 200, // mixed values
    ];

    let mut simd_out = vec![0u8; 24];
    let mut scalar_out = vec![0u8; 24];

    yuyv_to_rgb_simd(&yuyv, &mut simd_out);
    yuyv_to_rgb_scalar(&yuyv, &mut scalar_out);

    assert_eq!(
        simd_out, scalar_out,
        "SIMD and scalar YUYV-to-RGB must match"
    );
}

#[test]
fn simd_yuyv_to_rgb_large_matches_scalar() {
    let pair_count = 64;
    let yuyv: Vec<u8> = (0..pair_count * 4).map(|i| (i * 7 % 256) as u8).collect();
    let mut simd_out = vec![0u8; pair_count * 6];
    let mut scalar_out = vec![0u8; pair_count * 6];

    yuyv_to_rgb_simd(&yuyv, &mut simd_out);
    yuyv_to_rgb_scalar(&yuyv, &mut scalar_out);

    assert_eq!(
        simd_out, scalar_out,
        "SIMD and scalar YUYV-to-RGB must match for large buffer"
    );
}

#[test]
fn simd_yuyv_to_rgba_matches_scalar() {
    let yuyv: Vec<u8> = vec![
        128, 128, 128, 128, 16, 128, 16, 128, 235, 128, 235, 128, 180, 50, 100, 200,
    ];

    let mut simd_out = vec![0u8; 32];
    let mut scalar_out = vec![0u8; 32];

    yuyv_to_rgba_simd(&yuyv, &mut simd_out);
    yuyv_to_rgba_scalar(&yuyv, &mut scalar_out);

    assert_eq!(
        simd_out, scalar_out,
        "SIMD and scalar YUYV-to-RGBA must match"
    );
}

#[test]
fn simd_yuyv_to_rgba_large_matches_scalar() {
    let pair_count = 64;
    let yuyv: Vec<u8> = (0..pair_count * 4).map(|i| (i * 7 % 256) as u8).collect();
    let mut simd_out = vec![0u8; pair_count * 8];
    let mut scalar_out = vec![0u8; pair_count * 8];

    yuyv_to_rgba_simd(&yuyv, &mut simd_out);
    yuyv_to_rgba_scalar(&yuyv, &mut scalar_out);

    assert_eq!(
        simd_out, scalar_out,
        "SIMD and scalar YUYV-to-RGBA must match for large buffer"
    );
}

#[test]
fn simd_yuyv_neutral_gray() {
    let yuyv = vec![128u8, 128, 128, 128];
    let mut rgb = vec![0u8; 6];
    yuyv_to_rgb_simd(&yuyv, &mut rgb);

    let expected = yuyv444_to_rgb(128, 128, 128);
    assert_eq!(rgb[0], expected[0]);
    assert_eq!(rgb[1], expected[1]);
    assert_eq!(rgb[2], expected[2]);
}

#[test]
fn simd_bgr_to_rgb_empty() {
    let bgr: Vec<u8> = vec![];
    let mut rgb: Vec<u8> = vec![];
    bgr_to_rgb_simd(&bgr, &mut rgb);
    assert!(rgb.is_empty());
}

#[test]
fn simd_yuyv_to_rgb_empty() {
    let yuyv: Vec<u8> = vec![];
    let mut rgb: Vec<u8> = vec![];
    yuyv_to_rgb_simd(&yuyv, &mut rgb);
    assert!(rgb.is_empty());
}

#[test]
fn simd_yuyv_to_rgba_empty() {
    let yuyv: Vec<u8> = vec![];
    let mut rgba: Vec<u8> = vec![];
    yuyv_to_rgba_simd(&yuyv, &mut rgba);
    assert!(rgba.is_empty());
}

#[test]
fn simd_yuyv_to_rgb_non_aligned_exercises_tail() {
    let pair_count = 13;
    let yuyv: Vec<u8> = (0..pair_count * 4).map(|i| (i * 11 % 256) as u8).collect();
    let mut simd_out = vec![0u8; pair_count * 6];
    let mut scalar_out = vec![0u8; pair_count * 6];

    yuyv_to_rgb_simd(&yuyv, &mut simd_out);
    yuyv_to_rgb_scalar(&yuyv, &mut scalar_out);

    assert_eq!(
        simd_out, scalar_out,
        "SIMD and scalar must match for non-8-aligned pair count"
    );
}

#[test]
fn simd_yuyv_to_rgba_non_aligned_exercises_tail() {
    let pair_count = 13;
    let yuyv: Vec<u8> = (0..pair_count * 4).map(|i| (i * 11 % 256) as u8).collect();
    let mut simd_out = vec![0u8; pair_count * 8];
    let mut scalar_out = vec![0u8; pair_count * 8];

    yuyv_to_rgba_simd(&yuyv, &mut simd_out);
    yuyv_to_rgba_scalar(&yuyv, &mut scalar_out);

    assert_eq!(
        simd_out, scalar_out,
        "SIMD and scalar RGBA must match for non-8-aligned pair count"
    );
}

#[test]
fn simd_nv12_to_rgb_matches_scalar() {
    let width = 4;
    let height = 2;
    let y_plane: Vec<u8> = vec![128, 64, 200, 16, 235, 100, 50, 180];
    let uv_plane: Vec<u8> = vec![128, 128, 200, 50, 128, 128, 200, 50]; // shared for both rows
    let data: Vec<u8> = [y_plane, uv_plane].concat();

    let mut simd_rgb = vec![0u8; width * height * 3];
    let mut scalar_rgb = vec![0u8; width * height * 3];

    nv12_to_rgb_simd(width, height, &data, &mut simd_rgb, false);
    nv12_to_rgb_scalar(width, height, &data, &mut scalar_rgb, false);

    assert_eq!(simd_rgb, scalar_rgb, "NV12→RGB: SIMD and scalar must match");
}

#[test]
fn simd_nv12_to_rgba_matches_scalar() {
    let width = 4;
    let height = 2;
    let y_plane: Vec<u8> = vec![128, 64, 200, 16, 235, 100, 50, 180];
    let uv_plane: Vec<u8> = vec![128, 128, 200, 50, 128, 128, 200, 50];
    let data: Vec<u8> = [y_plane, uv_plane].concat();

    let mut simd_rgba = vec![0u8; width * height * 4];
    let mut scalar_rgba = vec![0u8; width * height * 4];

    nv12_to_rgb_simd(width, height, &data, &mut simd_rgba, true);
    nv12_to_rgb_scalar(width, height, &data, &mut scalar_rgba, true);

    assert_eq!(
        simd_rgba, scalar_rgba,
        "NV12→RGBA: SIMD and scalar must match"
    );
}

#[test]
fn simd_nv12_to_rgb_large_matches_scalar() {
    let width = 32;
    let height = 4;
    let y_size = width * height;
    let uv_size = width * (height / 2);
    let data: Vec<u8> = (0..y_size + uv_size).map(|i| (i * 7 % 256) as u8).collect();

    let mut simd_rgb = vec![0u8; width * height * 3];
    let mut scalar_rgb = vec![0u8; width * height * 3];

    nv12_to_rgb_simd(width, height, &data, &mut simd_rgb, false);
    nv12_to_rgb_scalar(width, height, &data, &mut scalar_rgb, false);

    assert_eq!(
        simd_rgb, scalar_rgb,
        "NV12→RGB large: SIMD and scalar must match"
    );
}

#[test]
fn simd_nv12_to_rgba_large_matches_scalar() {
    let width = 32;
    let height = 4;
    let y_size = width * height;
    let uv_size = width * (height / 2);
    let data: Vec<u8> = (0..y_size + uv_size).map(|i| (i * 7 % 256) as u8).collect();

    let mut simd_rgba = vec![0u8; width * height * 4];
    let mut scalar_rgba = vec![0u8; width * height * 4];

    nv12_to_rgb_simd(width, height, &data, &mut simd_rgba, true);
    nv12_to_rgb_scalar(width, height, &data, &mut scalar_rgba, true);

    assert_eq!(
        simd_rgba, scalar_rgba,
        "NV12→RGBA large: SIMD and scalar must match"
    );
}

#[test]
fn simd_nv12_to_rgb_non_aligned_tail() {
    let width = 18;
    let height = 2;
    let y_size = width * height;
    let uv_size = width * (height / 2);
    let data: Vec<u8> = (0..y_size + uv_size)
        .map(|i| (i * 13 % 256) as u8)
        .collect();

    let mut simd_rgb = vec![0u8; width * height * 3];
    let mut scalar_rgb = vec![0u8; width * height * 3];

    nv12_to_rgb_simd(width, height, &data, &mut simd_rgb, false);
    nv12_to_rgb_scalar(width, height, &data, &mut scalar_rgb, false);

    assert_eq!(
        simd_rgb, scalar_rgb,
        "NV12→RGB non-aligned: SIMD and scalar must match"
    );
}

#[test]
fn simd_nv12_to_rgba_non_aligned_tail() {
    let width = 18;
    let height = 2;
    let y_size = width * height;
    let uv_size = width * (height / 2);
    let data: Vec<u8> = (0..y_size + uv_size)
        .map(|i| (i * 13 % 256) as u8)
        .collect();

    let mut simd_rgba = vec![0u8; width * height * 4];
    let mut scalar_rgba = vec![0u8; width * height * 4];

    nv12_to_rgb_simd(width, height, &data, &mut simd_rgba, true);
    nv12_to_rgb_scalar(width, height, &data, &mut scalar_rgba, true);

    assert_eq!(
        simd_rgba, scalar_rgba,
        "NV12→RGBA non-aligned: SIMD and scalar must match"
    );
}

#[test]
fn yuyv_to_rgb_extreme_values() {
    let yuyv: Vec<u8> = vec![
        0, 0, 0, 255, // Y=0,U=0,Y=0,V=255: deep negative green, strong red
        255, 255, 255, 0, // Y=255,U=255,Y=255,V=0: strong blue, negative red
        0, 0, 0, 0, // Y=0,U=0,Y=0,V=0: all minimum
        255, 255, 255, 255, // Y=255,U=255,Y=255,V=255: all maximum
    ];

    let mut simd_out = vec![0u8; 24];
    let mut scalar_out = vec![0u8; 24];

    yuyv_to_rgb_simd(&yuyv, &mut simd_out);
    yuyv_to_rgb_scalar(&yuyv, &mut scalar_out);

    assert_eq!(
        simd_out, scalar_out,
        "SIMD and scalar must match for extreme YUV values"
    );
}

#[test]
fn simd_rgb_to_rgba_matches_scalar() {
    let rgb: Vec<u8> = (0..300).map(|i| (i % 256) as u8).collect(); // 100 pixels
    let mut simd_out = vec![0u8; (rgb.len() / 3) * 4];
    let mut scalar_out = vec![0u8; (rgb.len() / 3) * 4];

    rgb_to_rgba_simd(&rgb, &mut simd_out);
    rgb_to_rgba_scalar(&rgb, &mut scalar_out);

    assert_eq!(simd_out, scalar_out, "RGB→RGBA: SIMD and scalar must match");
}

#[test]
fn simd_bgr_to_rgba_matches_scalar() {
    let bgr: Vec<u8> = (0..300).map(|i| (i % 256) as u8).collect();
    let mut simd_out = vec![0u8; (bgr.len() / 3) * 4];
    let mut scalar_out = vec![0u8; (bgr.len() / 3) * 4];

    bgr_to_rgba_simd(&bgr, &mut simd_out);
    bgr_to_rgba_scalar(&bgr, &mut scalar_out);

    assert_eq!(simd_out, scalar_out, "BGR→RGBA: SIMD and scalar must match");
}

#[test]
fn simd_rgb_to_rgba_non_aligned_tail() {
    let rgb: Vec<u8> = (0..21).map(|i| (i * 11 % 256) as u8).collect();
    let mut simd_out = vec![0u8; 28];
    let mut scalar_out = vec![0u8; 28];

    rgb_to_rgba_simd(&rgb, &mut simd_out);
    rgb_to_rgba_scalar(&rgb, &mut scalar_out);

    assert_eq!(
        simd_out, scalar_out,
        "RGB→RGBA non-aligned: SIMD and scalar must match"
    );
}

#[test]
fn simd_bgr_to_rgba_non_aligned_tail() {
    let bgr: Vec<u8> = (0..21).map(|i| (i * 11 % 256) as u8).collect();
    let mut simd_out = vec![0u8; 28];
    let mut scalar_out = vec![0u8; 28];

    bgr_to_rgba_simd(&bgr, &mut simd_out);
    bgr_to_rgba_scalar(&bgr, &mut scalar_out);

    assert_eq!(
        simd_out, scalar_out,
        "BGR→RGBA non-aligned: SIMD and scalar must match"
    );
}

#[test]
fn simd_rgb_to_rgba_alpha_is_255() {
    let rgb = vec![10u8, 20, 30, 40, 50, 60];
    let mut rgba = vec![0u8; 8];
    rgb_to_rgba_simd(&rgb, &mut rgba);
    assert_eq!(rgba[3], 255, "Alpha must be 255");
    assert_eq!(rgba[7], 255, "Alpha must be 255");
}

#[test]
fn simd_yuyv_extract_luma_matches_scalar() {
    let yuyv: Vec<u8> = (0..64).map(|i| (i * 7 % 256) as u8).collect();
    let mut simd_out = vec![0u8; 32];
    let mut scalar_out = vec![0u8; 32];

    yuyv_extract_luma_simd(&yuyv, &mut simd_out);
    yuyv_extract_luma_scalar(&yuyv, &mut scalar_out);

    assert_eq!(
        simd_out, scalar_out,
        "YUYV luma extraction: SIMD and scalar must match"
    );
}

#[test]
fn simd_yuyv_extract_luma_large() {
    let yuyv: Vec<u8> = (0..400).map(|i| (i * 13 % 256) as u8).collect();
    let mut simd_out = vec![0u8; 200];
    let mut scalar_out = vec![0u8; 200];

    yuyv_extract_luma_simd(&yuyv, &mut simd_out);
    yuyv_extract_luma_scalar(&yuyv, &mut scalar_out);

    assert_eq!(
        simd_out, scalar_out,
        "YUYV luma extraction large: SIMD and scalar must match"
    );
}

#[test]
fn simd_yuyv_extract_luma_non_aligned() {
    let yuyv: Vec<u8> = (0..20).map(|i| (i * 11 % 256) as u8).collect();
    let mut simd_out = vec![0u8; 10];
    let mut scalar_out = vec![0u8; 10];

    yuyv_extract_luma_simd(&yuyv, &mut simd_out);
    yuyv_extract_luma_scalar(&yuyv, &mut scalar_out);

    assert_eq!(
        simd_out, scalar_out,
        "YUYV luma extraction non-aligned: SIMD and scalar must match"
    );
}

#[test]
fn simd_yuyv_extract_luma_known_values() {
    let yuyv = vec![10u8, 20, 30, 40, 50, 60, 70, 80];
    let mut out = vec![0u8; 4];
    yuyv_extract_luma_simd(&yuyv, &mut out);
    assert_eq!(
        out,
        vec![10, 30, 50, 70],
        "Should extract Y0,Y1 from each pair"
    );
}

#[test]
fn simd_rgb_to_luma_matches_scalar() {
    let rgb: Vec<u8> = (0..300).map(|i| (i % 256) as u8).collect(); // 100 pixels
    let mut simd_out = vec![0u8; 100];
    let mut scalar_out = vec![0u8; 100];

    rgb_to_luma_simd(&rgb, &mut simd_out);
    rgb_to_luma_scalar(&rgb, &mut scalar_out);

    assert_eq!(simd_out, scalar_out, "RGB→Luma: SIMD and scalar must match");
}

#[test]
fn simd_rgb_to_luma_large() {
    let rgb: Vec<u8> = (0..600).map(|i| (i * 7 % 256) as u8).collect();
    let mut simd_out = vec![0u8; 200];
    let mut scalar_out = vec![0u8; 200];

    rgb_to_luma_simd(&rgb, &mut simd_out);
    rgb_to_luma_scalar(&rgb, &mut scalar_out);

    assert_eq!(
        simd_out, scalar_out,
        "RGB→Luma large: SIMD and scalar must match"
    );
}

#[test]
fn simd_rgb_to_luma_non_aligned() {
    let rgb: Vec<u8> = (0..15).map(|i| (i * 13 % 256) as u8).collect();
    let mut simd_out = vec![0u8; 5];
    let mut scalar_out = vec![0u8; 5];

    rgb_to_luma_simd(&rgb, &mut simd_out);
    rgb_to_luma_scalar(&rgb, &mut scalar_out);

    assert_eq!(
        simd_out, scalar_out,
        "RGB→Luma non-aligned: SIMD and scalar must match"
    );
}

#[test]
fn simd_rgb_to_luma_known_values() {
    let rgb = vec![255u8, 0, 0, 0, 255, 0, 0, 0, 255, 255, 255, 255];
    let mut out = vec![0u8; 4];
    rgb_to_luma_simd(&rgb, &mut out);
    assert_eq!(out, vec![85, 85, 85, 255]);
}
