use nokhwa::decode::yuyv444_to_rgb;
use nokhwa::simd::{
    bgr_to_rgb_scalar, bgr_to_rgb_simd, bgr_to_rgba_scalar, bgr_to_rgba_simd, nv12_to_rgb_scalar,
    nv12_to_rgb_simd, rgb_to_luma_scalar, rgb_to_luma_simd, rgb_to_rgba_scalar, rgb_to_rgba_simd,
    yuyv_extract_luma_scalar, yuyv_extract_luma_simd, yuyv_to_rgb_scalar, yuyv_to_rgb_simd,
    yuyv_to_rgba_scalar, yuyv_to_rgba_simd,
};

#[test]
fn yuyv_to_rgb_yuyv_to_rgb_matches_scalar() {
    let yuyv: Vec<u8> = vec![
        128, 128, 128, 128, // neutral gray
        16, 128, 16, 128, // near black
        235, 128, 235, 128, // near white
        180, 50, 100, 200, // mixed values
    ];

    let mut simd_out = vec![0u8; 24];
    let mut scalar_out = vec![0u8; 24];

    yuyv_to_rgb_simd(&yuyv, &mut simd_out);
    yuyv_to_rgb_scalar(&yuyv, &mut scalar_out);

    assert_eq!(
        simd_out, scalar_out,
        "SIMD and scalar YUYV-to-RGB must match"
    );
}

#[test]
fn yuyv_to_rgb_yuyv_to_rgb_large_matches_scalar() {
    let pair_count = 64;
    let yuyv: Vec<u8> = (0..pair_count * 4).map(|i| (i * 7 % 256) as u8).collect();
    let mut simd_out = vec![0u8; pair_count * 6];
    let mut scalar_out = vec![0u8; pair_count * 6];

    yuyv_to_rgb_simd(&yuyv, &mut simd_out);
    yuyv_to_rgb_scalar(&yuyv, &mut scalar_out);

    assert_eq!(
        simd_out, scalar_out,
        "SIMD and scalar YUYV-to-RGB must match for large buffer"
    );
}

#[test]
fn yuyv_to_rgb_yuyv_to_rgba_matches_scalar() {
    let yuyv: Vec<u8> = vec![
        128, 128, 128, 128, 16, 128, 16, 128, 235, 128, 235, 128, 180, 50, 100, 200,
    ];

    let mut simd_out = vec![0u8; 32];
    let mut scalar_out = vec![0u8; 32];

    yuyv_to_rgba_simd(&yuyv, &mut simd_out);
    yuyv_to_rgba_scalar(&yuyv, &mut scalar_out);

    assert_eq!(
        simd_out, scalar_out,
        "SIMD and scalar YUYV-to-RGBA must match"
    );
}

#[test]
fn yuyv_to_rgb_yuyv_to_rgba_large_matches_scalar() {
    let pair_count = 64;
    let yuyv: Vec<u8> = (0..pair_count * 4).map(|i| (i * 7 % 256) as u8).collect();
    let mut simd_out = vec![0u8; pair_count * 8];
    let mut scalar_out = vec![0u8; pair_count * 8];

    yuyv_to_rgba_simd(&yuyv, &mut simd_out);
    yuyv_to_rgba_scalar(&yuyv, &mut scalar_out);

    assert_eq!(
        simd_out, scalar_out,
        "SIMD and scalar YUYV-to-RGBA must match for large buffer"
    );
}

#[test]
fn yuyv_to_rgb_yuyv_neutral_gray() {
    let yuyv = vec![128u8, 128, 128, 128];
    let mut rgb = vec![0u8; 6];
    yuyv_to_rgb_simd(&yuyv, &mut rgb);

    let expected = yuyv444_to_rgb(128, 128, 128);
    assert_eq!(rgb[0], expected[0]);
    assert_eq!(rgb[1], expected[1]);
    assert_eq!(rgb[2], expected[2]);
}

#[test]
fn yuyv_to_rgb_yuyv_to_rgb_empty() {
    let yuyv: Vec<u8> = vec![];
    let mut rgb: Vec<u8> = vec![];
    yuyv_to_rgb_simd(&yuyv, &mut rgb);
    assert!(rgb.is_empty());
}

#[test]
fn yuyv_to_rgb_yuyv_to_rgba_empty() {
    let yuyv: Vec<u8> = vec![];
    let mut rgba: Vec<u8> = vec![];
    yuyv_to_rgba_simd(&yuyv, &mut rgba);
    assert!(rgba.is_empty());
}

#[test]
fn yuyv_to_rgb_yuyv_to_rgb_non_aligned_exercises_tail() {
    let pair_count = 13;
    let yuyv: Vec<u8> = (0..pair_count * 4).map(|i| (i * 11 % 256) as u8).collect();
    let mut simd_out = vec![0u8; pair_count * 6];
    let mut scalar_out = vec![0u8; pair_count * 6];

    yuyv_to_rgb_simd(&yuyv, &mut simd_out);
    yuyv_to_rgb_scalar(&yuyv, &mut scalar_out);

    assert_eq!(
        simd_out, scalar_out,
        "SIMD and scalar must match for non-8-aligned pair count"
    );
}

#[test]
fn yuyv_to_rgb_yuyv_to_rgba_non_aligned_exercises_tail() {
    let pair_count = 13;
    let yuyv: Vec<u8> = (0..pair_count * 4).map(|i| (i * 11 % 256) as u8).collect();
    let mut simd_out = vec![0u8; pair_count * 8];
    let mut scalar_out = vec![0u8; pair_count * 8];

    yuyv_to_rgba_simd(&yuyv, &mut simd_out);
    yuyv_to_rgba_scalar(&yuyv, &mut scalar_out);

    assert_eq!(
        simd_out, scalar_out,
        "SIMD and scalar RGBA must match for non-8-aligned pair count"
    );
}
