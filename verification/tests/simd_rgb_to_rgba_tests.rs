use nokhwa::decode::yuyv444_to_rgb;
use nokhwa::simd::{
    bgr_to_rgb_scalar, bgr_to_rgb_simd, bgr_to_rgba_scalar, bgr_to_rgba_simd, nv12_to_rgb_scalar,
    nv12_to_rgb_simd, rgb_to_luma_scalar, rgb_to_luma_simd, rgb_to_rgba_scalar, rgb_to_rgba_simd,
    yuyv_extract_luma_scalar, yuyv_extract_luma_simd, yuyv_to_rgb_scalar, yuyv_to_rgb_simd,
    yuyv_to_rgba_scalar, yuyv_to_rgba_simd,
};

#[test]
fn rgb_to_rgba_rgb_to_rgba_matches_scalar() {
    let rgb: Vec<u8> = (0..300).map(|i| (i % 256) as u8).collect(); // 100 pixels
    let mut simd_out = vec![0u8; (rgb.len() / 3) * 4];
    let mut scalar_out = vec![0u8; (rgb.len() / 3) * 4];

    rgb_to_rgba_simd(&rgb, &mut simd_out);
    rgb_to_rgba_scalar(&rgb, &mut scalar_out);

    assert_eq!(simd_out, scalar_out, "RGB→RGBA: SIMD and scalar must match");
}

#[test]
fn rgb_to_rgba_bgr_to_rgba_matches_scalar() {
    let bgr: Vec<u8> = (0..300).map(|i| (i % 256) as u8).collect();
    let mut simd_out = vec![0u8; (bgr.len() / 3) * 4];
    let mut scalar_out = vec![0u8; (bgr.len() / 3) * 4];

    bgr_to_rgba_simd(&bgr, &mut simd_out);
    bgr_to_rgba_scalar(&bgr, &mut scalar_out);

    assert_eq!(simd_out, scalar_out, "BGR→RGBA: SIMD and scalar must match");
}

#[test]
fn rgb_to_rgba_rgb_to_rgba_non_aligned_tail() {
    let rgb: Vec<u8> = (0..21).map(|i| (i * 11 % 256) as u8).collect();
    let mut simd_out = vec![0u8; 28];
    let mut scalar_out = vec![0u8; 28];

    rgb_to_rgba_simd(&rgb, &mut simd_out);
    rgb_to_rgba_scalar(&rgb, &mut scalar_out);

    assert_eq!(
        simd_out, scalar_out,
        "RGB→RGBA non-aligned: SIMD and scalar must match"
    );
}

#[test]
fn rgb_to_rgba_bgr_to_rgba_non_aligned_tail() {
    let bgr: Vec<u8> = (0..21).map(|i| (i * 11 % 256) as u8).collect();
    let mut simd_out = vec![0u8; 28];
    let mut scalar_out = vec![0u8; 28];

    bgr_to_rgba_simd(&bgr, &mut simd_out);
    bgr_to_rgba_scalar(&bgr, &mut scalar_out);

    assert_eq!(
        simd_out, scalar_out,
        "BGR→RGBA non-aligned: SIMD and scalar must match"
    );
}

#[test]
fn rgb_to_rgba_rgb_to_rgba_alpha_is_255() {
    let rgb = vec![10u8, 20, 30, 40, 50, 60];
    let mut rgba = vec![0u8; 8];
    rgb_to_rgba_simd(&rgb, &mut rgba);
    assert_eq!(rgba[3], 255, "Alpha must be 255");
    assert_eq!(rgba[7], 255, "Alpha must be 255");
}
