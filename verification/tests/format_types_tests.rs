use nokhwa::format_types::{CaptureFormat, Gray, Mjpeg, Nv12, RawBgr, RawRgb, Yuyv};
use nokhwa::types::FrameFormat;
use std::collections::{BTreeSet, HashSet};
use std::mem::size_of;

#[test]
fn yuyv_marker_maps_to_frame_format_yuyv() {
    assert_eq!(Yuyv::FRAME_FORMAT, FrameFormat::YUYV);
}

#[test]
fn nv12_marker_maps_to_frame_format_nv12() {
    assert_eq!(Nv12::FRAME_FORMAT, FrameFormat::NV12);
}

#[test]
fn mjpeg_marker_maps_to_frame_format_mjpeg() {
    assert_eq!(Mjpeg::FRAME_FORMAT, FrameFormat::MJPEG);
}

#[test]
fn gray_marker_maps_to_frame_format_gray() {
    assert_eq!(Gray::FRAME_FORMAT, FrameFormat::GRAY);
}

#[test]
fn raw_rgb_marker_maps_to_frame_format_rawrgb() {
    assert_eq!(RawRgb::FRAME_FORMAT, FrameFormat::RAWRGB);
}

#[test]
fn raw_bgr_marker_maps_to_frame_format_rawbgr() {
    assert_eq!(RawBgr::FRAME_FORMAT, FrameFormat::RAWBGR);
}

#[test]
fn marker_constants_are_pairwise_distinct() {
    let consts = [
        Yuyv::FRAME_FORMAT,
        Nv12::FRAME_FORMAT,
        Mjpeg::FRAME_FORMAT,
        Gray::FRAME_FORMAT,
        RawRgb::FRAME_FORMAT,
        RawBgr::FRAME_FORMAT,
    ];
    let mut sorted = consts.to_vec();
    sorted.sort();
    sorted.dedup();
    assert_eq!(
        sorted.len(),
        consts.len(),
        "two markers map to the same FrameFormat: {consts:?}",
    );
}

#[test]
fn marker_zsts_are_zero_sized() {
    assert_eq!(size_of::<Yuyv>(), 0);
    assert_eq!(size_of::<Nv12>(), 0);
    assert_eq!(size_of::<Mjpeg>(), 0);
    assert_eq!(size_of::<Gray>(), 0);
    assert_eq!(size_of::<RawRgb>(), 0);
    assert_eq!(size_of::<RawBgr>(), 0);
}

fn assert_marker_traits<T>()
where
    T: Copy
        + Clone
        + Default
        + std::fmt::Debug
        + std::hash::Hash
        + Ord
        + PartialOrd
        + Eq
        + PartialEq
        + Send
        + Sync
        + 'static,
{
}

#[test]
fn marker_derives_full_trait_set() {
    assert_marker_traits::<Yuyv>();
    assert_marker_traits::<Nv12>();
    assert_marker_traits::<Mjpeg>();
    assert_marker_traits::<Gray>();
    assert_marker_traits::<RawRgb>();
    assert_marker_traits::<RawBgr>();
}

fn assert_capture_format_super_traits<T: CaptureFormat>() {
    fn require_send_sync_static<U: Send + Sync + 'static>() {}
    require_send_sync_static::<T>();
}

#[test]
fn capture_format_super_traits_are_send_sync_static() {
    assert_capture_format_super_traits::<Yuyv>();
    assert_capture_format_super_traits::<Nv12>();
    assert_capture_format_super_traits::<Mjpeg>();
    assert_capture_format_super_traits::<Gray>();
    assert_capture_format_super_traits::<RawRgb>();
    assert_capture_format_super_traits::<RawBgr>();
}

#[test]
#[allow(clippy::default_constructed_unit_structs)]
fn marker_default_is_hash_and_btree_keyable() {
    let mut hs = HashSet::new();
    hs.insert(Yuyv);
    hs.insert(Yuyv);
    assert_eq!(hs.len(), 1, "Hash should treat ZST default as one value");

    let mut bs = BTreeSet::new();
    bs.insert(Mjpeg);
    bs.insert(Mjpeg::default());
    assert_eq!(bs.len(), 1, "Ord should treat ZST default as one value");
}
