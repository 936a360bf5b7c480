//! Zero-sized markers that pin a frame or camera to one pixel format.

use crate::types::FrameFormat;
use vstd::prelude::*;

verus! {

/// A capture pixel format known at compile time.
pub trait CaptureFormat: Send + Sync + 'static {
    /// The runtime [`FrameFormat`] this marker stands for.
    const FRAME_FORMAT: FrameFormat;
}

/// YUYV 4:2:2 packed.
#[derive(Copy, Clone, Debug, Default, Hash, Ord, PartialOrd, Eq, PartialEq)]
pub struct Yuyv;

impl CaptureFormat for Yuyv {
    const FRAME_FORMAT: FrameFormat = FrameFormat::YUYV;
}

/// NV12 (YUV 4:2:0 bi-planar).
#[derive(Copy, Clone, Debug, Default, Hash, Ord, PartialOrd, Eq, PartialEq)]
pub struct Nv12;

impl CaptureFormat for Nv12 {
    const FRAME_FORMAT: FrameFormat = FrameFormat::NV12;
}

/// Motion-JPEG.
#[derive(Copy, Clone, Debug, Default, Hash, Ord, PartialOrd, Eq, PartialEq)]
pub struct Mjpeg;

impl CaptureFormat for Mjpeg {
    const FRAME_FORMAT: FrameFormat = FrameFormat::MJPEG;
}

/// 8-bit grayscale.
#[derive(Copy, Clone, Debug, Default, Hash, Ord, PartialOrd, Eq, PartialEq)]
pub struct Gray;

impl CaptureFormat for Gray {
    const FRAME_FORMAT: FrameFormat = FrameFormat::GRAY;
}

/// Raw RGB888.
#[derive(Copy, Clone, Debug, Default, Hash, Ord, PartialOrd, Eq, PartialEq)]
pub struct RawRgb;

impl CaptureFormat for RawRgb {
    const FRAME_FORMAT: FrameFormat = FrameFormat::RAWRGB;
}

/// Raw BGR888.
#[derive(Copy, Clone, Debug, Default, Hash, Ord, PartialOrd, Eq, PartialEq)]
pub struct RawBgr;

impl CaptureFormat for RawBgr {
    const FRAME_FORMAT: FrameFormat = FrameFormat::RAWBGR;
}

} // verus!
