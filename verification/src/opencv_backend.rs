//! The decisions of a capture backend driven through OpenCV's `VideoCapture`:
//! which capture property a control maps to, which format a request asks of
//! a device that cannot list its formats, how the device is described, how a
//! BGR frame becomes RGB, which checks a frame read passes, and when a frame
//! has the wrong size.

use crate::error::NokhwaError;
use crate::text::{decimal, decimal_string, joined};
use crate::types::{
    camera_index_text, ApiBackend, CameraFormat, CameraIndex, CameraInfo, FrameFormat,
    KnownCameraControl, RequestedFormat, RequestedFormatType, Resolution,
};
use vstd::prelude::*;

verus! {

/// The `VideoCapture` properties that camera controls map to.
#[derive(Clone, Copy, Debug, PartialEq, Eq, Hash, Structural)]
pub enum VideoCaptureProperty {
    Brightness,
    Contrast,
    Hue,
    Saturation,
    Sharpness,
    Gamma,
    Backlight,
    Gain,
    Pan,
    Tilt,
    Zoom,
    Exposure,
    Iris,
    Focus,
}

/// The property a control maps to, if OpenCV has one.
pub open spec fn control_property(ctrl: KnownCameraControl) -> Option<VideoCaptureProperty> {
    match ctrl {
        KnownCameraControl::Brightness => Some(VideoCaptureProperty::Brightness),
        KnownCameraControl::Contrast => Some(VideoCaptureProperty::Contrast),
        KnownCameraControl::Hue => Some(VideoCaptureProperty::Hue),
        KnownCameraControl::Saturation => Some(VideoCaptureProperty::Saturation),
        KnownCameraControl::Sharpness => Some(VideoCaptureProperty::Sharpness),
        KnownCameraControl::Gamma => Some(VideoCaptureProperty::Gamma),
        KnownCameraControl::BacklightComp => Some(VideoCaptureProperty::Backlight),
        KnownCameraControl::Gain => Some(VideoCaptureProperty::Gain),
        KnownCameraControl::Pan => Some(VideoCaptureProperty::Pan),
        KnownCameraControl::Tilt => Some(VideoCaptureProperty::Tilt),
        KnownCameraControl::Zoom => Some(VideoCaptureProperty::Zoom),
        KnownCameraControl::Exposure => Some(VideoCaptureProperty::Exposure),
        KnownCameraControl::Iris => Some(VideoCaptureProperty::Iris),
        KnownCameraControl::Focus => Some(VideoCaptureProperty::Focus),
        _ => None,
    }
}

/// The `VideoCapture` property of a control.
/// # Errors
/// [`NokhwaError::UnsupportedOperationError`] of the OpenCV backend for
/// white balance, facing and platform-specific controls.
pub fn known_camera_control_to_video_capture_property(ctrl: KnownCameraControl) -> (r: Result<
    VideoCaptureProperty,
    NokhwaError,
>)
    ensures
        match control_property(ctrl) {
            Some(p) => r == Ok::<VideoCaptureProperty, NokhwaError>(p),
            None => r == Err::<VideoCaptureProperty, NokhwaError>(
                NokhwaError::UnsupportedOperationError(ApiBackend::OpenCv),
            ),
        },
{
    match ctrl {
        KnownCameraControl::Brightness => Ok(VideoCaptureProperty::Brightness),
        KnownCameraControl::Contrast => Ok(VideoCaptureProperty::Contrast),
        KnownCameraControl::Hue => Ok(VideoCaptureProperty::Hue),
        KnownCameraControl::Saturation => Ok(VideoCaptureProperty::Saturation),
        KnownCameraControl::Sharpness => Ok(VideoCaptureProperty::Sharpness),
        KnownCameraControl::Gamma => Ok(VideoCaptureProperty::Gamma),
        KnownCameraControl::BacklightComp => Ok(VideoCaptureProperty::Backlight),
        KnownCameraControl::Gain => Ok(VideoCaptureProperty::Gain),
        KnownCameraControl::Pan => Ok(VideoCaptureProperty::Pan),
        KnownCameraControl::Tilt => Ok(VideoCaptureProperty::Tilt),
        KnownCameraControl::Zoom => Ok(VideoCaptureProperty::Zoom),
        KnownCameraControl::Exposure => Ok(VideoCaptureProperty::Exposure),
        KnownCameraControl::Iris => Ok(VideoCaptureProperty::Iris),
        KnownCameraControl::Focus => Ok(VideoCaptureProperty::Focus),
        _ => Err(NokhwaError::UnsupportedOperationError(ApiBackend::OpenCv)),
    }
}

/// 640x480 MJPEG at 30 fps, what OpenCV devices report by default.
pub open spec fn opencv_default_format() -> CameraFormat {
    CameraFormat {
        resolution: Resolution { width_x: 640, height_y: 480 },
        format: FrameFormat::MJPEG,
        frame_rate: 30,
    }
}

/// The format to configure for a request: OpenCV cannot list formats, so an
/// exact request is taken as it is and any other gets the default format.
pub fn opencv_requested_format(request: &RequestedFormat) -> (r: CameraFormat)
    ensures
        match request.request_kind() {
            RequestedFormatType::Exact(f) => r == f,
            _ => r == opencv_default_format(),
        },
{
    match request.requested_format_type() {
        RequestedFormatType::Exact(exact) => exact,
        _ => CameraFormat::new_from(640, 480, FrameFormat::MJPEG, 30),
    }
}

/// How an OpenCV device at `index` describes itself.
pub open spec fn is_opencv_info(info: CameraInfo, index: CameraIndex) -> bool {
    &&& info.human_name@ == "OpenCV Capture Device "@ + camera_index_text(index)
    &&& info.description@ == camera_index_text(index)
    &&& info.misc@ == ""@
    &&& info.index == index
}

/// The description of the OpenCV device at `index`.
pub fn opencv_camera_info(index: CameraIndex) -> (r: CameraInfo)
    ensures
        is_opencv_info(r, index),
{
    let text = index.to_string();
    let name = joined(String::from_str("OpenCV Capture Device "), text.as_str());
    proof {
        reveal_strlit("");
    }
    CameraInfo::new(name.as_str(), text.as_str(), "", index)
}

/// BGR pixels (OpenCV's `Vec3b` order) turned into packed RGB bytes.
pub open spec fn bgr_pixels_rgb(pixels: Seq<[u8; 3]>) -> Seq<u8> {
    Seq::new(3 * pixels.len(), |k: int| pixels[k / 3]@[2 - k % 3])
}

/// Pack BGR pixels into RGB bytes.
pub fn bgr_pixels_to_rgb(pixels: &[[u8; 3]]) -> (r: Vec<u8>)
    requires
        3 * pixels.len() <= usize::MAX,
    ensures
        r@ == bgr_pixels_rgb(pixels@),
{
    let mut out: Vec<u8> = Vec::new();
    let mut i: usize = 0;
    while i < pixels.len()
        invariant
            i <= pixels.len(),
            out.len() == 3 * i,
            forall|k: int| 0 <= k < 3 * i ==> #[trigger] out@[k] == pixels@[k / 3]@[2 - k % 3],
        decreases pixels.len() - i,
    {
        let px = pixels[i];
        out.push(px[2]);
        out.push(px[1]);
        out.push(px[0]);
        proof {
            assert forall|k: int| 0 <= k < 3 * (i + 1) implies #[trigger] out@[k] == pixels@[k
                / 3]@[2 - k % 3] by {
                if k >= 3 * i {
                    assert(k / 3 == i);
                }
            }
        }
        i += 1;
    }
    assert(out@ =~= bgr_pixels_rgb(pixels@));
    out
}

/// The message for a frame of the wrong size.
pub open spec fn frame_size_text(got: nat, expected: nat, res: Resolution) -> Seq<char> {
    "OpenCV produced "@ + decimal(got) + " bytes, expected "@ + decimal(expected) + " ("@
        + decimal(res.width_x as nat) + "×"@ + decimal(res.height_y as nat)
        + " RGB24) — driver likely returned a different resolution than requested"@
}

/// Accept a frame of `len` bytes for a device in `format`, which delivers RGB24.
/// # Errors
/// A [`NokhwaError::ReadFrameError`] in the format when the frame is not
/// `3 * width * height` bytes.
pub fn check_opencv_frame_size(format: CameraFormat, len: usize) -> (r: Result<(), NokhwaError>)
    requires
        3 * format.resolution.width_x * format.resolution.height_y <= u32::MAX,
    ensures
        ({
            let expected = 3 * format.resolution.width_x * format.resolution.height_y;
            &&& len == expected <==> r is Ok
            &&& len != expected ==> (r matches Err(NokhwaError::ReadFrameError { message, format: f })
                && f == Some(format.format) && message@ == frame_size_text(
                len as nat,
                expected as nat,
                format.resolution,
            ))
        }),
{
    let res = format.resolution();
    let w = res.width();
    let h = res.height();
    proof {
        assert(w * h * 3 == 3 * w * h) by (nonlinear_arith);
    }
    let expected: u32 = w * h * 3;
    if len as u64 == expected as u64 {
        return Ok(());
    }
    let m = joined(String::from_str("OpenCV produced "), decimal_string(len as u128).as_str());
    let m = joined(m, " bytes, expected ");
    let m = joined(m, decimal_string(expected as u128).as_str());
    let m = joined(m, " (");
    let m = joined(m, decimal_string(w as u128).as_str());
    let m = joined(m, "×");
    let m = joined(m, decimal_string(h as u128).as_str());
    let m = joined(m, " RGB24) — driver likely returned a different resolution than requested");
    Err(NokhwaError::ReadFrameError { message: m, format: Some(format.format()) })
}

/// What reading one frame from an OpenCV device observed, stage by stage:
/// whether the stream is open, what `VideoCapture::read` returned, whether
/// the frame is empty, its width (or the error reading its size), whether its
/// data is continuous, and its `Vec3b` pixels (or the error taking them).
/// Stages after the first that fails are not looked at.
pub struct OpenCvFrameProbe {
    pub open: bool,
    pub read: Result<bool, String>,
    pub empty: bool,
    pub width: Result<i32, String>,
    pub continuous: bool,
    pub pixels: Result<Vec<[u8; 3]>, String>,
}

/// The bytes a frame read gives, or the message of the first check that fails.
pub open spec fn opencv_frame_outcome(probe: OpenCvFrameProbe) -> Result<Seq<u8>, Seq<char>> {
    if !probe.open {
        Err("Stream is not open!"@)
    } else if probe.read is Err {
        Err("Failed to read frame from videocapture: "@ + probe.read->Err_0@)
    } else if probe.read == Ok::<bool, String>(false) {
        Err("Failed to read frame from videocapture: OpenCV return false, camera disconnected?"@)
    } else if probe.empty {
        Err("Frame Empty!"@)
    } else if probe.width is Err {
        Err("Failed to read frame from videocapture: failed to read size: "@ + probe.width->Err_0@)
    } else if probe.width->Ok_0 <= 0 {
        Err("Frame width is less than zero!"@)
    } else if !probe.continuous {
        Err("Failed to read frame from videocapture: not cont"@)
    } else if probe.pixels is Err {
        Err("Failed to convert frame into raw Vec3b: "@ + probe.pixels->Err_0@)
    } else {
        Ok(bgr_pixels_rgb(probe.pixels->Ok_0@))
    }
}

/// The RGB24 bytes of a frame read from an OpenCV device streaming in `format`.
/// # Errors
/// A [`NokhwaError::ReadFrameError`] in `format` with the message of the first
/// check that fails (see [`opencv_frame_outcome`]).
pub fn opencv_raw_frame(format: FrameFormat, probe: OpenCvFrameProbe) -> (r: Result<
    Vec<u8>,
    NokhwaError,
>)
    requires
        probe.pixels matches Ok(px) ==> 3 * px.len() <= usize::MAX,
    ensures
        match opencv_frame_outcome(probe) {
            Ok(bytes) => r is Ok && r->Ok_0@ == bytes,
            Err(msg) => r matches Err(NokhwaError::ReadFrameError { message, format: f }) && f
                == Some(format) && message@ == msg,
        },
{
    let fail = |m: String| -> (e: Result<Vec<u8>, NokhwaError>)
        ensures
            e == Err::<Vec<u8>, NokhwaError>(
                NokhwaError::ReadFrameError { message: m, format: Some(format) },
            ),
        { Err(NokhwaError::ReadFrameError { message: m, format: Some(format) }) };
    if !probe.open {
        return fail(String::from_str("Stream is not open!"));
    }
    match &probe.read {
        Err(why) => {
            return fail(joined(String::from_str("Failed to read frame from videocapture: "), why.as_str()));
        },
        Ok(false) => {
            return fail(
                String::from_str(
                    "Failed to read frame from videocapture: OpenCV return false, camera disconnected?",
                ),
            );
        },
        Ok(true) => {},
    }
    if probe.empty {
        return fail(String::from_str("Frame Empty!"));
    }
    match &probe.width {
        Err(why) => {
            return fail(
                joined(
                    String::from_str("Failed to read frame from videocapture: failed to read size: "),
                    why.as_str(),
                ),
            );
        },
        Ok(w) => {
            if *w <= 0 {
                return fail(String::from_str("Frame width is less than zero!"));
            }
        },
    }
    if !probe.continuous {
        return fail(String::from_str("Failed to read frame from videocapture: not cont"));
    }
    match &probe.pixels {
        Err(why) => fail(joined(String::from_str("Failed to convert frame into raw Vec3b: "), why.as_str())),
        Ok(px) => Ok(bgr_pixels_to_rgb(px.as_slice())),
    }
}

} // verus!
