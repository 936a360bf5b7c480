//! The capabilities a camera backend offers: identity and controls, continuous
//! frames, shutter capture, per-camera events and backend-wide hotplug events.

use crate::buffer::Buffer;
use crate::error::NokhwaError;
use crate::types::{
    ApiBackend, CameraControl, CameraFormat, CameraInfo, ControlValueSetter, FrameFormat,
    KnownCameraControl,
};
use std::borrow::Cow;
use std::time::Duration;
use vstd::prelude::*;

verus! {

/// Base capabilities of every camera: identity and camera-wide controls.
pub trait CameraDevice {
    /// The camera's record of calls, as the implementor keeps it.
    spec fn spec_calls(&self) -> CallRecord;

    /// The backend driving the camera.
    fn backend(&self) -> ApiBackend;

    /// What the camera is.
    fn info(&self) -> &CameraInfo;

    /// The camera's controls.
    /// # Errors
    /// When enumerating the controls fails.
    fn controls(&self) -> Result<Vec<CameraControl>, NokhwaError>;

    /// Set control `id` to `value`.
    /// # Errors
    /// When setting the control fails.
    fn set_control(&mut self, id: KnownCameraControl, value: ControlValueSetter) -> (r: Result<
        (),
        NokhwaError,
    >)
        ensures
            final(self).spec_calls() == (CallRecord {
                control_set: Some((id, value, r)),
                ..old(self).spec_calls()
            }),
    ;
}

/// Bytes per pixel of a decoded image of a stream in `format`: 3 (RGB) for the
/// colour formats, 1 for GRAY, one more with an alpha channel.
pub open spec fn decoded_pixel_width(format: FrameFormat, alpha: bool) -> int {
    (if format == FrameFormat::GRAY {
        1int
    } else {
        3int
    }) + (if alpha {
        1int
    } else {
        0int
    })
}

/// The size of the decoded image of a stream of `format`: width times height
/// times the pixel width.
pub open spec fn decoded_buffer_len_spec(format: CameraFormat, alpha: bool) -> int {
    format.resolution.width_x * format.resolution.height_y * decoded_pixel_width(format.format, alpha)
}

/// The decoded image size of a stream of `format` fits in `u32`, the type the
/// size is computed in.
pub open spec fn decoded_size_fits(format: CameraFormat, alpha: bool) -> bool {
    decoded_buffer_len_spec(format, alpha) <= u32::MAX
}

/// The byte size of a decoded (RGB, RGBA or luma) image of a stream of `format`.
pub fn decoded_buffer_len(format: CameraFormat, alpha: bool) -> (r: usize)
    requires
        decoded_size_fits(format, alpha),
    ensures
        r == decoded_buffer_len_spec(format, alpha),
{
    let resolution = format.resolution();
    let px: u32 = match format.format() {
        FrameFormat::MJPEG | FrameFormat::YUYV | FrameFormat::RAWRGB | FrameFormat::RAWBGR
        | FrameFormat::NV12 => 3,
        FrameFormat::GRAY => 1,
    };
    let px: u32 = if alpha {
        px + 1
    } else {
        px
    };
    let w = resolution.width();
    let h = resolution.height();
    assert(w * h <= w * h * px) by (nonlinear_arith)
        requires
            px >= 1,
    ;
    let wh = w * h;
    let total = wh * px;
    total as usize
}

/// What a camera was last asked through the capability traits, with each
/// answer: the record that the traits' contracts speak of. Each call below
/// sets its own entry and leaves the others as they were.
pub struct CallRecord {
    /// The last `set_control`: the control, the value and the answer.
    pub control_set: Option<(KnownCameraControl, ControlValueSetter, Result<(), NokhwaError>)>,
    /// The answer of the last `frame()`.
    pub frame_read: Option<Result<Buffer, NokhwaError>>,
    /// The answer of the last `trigger()`.
    pub trigger: Option<Result<(), NokhwaError>>,
    /// The last `take_picture`: the wait asked for and the answer.
    pub picture: Option<(Duration, Result<Buffer, NokhwaError>)>,
}

/// Continuous frames: webcam streaming or live view. After `open()`, `frame()`
/// blocks until the device produces the next frame; `close()` stops the stream.
pub trait FrameSource: CameraDevice {
    /// The format the stream runs in, as the implementor models it.
    spec fn spec_negotiated_format(&self) -> CameraFormat;

    /// The format the stream runs in.
    fn negotiated_format(&self) -> (r: CameraFormat)
        ensures
            r == self.spec_negotiated_format(),
    ;

    /// Ask for format `f`.
    /// # Errors
    /// When the backend does not support the format.
    fn set_format(&mut self, f: CameraFormat) -> Result<(), NokhwaError>;

    /// The formats the camera can stream in.
    /// # Errors
    /// When enumerating the formats fails.
    fn compatible_formats(&mut self) -> Result<Vec<CameraFormat>, NokhwaError>;

    /// The pixel formats the camera can stream in.
    /// # Errors
    /// When enumerating the pixel formats fails.
    fn compatible_fourcc(&mut self) -> Result<Vec<FrameFormat>, NokhwaError>;

    /// Start the stream.
    /// # Errors
    /// When opening the stream fails.
    fn open(&mut self) -> Result<(), NokhwaError>;

    /// Whether the stream is running.
    fn is_open(&self) -> bool;

    /// The next frame.
    /// # Errors
    /// When reading a frame fails.
    fn frame(&mut self) -> (r: Result<Buffer, NokhwaError>)
        ensures
            final(self).spec_calls() == (CallRecord { frame_read: Some(r), ..old(self).spec_calls() }),
    ;

    /// The next frame, waiting at most about `_duration`; by default the same as
    /// [`FrameSource::frame`].
    /// # Errors
    /// When reading a frame fails or times out.
    fn frame_timeout(&mut self, _duration: Duration) -> Result<Buffer, NokhwaError> {
        self.frame()
    }

    /// The next frame's bytes, unprocessed.
    /// # Errors
    /// When reading a frame fails.
    fn frame_raw(&mut self) -> Result<Cow<'_, [u8]>, NokhwaError>;

    /// Stop the stream.
    /// # Errors
    /// When closing the stream fails.
    fn close(&mut self) -> Result<(), NokhwaError>;

    /// The byte size of a decoded image of the negotiated format; see
    /// [`decoded_buffer_len`].
    fn decoded_buffer_size(&self, alpha: bool) -> (r: usize)
        requires
            decoded_size_fits(self.spec_negotiated_format(), alpha),
        default_ensures
            r == decoded_buffer_len_spec(self.spec_negotiated_format(), alpha),
    {
        decoded_buffer_len(self.negotiated_format(), alpha)
    }
}

/// Shutter-triggered still images. `trigger()` returns at once;
/// `take_picture(timeout)` waits up to `timeout` for the image
/// (`Duration::ZERO` only probes).
pub trait ShutterCapture: CameraDevice {
    /// Fire the shutter.
    /// # Errors
    /// When triggering fails.
    fn trigger(&mut self) -> (r: Result<(), NokhwaError>)
        ensures
            final(self).spec_calls() == (CallRecord { trigger: Some(r), ..old(self).spec_calls() }),
    ;

    /// The next picture, waiting up to `timeout`.
    /// # Errors
    /// When no picture arrives in time.
    fn take_picture(&mut self, timeout: Duration) -> (r: Result<Buffer, NokhwaError>)
        ensures
            final(self).spec_calls() == (CallRecord {
                picture: Some((timeout, r)),
                ..old(self).spec_calls()
            }),
    ;

    /// Lock the camera's own buttons; by default nothing to do.
    /// # Errors
    /// When acquiring the lock fails.
    fn lock_ui(&mut self) -> (r: Result<(), NokhwaError>)
        ensures
            final(self).spec_calls() == old(self).spec_calls(),
        default_ensures
            r is Ok,
    {
        Ok(())
    }

    /// Release the lock of [`ShutterCapture::lock_ui`]; by default nothing to do.
    /// # Errors
    /// When releasing the lock fails.
    fn unlock_ui(&mut self) -> (r: Result<(), NokhwaError>)
        ensures
            final(self).spec_calls() == old(self).spec_calls(),
        default_ensures
            r is Ok,
    {
        Ok(())
    }

    /// `lock_ui`, then `trigger` and `take_picture`, then `unlock_ui`, which is
    /// always attempted once the lock was taken.
    /// # Errors
    /// The error of `lock_ui`, `trigger` or `take_picture`, the first that
    /// fails; the error of `unlock_ui` only when the others succeeded.
    fn capture(&mut self, timeout: Duration) -> (r: Result<Buffer, NokhwaError>)
        default_ensures
            final(self).spec_calls().control_set == old(self).spec_calls().control_set,
            final(self).spec_calls().frame_read == old(self).spec_calls().frame_read,
            r is Ok ==> (final(self).spec_calls().trigger matches Some(t) && t is Ok)
                && final(self).spec_calls().picture == Some((timeout, r)),
            r is Err ==> {
                ||| final(self).spec_calls() == old(self).spec_calls()
                ||| final(self).spec_calls().trigger == Some(Err::<(), NokhwaError>(r->Err_0))
                    && final(self).spec_calls().picture == old(self).spec_calls().picture
                ||| (final(self).spec_calls().trigger matches Some(t) && t is Ok)
                    && (final(self).spec_calls().picture matches Some((w, p)) && w == timeout && (
                    p is Err ==> r == p))
            },
    {
        match self.lock_ui() {
            Ok(()) => {},
            Err(e) => {
                return Err(e);
            },
        }
        let result = match self.trigger() {
            Ok(()) => self.take_picture(timeout),
            Err(e) => Err(e),
        };
        let unlocked = self.unlock_ui();
        match result {
            Ok(pic) => match unlocked {
                Ok(()) => Ok(pic),
                Err(e) => Err(e),
            },
            Err(e) => Err(e),
        }
    }
}

/// Per-camera events.
pub trait EventSource: CameraDevice {
    /// Take the event poller; only the first call succeeds.
    /// # Errors
    /// [`NokhwaError::UnsupportedOperationError`] when the poller was taken
    /// already or the backend has no events.
    fn take_events(&mut self) -> Result<Box<dyn EventPoll>, NokhwaError>;
}

/// Polls a camera's events.
pub trait EventPoll: Send {
    /// The last `next_timeout`: the wait asked for and the answer, as the
    /// implementor keeps it.
    spec fn spec_last_wait(&self) -> Option<(Duration, Option<CameraEvent>)>;

    /// The next buffered event, if any.
    fn try_next(&mut self) -> Option<CameraEvent>;

    /// The next event, waiting up to `d`.
    fn next_timeout(&mut self, d: Duration) -> (r: Option<CameraEvent>)
        ensures
            final(self).spec_last_wait() == Some((d, r)),
    ;
}

/// Something that happened to an opened camera.
#[non_exhaustive]
#[derive(Debug, Clone)]
pub enum CameraEvent {
    /// The device went away.
    Disconnected,
    /// Capturing failed.
    CaptureError { code: i32, message: String },
    /// The device is about to shut down.
    WillShutDown,
}

/// Backend-wide plug and unplug events, also of devices not opened yet.
pub trait HotplugSource {
    /// Take the hotplug poller; only the first call succeeds.
    /// # Errors
    /// [`NokhwaError::UnsupportedOperationError`] when the poller was taken
    /// already or the backend cannot detect hotplug.
    fn take_hotplug_events(&mut self) -> Result<Box<dyn HotplugEventPoll>, NokhwaError>;
}

/// Polls hotplug events.
pub trait HotplugEventPoll: Send {
    /// The next buffered event, if any; `None` does not mean the source closed.
    fn try_next(&mut self) -> Option<HotplugEvent>;

    /// The next event, waiting up to `d`; `None` on timeout.
    fn next_timeout(&mut self, d: Duration) -> Option<HotplugEvent>;
}

/// A device appeared or disappeared.
#[non_exhaustive]
#[derive(Debug, Clone, PartialEq, Eq, Hash)]
pub enum HotplugEvent {
    /// A camera became visible; the info suffices to open it.
    Connected(CameraInfo),
    /// A camera went away; match it by its index.
    Disconnected(CameraInfo),
}

} // verus!
