//! [`Camera`]: a capture device of one backend, pinned at compile time to a
//! pixel format.

use crate::buffer::Buffer;
use crate::error::{duration_is_zero, NokhwaError};
use crate::format_types::{CaptureFormat, Mjpeg};
use crate::frame::Frame;
use crate::types::{
    backend_name, color_frame_formats, frame_format_name, ApiBackend, CameraControl,
    known_control_name, CameraFormat, CameraIndex, CameraInfo, ControlValueSetter, FrameFormat,
    KnownCameraControl,
    RequestedFormat, RequestedFormatType, Resolution,
};
use crate::text::joined;
use crate::types::lemma_fulfill_unique;
use std::borrow::Cow;
use std::collections::HashMap;
use std::marker::PhantomData;
use std::time::{Duration, Instant};
use vstd::prelude::*;

verus! {

/// A device's answers to the last calls that re-read, list or set its format.
pub struct BackendAnswers {
    /// The answer of the last `refresh_camera_format`.
    pub refreshed: Option<Result<(), NokhwaError>>,
    /// The answer of the last `compatible_camera_formats`.
    pub listed: Option<Result<Vec<CameraFormat>, NokhwaError>>,
    /// The last `set_camera_format`: the format asked for and the answer.
    pub format_set: Option<(CameraFormat, Result<(), NokhwaError>)>,
}

/// `r` is the error that a request fitting nothing gives (see [`fulfill_request`]).
pub open spec fn is_fulfil_error<T>(r: Result<T, NokhwaError>) -> bool {
    r matches Err(NokhwaError::GetPropertyError { property, error }) && property@
        == "Compatible Camera Format by request"@ && error@ == "Failed to fulfill"@
}

/// A capture backend driving one device, as [`Camera`] uses it.
pub trait CaptureBackendTrait: Send {
    /// The device's answers to the last format calls, as the implementor keeps them.
    spec fn spec_answers(&self) -> BackendAnswers;

    /// The backend kind.
    fn backend(&self) -> ApiBackend;

    /// What the device is, as the implementor models it.
    spec fn spec_camera_info(&self) -> CameraInfo;

    /// Whether the stream runs, as the implementor models it.
    spec fn spec_stream_open(&self) -> bool;

    /// The formats the device offers, as the implementor models them.
    spec fn spec_compatible_formats(&self) -> Vec<CameraFormat>;

    /// What listing the device's controls gives, as the implementor models it.
    spec fn spec_control_listing(&self) -> Result<Vec<CameraControl>, NokhwaError>;

    /// What reading control `id` gives, as the implementor models it.
    spec fn spec_control_read(&self, id: KnownCameraControl) -> Result<CameraControl, NokhwaError>;

    /// What the device is.
    fn camera_info(&self) -> (r: &CameraInfo)
        ensures
            *r == self.spec_camera_info(),
    ;

    /// Re-read the format from the device.
    /// # Errors
    /// When the device cannot report its format.
    fn refresh_camera_format(&mut self) -> (r: Result<(), NokhwaError>)
        ensures
            final(self).spec_answers() == (BackendAnswers {
                refreshed: Some(r),
                ..old(self).spec_answers()
            }),
    ;

    /// The current format, as the implementor models it.
    spec fn spec_camera_format(&self) -> CameraFormat;

    /// The current format.
    fn camera_format(&self) -> (r: CameraFormat)
        ensures
            r == self.spec_camera_format(),
    ;

    /// Switch to `new_fmt`.
    /// # Errors
    /// When the device rejects the format.
    fn set_camera_format(&mut self, new_fmt: CameraFormat) -> (r: Result<(), NokhwaError>)
        ensures
            r is Ok ==> final(self).spec_camera_format() == new_fmt,
            final(self).spec_answers() == (BackendAnswers {
                format_set: Some((new_fmt, r)),
                ..old(self).spec_answers()
            }),
    ;

    /// For pixel format `fourcc`, each resolution with its frame rates.
    /// # Errors
    /// When the device cannot be queried.
    fn compatible_list_by_resolution(&mut self, fourcc: FrameFormat) -> Result<
        HashMap<Resolution, Vec<u32>>,
        NokhwaError,
    >;

    /// The pixel formats the device offers.
    /// # Errors
    /// When the device cannot be queried.
    fn compatible_fourcc(&mut self) -> Result<Vec<FrameFormat>, NokhwaError>;

    /// The formats the device offers.
    /// # Errors
    /// When the device cannot be queried.
    fn compatible_camera_formats(&mut self) -> (r: Result<Vec<CameraFormat>, NokhwaError>)
        ensures
            r is Ok ==> r->Ok_0@ == old(self).spec_compatible_formats()@,
            final(self).spec_answers() == (BackendAnswers {
                listed: Some(r),
                ..old(self).spec_answers()
            }),
    ;

    /// The current resolution.
    fn resolution(&self) -> (r: Resolution)
        ensures
            r == self.spec_camera_format().resolution,
    ;

    /// Switch to resolution `new_res`.
    /// # Errors
    /// When the device rejects it.
    fn set_resolution(&mut self, new_res: Resolution) -> (r: Result<(), NokhwaError>)
        ensures
            r is Ok ==> final(self).spec_camera_format().resolution == new_res,
    ;

    /// The current frame rate.
    fn frame_rate(&self) -> (r: u32)
        ensures
            r == self.spec_camera_format().frame_rate,
    ;

    /// Switch to frame rate `new_fps`.
    /// # Errors
    /// When the device rejects it.
    fn set_frame_rate(&mut self, new_fps: u32) -> (r: Result<(), NokhwaError>)
        ensures
            r is Ok ==> final(self).spec_camera_format().frame_rate == new_fps,
    ;

    /// The current pixel format.
    fn frame_format(&self) -> (r: FrameFormat)
        ensures
            r == self.spec_camera_format().format,
    ;

    /// Switch to pixel format `fourcc`.
    /// # Errors
    /// When the device rejects it.
    fn set_frame_format(&mut self, fourcc: FrameFormat) -> (r: Result<(), NokhwaError>)
        ensures
            r is Ok ==> final(self).spec_camera_format().format == fourcc,
    ;

    /// The control `control`.
    /// # Errors
    /// When the control is unsupported or cannot be read.
    fn camera_control(&self, control: KnownCameraControl) -> (r: Result<CameraControl, NokhwaError>)
        ensures
            r == self.spec_control_read(control),
            r is Ok ==> r->Ok_0.spec_control() == control,
    ;

    /// All controls the device has.
    /// # Errors
    /// When the controls cannot be listed.
    fn camera_controls(&self) -> (r: Result<Vec<CameraControl>, NokhwaError>)
        ensures
            r == self.spec_control_listing(),
    ;

    /// Set control `id` to `value`.
    /// # Errors
    /// When the control is unsupported or the value is refused.
    fn set_camera_control(&mut self, id: KnownCameraControl, value: ControlValueSetter) -> Result<
        (),
        NokhwaError,
    >;

    /// Start streaming.
    /// # Errors
    /// When the stream cannot be opened.
    fn open_stream(&mut self) -> (r: Result<(), NokhwaError>)
        ensures
            r is Ok ==> final(self).spec_stream_open(),
    ;

    /// Whether the stream runs.
    fn is_stream_open(&self) -> (r: bool)
        ensures
            r == self.spec_stream_open(),
    ;

    /// The next frame.
    /// # Errors
    /// When no frame can be read.
    fn frame(&mut self) -> Result<Buffer, NokhwaError>;

    /// The next frame within about `_duration`; by default [`CaptureBackendTrait::frame`].
    /// # Errors
    /// When no frame can be read.
    fn frame_timeout(&mut self, _duration: Duration) -> Result<Buffer, NokhwaError> {
        self.frame()
    }

    /// The next frame's bytes, unprocessed.
    /// # Errors
    /// When no frame can be read.
    fn frame_raw(&mut self) -> Result<Cow<'_, [u8]>, NokhwaError>;

    /// Stop streaming.
    /// # Errors
    /// When the stream cannot be stopped.
    fn stop_stream(&mut self) -> (r: Result<(), NokhwaError>)
        ensures
            r is Ok ==> !final(self).spec_stream_open(),
    ;
}

// ──────────────────────────────────────────────
// Backend selection
// ──────────────────────────────────────────────

/// The message when no backend suits the platform.
pub open spec fn no_platform_backend_text() -> Seq<char> {
    "No suitable backend found for the current platform."@
}

/// The message when `Auto` reaches backend creation unresolved.
pub open spec fn unresolved_auto_text() -> Seq<char> {
    "ApiBackend::Auto must be resolved before creating a backend."@
}

/// The message for a backend that is not compiled in.
pub open spec fn backend_unavailable_text(b: ApiBackend) -> Seq<char> {
    "Backend "@ + backend_name(b) + " is not available (not enabled or wrong platform)."@
}

/// The message with which opening a camera through `backend` fails.
pub open spec fn init_failure_text(backend: ApiBackend) -> Seq<char> {
    if backend == ApiBackend::Auto {
        no_platform_backend_text()
    } else {
        backend_unavailable_text(backend)
    }
}

/// `e` is a [`NokhwaError::NotImplementedError`] with message `msg`.
pub open spec fn is_not_implemented(e: NokhwaError, msg: Seq<char>) -> bool {
    e matches NokhwaError::NotImplementedError(m) && m@ == msg
}

/// The native backend of this platform: none is compiled into this build.
fn figure_out_auto() -> (r: Option<ApiBackend>)
    ensures
        r is None,
{
    None
}

/// Create the device for `backend`; no backend is compiled into this build.
fn create_backend(backend: &ApiBackend, index: &CameraIndex, format: RequestedFormat) -> (r: Result<
    Box<dyn CaptureBackendTrait>,
    NokhwaError,
>)
    ensures
        r is Err,
        *backend == ApiBackend::Auto ==> is_not_implemented(r->Err_0, unresolved_auto_text()),
        *backend != ApiBackend::Auto ==> is_not_implemented(
            r->Err_0,
            backend_unavailable_text(*backend),
        ),
{
    match backend {
        ApiBackend::Auto => Err(
            NokhwaError::NotImplementedError(
                String::from_str("ApiBackend::Auto must be resolved before creating a backend."),
            ),
        ),
        _ => {
            let m = joined(String::from_str("Backend "), backend.name());
            let m = joined(m, " is not available (not enabled or wrong platform).");
            Err(NokhwaError::NotImplementedError(m))
        },
    }
}

/// Resolve `Auto` to the platform's backend and create the device.
fn init_camera(index: &CameraIndex, format: RequestedFormat, backend: ApiBackend) -> (r: Result<
    Box<dyn CaptureBackendTrait>,
    NokhwaError,
>)
    ensures
        r is Err && is_not_implemented(r->Err_0, init_failure_text(backend)),
{
    let resolved = match backend {
        ApiBackend::Auto => match figure_out_auto() {
            Some(b) => b,
            None => {
                return Err(
                    NokhwaError::NotImplementedError(
                        String::from_str("No suitable backend found for the current platform."),
                    ),
                );
            },
        },
        other => other,
    };
    create_backend(&resolved, index, format)
}

/// The message when a device streams another format than the camera's.
pub open spec fn format_mismatch_text(actual: FrameFormat, required: FrameFormat) -> Seq<char> {
    "camera negotiated "@ + frame_format_name(actual) + " but Camera<"@ + frame_format_name(
        required,
    ) + "> requires "@ + frame_format_name(required)
}

/// Accept a device streaming `actual` for a camera pinned to `required`.
/// # Errors
/// A [`NokhwaError::SetPropertyError`] on property `FrameFormat` when they differ.
pub fn check_negotiated_format(actual: FrameFormat, required: FrameFormat) -> (r: Result<
    (),
    NokhwaError,
>)
    ensures
        actual == required <==> r is Ok,
        actual != required ==> (r->Err_0 matches NokhwaError::SetPropertyError {
            property,
            value,
            error,
        } && property@ == "FrameFormat"@ && value@ == frame_format_name(actual) && error@
            == format_mismatch_text(actual, required)),
{
    if actual == required {
        return Ok(());
    }
    proof {
        reveal_strlit("FrameFormat");
    }
    let e = joined(String::from_str("camera negotiated "), actual.name());
    let e = joined(e, " but Camera<");
    let e = joined(e, required.name());
    let e = joined(e, "> requires ");
    let e = joined(e, required.name());
    Err(
        NokhwaError::SetPropertyError {
            property: String::from_str("FrameFormat"),
            value: String::from_str(actual.name()),
            error: e,
        },
    )
}

/// The format a request picks out of `compatible`.
/// # Errors
/// A [`NokhwaError::GetPropertyError`] when nothing fits the request.
pub fn fulfill_request(request: &RequestedFormat, compatible: &[CameraFormat]) -> (r: Result<
    CameraFormat,
    NokhwaError,
>)
    ensures
        r is Ok ==> request.fulfills(compatible@, Some(r->Ok_0)),
        r is Err ==> request.fulfills(compatible@, None) && (r->Err_0 matches NokhwaError::GetPropertyError {
            property,
            error,
        } && property@ == "Compatible Camera Format by request"@ && error@ == "Failed to fulfill"@),
{
    match request.fulfill(compatible) {
        Some(f) => Ok(f),
        None => {
            proof {
                reveal_strlit("Compatible Camera Format by request");
                reveal_strlit("Failed to fulfill");
            }
            Err(
                NokhwaError::GetPropertyError {
                    property: String::from_str("Compatible Camera Format by request"),
                    error: String::from_str("Failed to fulfill"),
                },
            )
        },
    }
}

/// The ids of `controls`, in order.
pub fn control_ids(controls: &[CameraControl]) -> (r: Vec<KnownCameraControl>)
    ensures
        r.len() == controls.len(),
        forall|i: int| 0 <= i < r.len() ==> r[i] == controls@[i].spec_control(),
{
    let mut out: Vec<KnownCameraControl> = Vec::new();
    let mut i: usize = 0;
    while i < controls.len()
        invariant
            i <= controls.len(),
            out.len() == i,
            forall|k: int| 0 <= k < i ==> out[k] == controls@[k].spec_control(),
        decreases controls.len() - i,
    {
        out.push(controls[i].control());
        i += 1;
    }
    out
}

/// The controls among `reads` that were read, in order.
pub open spec fn readable(reads: Seq<Result<CameraControl, NokhwaError>>) -> Seq<CameraControl>
    decreases reads.len(),
{
    if reads.len() == 0 {
        Seq::empty()
    } else {
        let rest = readable(reads.drop_first());
        match reads[0] {
            Ok(c) => seq![c] + rest,
            Err(_) => rest,
        }
    }
}

/// `acc` with `v` under key `k`: the entry of `k` replaced in place when
/// there is one, else `(k, v)` appended.
pub open spec fn upsert(
    acc: Seq<(KnownCameraControl, CameraControl)>,
    k: KnownCameraControl,
    v: CameraControl,
) -> Seq<(KnownCameraControl, CameraControl)>
    decreases acc.len(),
{
    if acc.len() == 0 {
        seq![(k, v)]
    } else if acc[0].0 == k {
        seq![(k, v)] + acc.drop_first()
    } else {
        seq![acc[0]] + upsert(acc.drop_first(), k, v)
    }
}

/// Each control of `cs` under its id, in order of first appearance, the
/// later of two with one id replacing the earlier.
pub open spec fn controls_by_id(cs: Seq<CameraControl>) -> Seq<(KnownCameraControl, CameraControl)>
    decreases cs.len(),
{
    if cs.len() == 0 {
        Seq::empty()
    } else {
        upsert(controls_by_id(cs.drop_last()), cs.last().spec_control(), cs.last())
    }
}

/// `pairs` keyed by their ids' names instead.
pub open spec fn named_pairs(
    named: Seq<(String, CameraControl)>,
    pairs: Seq<(KnownCameraControl, CameraControl)>,
) -> bool {
    &&& named.len() == pairs.len()
    &&& forall|i: int|
        0 <= i < named.len() ==> (#[trigger] named[i]).0@ == known_control_name(pairs[i].0)
            && named[i].1 == pairs[i].1
}

proof fn lemma_upsert_found(
    acc: Seq<(KnownCameraControl, CameraControl)>,
    k: KnownCameraControl,
    v: CameraControl,
    i: int,
)
    requires
        0 <= i < acc.len(),
        acc[i].0 == k,
        forall|j: int| 0 <= j < i ==> acc[j].0 != k,
    ensures
        upsert(acc, k, v) == acc.update(i, (k, v)),
    decreases i,
{
    if i == 0 {
        assert(upsert(acc, k, v) =~= acc.update(0, (k, v)));
    } else {
        let rest = acc.drop_first();
        lemma_upsert_found(rest, k, v, i - 1);
        assert(upsert(acc, k, v) =~= acc.update(i, (k, v)));
    }
}

proof fn lemma_upsert_absent(
    acc: Seq<(KnownCameraControl, CameraControl)>,
    k: KnownCameraControl,
    v: CameraControl,
)
    requires
        forall|j: int| 0 <= j < acc.len() ==> acc[j].0 != k,
    ensures
        upsert(acc, k, v) == acc.push((k, v)),
    decreases acc.len(),
{
    if acc.len() == 0 {
        assert(upsert(acc, k, v) =~= acc.push((k, v)));
    } else {
        let rest = acc.drop_first();
        assert forall|j: int| 0 <= j < rest.len() implies rest[j].0 != k by {
            assert(rest[j] == acc[j + 1]);
        }
        lemma_upsert_absent(rest, k, v);
        assert(upsert(acc, k, v) =~= acc.push((k, v)));
    }
}

/// Put `v` under key `k` in `acc` (see [`upsert`]).
fn upsert_pair(acc: &mut Vec<(KnownCameraControl, CameraControl)>, k: KnownCameraControl, v: CameraControl)
    ensures
        final(acc)@ == upsert(old(acc)@, k, v),
{
    let ghost start = acc@;
    let mut i: usize = 0;
    let mut found = false;
    while i < acc.len() && !found
        invariant
            acc@ == start,
            i <= acc.len(),
            found ==> i < acc.len() && acc@[i as int].0 == k,
            forall|j: int| 0 <= j < i ==> acc@[j].0 != k,
        decreases acc.len() - i + (if found { 0int } else { 1int }),
    {
        if acc[i].0 == k {
            found = true;
        } else {
            i += 1;
        }
    }
    if found {
        proof {
            lemma_upsert_found(start, k, v, i as int);
        }
        acc.set(i, (k, v));
    } else {
        proof {
            lemma_upsert_absent(start, k, v);
        }
        acc.push((k, v));
    }
}

/// Each of `cs` under its id (see [`controls_by_id`]).
pub fn controls_keyed_by_id(cs: Vec<CameraControl>) -> (r: Vec<(KnownCameraControl, CameraControl)>)
    ensures
        r@ == controls_by_id(cs@),
{
    let ghost all = cs@;
    let mut rest = cs;
    let mut out: Vec<(KnownCameraControl, CameraControl)> = Vec::new();
    let ghost mut done: Seq<CameraControl> = Seq::empty();
    while rest.len() > 0
        invariant
            done + rest@ == all,
            out@ == controls_by_id(done),
        decreases rest.len(),
    {
        let c = rest.remove(0);
        let ghost gc = c;
        let id = c.control();
        upsert_pair(&mut out, id, c);
        proof {
            assert(done.push(gc).drop_last() =~= done);
            done = done.push(gc);
            assert(done + rest@ =~= all);
        }
    }
    assert(done =~= all);
    out
}

/// The pairs of `pairs`, keyed by their ids' names.
pub fn pairs_by_name(pairs: Vec<(KnownCameraControl, CameraControl)>) -> (r: Vec<(String, CameraControl)>)
    ensures
        named_pairs(r@, pairs@),
{
    let ghost all = pairs@;
    let mut rest = pairs;
    let mut out: Vec<(String, CameraControl)> = Vec::new();
    while rest.len() > 0
        invariant
            out.len() + rest.len() == all.len(),
            rest@ == all.skip(out.len() as int),
            forall|i: int|
                0 <= i < out.len() ==> (#[trigger] out@[i]).0@ == known_control_name(all[i].0)
                    && out@[i].1 == all[i].1,
        decreases rest.len(),
    {
        let ghost before = rest@;
        let (k, c) = rest.remove(0);
        assert(before[0] == all[out.len() as int]);
        out.push((k.to_string(), c));
        assert(rest@ =~= all.skip(out.len() as int));
    }
    out
}

/// Keep the reads that succeeded, in order.
pub fn readable_controls(reads: Vec<Result<CameraControl, NokhwaError>>) -> (r: Vec<CameraControl>)
    ensures
        r@ == readable(reads@),
{
    let ghost all = reads@;
    let mut rest = reads;
    let mut out: Vec<CameraControl> = Vec::new();
    while rest.len() > 0
        invariant
            out@ + readable(rest@) == readable(all),
        decreases rest.len(),
    {
        let ghost before = rest@;
        let x = rest.remove(0);
        assert(before.drop_first() =~= rest@);
        match x {
            Ok(c) => {
                assert(out@.push(c) + readable(rest@) =~= out@ + (seq![c] + readable(rest@)));
                out.push(c);
            },
            Err(_) => {},
        }
    }
    assert(out@ + readable(rest@) =~= out@);
    out
}

// ──────────────────────────────────────────────
// Timing
// ──────────────────────────────────────────────

/// A point in time of the monotonic clock.
#[verifier::external_type_specification]
#[verifier::external_body]
pub struct ExInstant(Instant);

/// `Instant::now`: the current time; nothing is stated of a clock reading.
#[verifier::external_body]
fn instant_now() -> Instant {
    Instant::now()
}

/// `Instant::elapsed`: the time since `start`; nothing is stated of a clock reading.
#[verifier::external_body]
fn instant_elapsed(start: &Instant) -> Duration {
    start.elapsed()
}

/// Whether duration `a` is longer than `b`.
pub uninterp spec fn duration_longer(a: Duration, b: Duration) -> bool;

/// `Duration`'s `>`: whether `a` is longer than `b`, a function of the two
/// durations alone ([`duration_longer`]).
#[verifier::external_body]
fn duration_exceeds(a: Duration, b: Duration) -> (r: bool)
    ensures
        r == duration_longer(a, b),
{
    a > b
}

/// What a frame read under a deadline gives: a timeout when the read came
/// back late, else what the read gave.
pub fn timeout_outcome(duration: Duration, late: bool, result: Result<Buffer, NokhwaError>) -> (r:
    Result<Buffer, NokhwaError>)
    ensures
        late ==> r == Err::<Buffer, NokhwaError>(NokhwaError::TimeoutError(duration)),
        !late ==> r == result,
{
    if late {
        Err(NokhwaError::TimeoutError(duration))
    } else {
        result
    }
}

// ──────────────────────────────────────────────
// Camera
// ──────────────────────────────────────────────

/// A capture device of one backend, pinned to the pixel format `F`.
pub struct Camera<F: CaptureFormat = Mjpeg> {
    idx: CameraIndex,
    api: ApiBackend,
    device: Box<dyn CaptureBackendTrait>,
    _format: PhantomData<F>,
}

impl Camera {
    /// Open camera `index` in format `F` through the platform's backend.
    /// # Errors
    /// Opening fails when no backend is available; in this build none is
    /// compiled in, so it always gives a [`NokhwaError::NotImplementedError`].
    pub fn open<F: CaptureFormat>(index: CameraIndex, requested: RequestedFormatType) -> (r: Result<
        Camera<F>,
        NokhwaError,
    >)
        ensures
            r is Err && is_not_implemented(r->Err_0, init_failure_text(ApiBackend::Auto)),
    {
        Camera::open_with_backend::<F>(index, requested, ApiBackend::Auto)
    }

    /// Open camera `index` in format `F` through `backend`.
    /// # Errors
    /// As [`Camera::open`]: the backend is not available in this build.
    pub fn open_with_backend<F: CaptureFormat>(
        index: CameraIndex,
        requested: RequestedFormatType,
        backend: ApiBackend,
    ) -> (r: Result<Camera<F>, NokhwaError>)
        ensures
            r is Err && is_not_implemented(r->Err_0, init_failure_text(backend)),
    {
        let formats = [F::FRAME_FORMAT];
        let req = RequestedFormat::with_formats(requested, &formats);
        let camera_backend = match init_camera(&index, req, backend) {
            Ok(b) => b,
            Err(e) => {
                return Err(e);
            },
        };
        Camera::<F>::from_backend(index, backend, camera_backend)
    }
}

impl<F: CaptureFormat> Camera<F> {
    /// The index the camera was opened with.
    pub closed spec fn spec_index(&self) -> CameraIndex {
        self.idx
    }

    /// The backend the camera was opened through.
    pub closed spec fn spec_backend(&self) -> ApiBackend {
        self.api
    }

    /// Open camera `index` with `format` through the platform's backend.
    /// # Errors
    /// As [`Camera::open`].
    pub fn new(index: CameraIndex, format: RequestedFormat) -> (r: Result<Self, NokhwaError>)
        ensures
            r is Err && is_not_implemented(r->Err_0, init_failure_text(ApiBackend::Auto)),
    {
        Camera::with_backend(index, format, ApiBackend::Auto)
    }

    /// Open camera `index` with `format` through `backend`.
    /// # Errors
    /// As [`Camera::open`].
    pub fn with_backend(index: CameraIndex, format: RequestedFormat, backend: ApiBackend) -> (r:
        Result<Self, NokhwaError>)
        ensures
            r is Err && is_not_implemented(r->Err_0, init_failure_text(backend)),
    {
        let camera_backend = match init_camera(&index, format, backend) {
            Ok(b) => b,
            Err(e) => {
                return Err(e);
            },
        };
        Self::from_backend(index, backend, camera_backend)
    }

    /// A camera over `device` when the device streams in `F`.
    fn from_backend(index: CameraIndex, api: ApiBackend, device: Box<dyn CaptureBackendTrait>) -> (r:
        Result<Self, NokhwaError>)
        ensures
            r is Ok <==> device.spec_camera_format().format == F::FRAME_FORMAT,
            r is Ok ==> r->Ok_0.spec_index() == index && r->Ok_0.spec_backend() == api,
            r is Err ==> (r->Err_0 matches NokhwaError::SetPropertyError { property, value, error }
                && property@ == "FrameFormat"@ && value@ == frame_format_name(
                device.spec_camera_format().format,
            ) && error@ == format_mismatch_text(
                device.spec_camera_format().format,
                F::FRAME_FORMAT,
            )),
    {
        let actual = device.frame_format();
        match check_negotiated_format(actual, F::FRAME_FORMAT) {
            Ok(()) => Ok(Camera { idx: index, api, device, _format: PhantomData }),
            Err(e) => Err(e),
        }
    }

    /// A camera over a device of one's own; its format must already be set.
    pub fn with_custom(idx: CameraIndex, api: ApiBackend, device: Box<dyn CaptureBackendTrait>) -> (r:
        Self)
        ensures
            r.spec_index() == idx,
            r.spec_backend() == api,
    {
        Camera { idx, api, device, _format: PhantomData }
    }

    /// Open camera `index` at the highest resolution any colour format offers.
    /// # Errors
    /// As [`Camera::open`].
    pub fn new_with_highest_resolution(index: CameraIndex) -> (r: Result<Self, NokhwaError>)
        ensures
            r is Err && is_not_implemented(r->Err_0, init_failure_text(ApiBackend::Auto)),
    {
        let formats = color_frame_formats();
        Self::new(
            index,
            RequestedFormat::with_formats(
                RequestedFormatType::AbsoluteHighestResolution,
                formats.as_slice(),
            ),
        )
    }

    /// Open camera `index` at the highest frame rate any colour format offers.
    /// # Errors
    /// As [`Camera::open`].
    pub fn new_with_highest_framerate(index: CameraIndex) -> (r: Result<Self, NokhwaError>)
        ensures
            r is Err && is_not_implemented(r->Err_0, init_failure_text(ApiBackend::Auto)),
    {
        let formats = color_frame_formats();
        Self::new(
            index,
            RequestedFormat::with_formats(
                RequestedFormatType::AbsoluteHighestFrameRate,
                formats.as_slice(),
            ),
        )
    }

    /// The next frame, typed by `F`.
    /// # Errors
    /// The device's error, or a [`NokhwaError::ProcessFrameError`] when the
    /// frame is not in `F`'s format.
    pub fn frame_typed(&mut self) -> (r: Result<Frame<F>, NokhwaError>)
        ensures
            r is Ok ==> r->Ok_0.spec_buffer().spec_format() == F::FRAME_FORMAT,
            final(self).spec_index() == old(self).spec_index(),
            final(self).spec_backend() == old(self).spec_backend(),
    {
        let buffer = match self.device.frame() {
            Ok(b) => b,
            Err(e) => {
                return Err(e);
            },
        };
        Frame::try_new(buffer)
    }

    /// The index the camera was opened with.
    pub fn index(&self) -> (r: &CameraIndex)
        ensures
            *r == self.spec_index(),
    {
        &self.idx
    }

    /// Set the camera's index: stop the stream, then reopen the device at
    /// `new_idx` in its current format and take `new_idx` as the index.
    /// # Errors
    /// The device's error when stopping fails, or the error of reopening. No
    /// backend is compiled into this build, so reopening always fails and the
    /// camera keeps its index and device.
    pub fn set_index(&mut self, new_idx: &CameraIndex) -> (r: Result<(), NokhwaError>)
        ensures
            r is Err,
            final(self).spec_index() == old(self).spec_index(),
            final(self).spec_backend() == old(self).spec_backend(),
    {
        match self.device.stop_stream() {
            Ok(()) => {},
            Err(e) => {
                return Err(e);
            },
        }
        let new_camera_format = self.device.camera_format();
        let temp = vec![new_camera_format.format()];
        let new_camera = match init_camera(
            new_idx,
            RequestedFormat::with_formats(
                RequestedFormatType::Exact(new_camera_format),
                temp.as_slice(),
            ),
            self.api,
        ) {
            Ok(c) => c,
            Err(e) => {
                return Err(e);
            },
        };
        self.device = new_camera;
        self.idx = new_idx.clone();
        Ok(())
    }

    /// The backend the camera was opened through.
    pub fn backend(&self) -> (r: &ApiBackend)
        ensures
            *r == self.spec_backend(),
    {
        &self.api
    }

    /// Set the camera's backend: stop the stream, then reopen the device
    /// through `new_backend` in its current format and take `new_backend` as
    /// the backend.
    /// # Errors
    /// The device's error when stopping fails, or the error of reopening. No
    /// backend is compiled into this build, so reopening always fails and the
    /// camera keeps its backend and device.
    pub fn set_backend(&mut self, new_backend: ApiBackend) -> (r: Result<(), NokhwaError>)
        ensures
            r is Err,
            final(self).spec_index() == old(self).spec_index(),
            final(self).spec_backend() == old(self).spec_backend(),
    {
        match self.device.stop_stream() {
            Ok(()) => {},
            Err(e) => {
                return Err(e);
            },
        }
        let new_camera_format = self.device.camera_format();
        let temp = vec![new_camera_format.format()];
        let new_camera = match init_camera(
            &self.idx,
            RequestedFormat::with_formats(
                RequestedFormatType::Exact(new_camera_format),
                temp.as_slice(),
            ),
            new_backend,
        ) {
            Ok(c) => c,
            Err(e) => {
                return Err(e);
            },
        };
        self.device = new_camera;
        self.api = new_backend;
        Ok(())
    }

    /// What the device is.
    pub fn info(&self) -> (r: &CameraInfo)
        ensures
            *r == self.spec_info(),
    {
        self.device.camera_info()
    }

    /// The device's current format.
    pub closed spec fn spec_format(&self) -> CameraFormat {
        self.device.spec_camera_format()
    }

    /// The device's answers to the last format calls.
    pub closed spec fn spec_answers(&self) -> BackendAnswers {
        self.device.spec_answers()
    }

    /// The controls the device lists.
    pub closed spec fn spec_controls(&self) -> Seq<CameraControl> {
        match self.device.spec_control_listing() {
            Ok(v) => v@,
            Err(_) => Seq::empty(),
        }
    }

    /// What listing the device's controls gives.
    pub closed spec fn spec_control_listing(&self) -> Result<Vec<CameraControl>, NokhwaError> {
        self.device.spec_control_listing()
    }

    /// What reading control `id` from the device gives.
    pub closed spec fn spec_control_read(&self, id: KnownCameraControl) -> Result<
        CameraControl,
        NokhwaError,
    > {
        self.device.spec_control_read(id)
    }

    /// The reads of the listed controls' ids, in order.
    pub open spec fn spec_control_reads(&self) -> Seq<Result<CameraControl, NokhwaError>> {
        self.spec_controls().map_values(|c: CameraControl| self.spec_control_read(c.spec_control()))
    }

    /// The listed controls that read successfully, in order.
    pub open spec fn spec_readable_controls(&self) -> Seq<CameraControl> {
        readable(self.spec_control_reads())
    }

    /// The formats the device offers.
    pub closed spec fn spec_compatible_formats(&self) -> Seq<CameraFormat> {
        self.device.spec_compatible_formats()@
    }

    /// What the device is.
    pub closed spec fn spec_info(&self) -> CameraInfo {
        self.device.spec_camera_info()
    }

    /// Whether the device streams.
    pub closed spec fn spec_stream_open(&self) -> bool {
        self.device.spec_stream_open()
    }

    /// The device's current format.
    pub fn camera_format(&self) -> (r: CameraFormat)
        ensures
            r == self.spec_format(),
    {
        self.device.camera_format()
    }

    /// Re-read the format from the device and give it.
    /// # Errors
    /// When the device cannot report its format.
    pub fn refresh_camera_format(&mut self) -> (r: Result<CameraFormat, NokhwaError>)
        ensures
            r is Ok ==> r->Ok_0 == final(self).spec_format(),
            ({
                let a0 = old(self).spec_answers();
                let a1 = final(self).spec_answers();
                &&& a1.listed == a0.listed
                &&& a1.format_set == a0.format_set
                &&& a1.refreshed is Some
                &&& a1.refreshed->Some_0 is Err ==> r == Err::<CameraFormat, NokhwaError>(
                    a1.refreshed->Some_0->Err_0,
                )
                &&& a1.refreshed->Some_0 is Ok ==> r is Ok
            }),
            final(self).spec_index() == old(self).spec_index(),
            final(self).spec_backend() == old(self).spec_backend(),
    {
        match self.device.refresh_camera_format() {
            Ok(()) => {},
            Err(e) => {
                return Err(e);
            },
        }
        Ok(self.device.camera_format())
    }

    /// Switch the device to the format that `request` picks out of the
    /// device's compatible formats, and give that format.
    /// # Errors
    /// When the device cannot list or set formats, or nothing fits (see
    /// [`fulfill_request`]).
    pub fn set_camera_request(&mut self, request: RequestedFormat) -> (r: Result<
        CameraFormat,
        NokhwaError,
    >)
        ensures
            r is Ok ==> request.fulfills(old(self).spec_compatible_formats(), Some(r->Ok_0)),
            r is Ok ==> final(self).spec_format() == r->Ok_0,
            request.fulfills(old(self).spec_compatible_formats(), None) ==> r is Err,
            ({
                let a0 = old(self).spec_answers();
                let a1 = final(self).spec_answers();
                &&& a1.refreshed == a0.refreshed
                &&& a1.listed is Some
                &&& a1.listed->Some_0 is Err ==> r == Err::<CameraFormat, NokhwaError>(
                    a1.listed->Some_0->Err_0,
                ) && a1.format_set == a0.format_set
                &&& a1.listed->Some_0 is Ok ==> {
                    let listed = a1.listed->Some_0->Ok_0@;
                    ||| request.fulfills(listed, None) && a1.format_set == a0.format_set
                        && is_fulfil_error(r)
                    ||| a1.format_set is Some && request.fulfills(
                        listed,
                        Some((a1.format_set->Some_0).0),
                    ) && ((a1.format_set->Some_0).1 is Err ==> r == Err::<
                        CameraFormat,
                        NokhwaError,
                    >((a1.format_set->Some_0).1->Err_0)) && ((a1.format_set->Some_0).1 is Ok
                        ==> r == Ok::<CameraFormat, NokhwaError>((a1.format_set->Some_0).0))
                }
            }),
            final(self).spec_index() == old(self).spec_index(),
            final(self).spec_backend() == old(self).spec_backend(),
    {
        let compatible = match self.device.compatible_camera_formats() {
            Ok(c) => c,
            Err(e) => {
                return Err(e);
            },
        };
        let new_format = match fulfill_request(&request, compatible.as_slice()) {
            Ok(f) => f,
            Err(e) => {
                return Err(e);
            },
        };
        proof {
            if request.fulfills(old(self).spec_compatible_formats(), None) {
                lemma_fulfill_unique(
                    request,
                    old(self).spec_compatible_formats(),
                    None,
                    Some(new_format),
                );
            }
        }
        match self.device.set_camera_format(new_format) {
            Ok(()) => {},
            Err(e) => {
                return Err(e);
            },
        }
        Ok(new_format)
    }

    /// For pixel format `fourcc`, each resolution with its frame rates.
    /// # Errors
    /// When the device cannot be queried.
    pub fn compatible_list_by_resolution(&mut self, fourcc: FrameFormat) -> (r: Result<
        HashMap<Resolution, Vec<u32>>,
        NokhwaError,
    >)
        ensures
            final(self).spec_index() == old(self).spec_index(),
            final(self).spec_backend() == old(self).spec_backend(),
    {
        self.device.compatible_list_by_resolution(fourcc)
    }

    /// The pixel formats the device offers.
    /// # Errors
    /// When the device cannot be queried.
    pub fn compatible_fourcc(&mut self) -> (r: Result<Vec<FrameFormat>, NokhwaError>)
        ensures
            final(self).spec_index() == old(self).spec_index(),
            final(self).spec_backend() == old(self).spec_backend(),
    {
        self.device.compatible_fourcc()
    }

    /// The formats the device offers.
    /// # Errors
    /// When the device cannot be queried.
    pub fn compatible_camera_formats(&mut self) -> (r: Result<Vec<CameraFormat>, NokhwaError>)
        ensures
            r is Ok ==> r->Ok_0@ == old(self).spec_compatible_formats(),
            final(self).spec_index() == old(self).spec_index(),
            final(self).spec_backend() == old(self).spec_backend(),
    {
        self.device.compatible_camera_formats()
    }

    /// The device's current resolution.
    pub fn resolution(&self) -> (r: Resolution)
        ensures
            r == self.spec_format().resolution,
    {
        self.device.resolution()
    }

    /// Switch the device to resolution `new_res`.
    /// # Errors
    /// When the device rejects it.
    pub fn set_resolution(&mut self, new_res: Resolution) -> (r: Result<(), NokhwaError>)
        ensures
            r is Ok ==> final(self).spec_format().resolution == new_res,
            final(self).spec_index() == old(self).spec_index(),
            final(self).spec_backend() == old(self).spec_backend(),
    {
        self.device.set_resolution(new_res)
    }

    /// The device's current frame rate.
    pub fn frame_rate(&self) -> (r: u32)
        ensures
            r == self.spec_format().frame_rate,
    {
        self.device.frame_rate()
    }

    /// Switch the device to frame rate `new_fps`.
    /// # Errors
    /// When the device rejects it.
    pub fn set_frame_rate(&mut self, new_fps: u32) -> (r: Result<(), NokhwaError>)
        ensures
            r is Ok ==> final(self).spec_format().frame_rate == new_fps,
            final(self).spec_index() == old(self).spec_index(),
            final(self).spec_backend() == old(self).spec_backend(),
    {
        self.device.set_frame_rate(new_fps)
    }

    /// The device's current pixel format.
    pub fn frame_format(&self) -> (r: FrameFormat)
        ensures
            r == self.spec_format().format,
    {
        self.device.frame_format()
    }

    /// Switch the device to pixel format `fourcc`.
    /// # Errors
    /// When the device rejects it.
    pub fn set_frame_format(&mut self, fourcc: FrameFormat) -> (r: Result<(), NokhwaError>)
        ensures
            r is Ok ==> final(self).spec_format().format == fourcc,
            final(self).spec_index() == old(self).spec_index(),
            final(self).spec_backend() == old(self).spec_backend(),
    {
        self.device.set_frame_format(fourcc)
    }

    /// The ids of the device's controls, in the order it lists them (see [`control_ids`]).
    /// # Errors
    /// When the controls cannot be listed.
    pub fn supported_camera_controls(&self) -> (r: Result<Vec<KnownCameraControl>, NokhwaError>)
        ensures
            r is Ok <==> self.spec_control_listing() is Ok,
            r is Err ==> r->Err_0 == self.spec_control_listing()->Err_0,
            r is Ok ==> r->Ok_0.len() == self.spec_controls().len() && forall|i: int|
                0 <= i < r->Ok_0.len() ==> r->Ok_0@[i] == #[trigger] self.spec_controls()[i].spec_control(),
    {
        match self.device.camera_controls() {
            Ok(controls) => Ok(control_ids(controls.as_slice())),
            Err(e) => Err(e),
        }
    }

    /// Each supported control that the device can read, in the order of
    /// [`Camera::supported_camera_controls`]; controls that fail to read are skipped.
    /// # Errors
    /// When the controls cannot be listed.
    pub fn camera_controls(&self) -> (r: Result<Vec<CameraControl>, NokhwaError>)
        ensures
            r is Ok <==> self.spec_control_listing() is Ok,
            r is Err ==> r->Err_0 == self.spec_control_listing()->Err_0,
            r is Ok ==> r->Ok_0@ == self.spec_readable_controls(),
    {
        let known = match self.supported_camera_controls() {
            Ok(k) => k,
            Err(e) => {
                return Err(e);
            },
        };
        let mut reads: Vec<Result<CameraControl, NokhwaError>> = Vec::new();
        let mut i: usize = 0;
        while i < known.len()
            invariant
                i <= known.len(),
                known.len() == self.spec_controls().len(),
                forall|j: int|
                    0 <= j < known.len() ==> known@[j] == #[trigger] self.spec_controls()[j].spec_control(),
                reads.len() == i,
                forall|j: int|
                    0 <= j < i ==> #[trigger] reads@[j] == self.spec_control_read(known@[j]),
            decreases known.len() - i,
        {
            let read = self.camera_control(known[i]);
            reads.push(read);
            i += 1;
        }
        assert(reads@ =~= self.spec_control_reads());
        let out = readable_controls(reads);
        Ok(out)
    }

    /// The readable supported controls keyed by their names (see
    /// [`Camera::camera_controls_by_id`]).
    /// # Errors
    /// When the controls cannot be listed.
    pub fn camera_controls_by_name(&self) -> (r: Result<Vec<(String, CameraControl)>, NokhwaError>)
        ensures
            r is Ok <==> self.spec_control_listing() is Ok,
            r is Err ==> r->Err_0 == self.spec_control_listing()->Err_0,
            r is Ok ==> named_pairs(r->Ok_0@, controls_by_id(self.spec_readable_controls())),
    {
        match self.camera_controls_by_id() {
            Ok(pairs) => Ok(pairs_by_name(pairs)),
            Err(e) => Err(e),
        }
    }

    /// The readable supported controls keyed by their ids: one pair per id,
    /// in order of first appearance, holding the last control read for it.
    /// # Errors
    /// When the controls cannot be listed.
    pub fn camera_controls_by_id(&self) -> (r: Result<
        Vec<(KnownCameraControl, CameraControl)>,
        NokhwaError,
    >)
        ensures
            r is Ok <==> self.spec_control_listing() is Ok,
            r is Err ==> r->Err_0 == self.spec_control_listing()->Err_0,
            r is Ok ==> r->Ok_0@ == controls_by_id(self.spec_readable_controls()),
    {
        match self.camera_controls() {
            Ok(controls) => Ok(controls_keyed_by_id(controls)),
            Err(e) => Err(e),
        }
    }

    /// The former name of [`Camera::camera_controls_by_name`].
    /// # Errors
    /// As [`Camera::camera_controls_by_name`].
    pub fn camera_controls_string(&self) -> (r: Result<Vec<(String, CameraControl)>, NokhwaError>)
        ensures
            r is Ok <==> self.spec_control_listing() is Ok,
            r is Err ==> r->Err_0 == self.spec_control_listing()->Err_0,
            r is Ok ==> named_pairs(r->Ok_0@, controls_by_id(self.spec_readable_controls())),
    {
        self.camera_controls_by_name()
    }

    /// The former name of [`Camera::camera_controls_by_id`].
    /// # Errors
    /// As [`Camera::camera_controls_by_id`].
    pub fn camera_controls_known_camera_controls(&self) -> (r: Result<
        Vec<(KnownCameraControl, CameraControl)>,
        NokhwaError,
    >)
        ensures
            r is Ok <==> self.spec_control_listing() is Ok,
            r is Err ==> r->Err_0 == self.spec_control_listing()->Err_0,
            r is Ok ==> r->Ok_0@ == controls_by_id(self.spec_readable_controls()),
    {
        self.camera_controls_by_id()
    }

    /// The control `control`.
    /// # Errors
    /// When it is unsupported or cannot be read.
    pub fn camera_control(&self, control: KnownCameraControl) -> (r: Result<
        CameraControl,
        NokhwaError,
    >)
        ensures
            r == self.spec_control_read(control),
            r is Ok ==> r->Ok_0.spec_control() == control,
    {
        self.device.camera_control(control)
    }

    /// Set control `id` to `value`.
    /// # Errors
    /// When it is unsupported or the value is refused.
    pub fn set_camera_control(&mut self, id: KnownCameraControl, value: ControlValueSetter) -> (r:
        Result<(), NokhwaError>)
        ensures
            final(self).spec_index() == old(self).spec_index(),
            final(self).spec_backend() == old(self).spec_backend(),
    {
        self.device.set_camera_control(id, value)
    }

    /// Start streaming.
    /// # Errors
    /// When the device cannot open the stream.
    pub fn open_stream(&mut self) -> (r: Result<(), NokhwaError>)
        ensures
            r is Ok ==> final(self).spec_stream_open(),
            final(self).spec_index() == old(self).spec_index(),
            final(self).spec_backend() == old(self).spec_backend(),
    {
        self.device.open_stream()
    }

    /// Whether the stream runs.
    pub fn is_stream_open(&self) -> (r: bool)
        ensures
            r == self.spec_stream_open(),
    {
        self.device.is_stream_open()
    }

    /// The next frame, untyped.
    /// # Errors
    /// When no frame can be read.
    pub fn frame(&mut self) -> (r: Result<Buffer, NokhwaError>)
        ensures
            final(self).spec_index() == old(self).spec_index(),
            final(self).spec_backend() == old(self).spec_backend(),
    {
        self.device.frame()
    }

    /// The next frame within `duration`: a zero duration times out at once,
    /// and a device that takes longer than `duration` gives a timeout too.
    /// # Errors
    /// [`NokhwaError::TimeoutError`] as above, else the device's error.
    pub fn frame_timeout(&mut self, duration: Duration) -> (r: Result<Buffer, NokhwaError>)
        ensures
            duration_is_zero(duration) ==> r == Err::<Buffer, NokhwaError>(
                NokhwaError::TimeoutError(duration),
            ),
            final(self).spec_index() == old(self).spec_index(),
            final(self).spec_backend() == old(self).spec_backend(),
    {
        if duration.is_zero() {
            return Err(NokhwaError::TimeoutError(duration));
        }
        let start = instant_now();
        let result = self.device.frame_timeout(duration);
        let late = duration_exceeds(instant_elapsed(&start), duration);
        timeout_outcome(duration, late, result)
    }

    /// The next frame's bytes, unprocessed.
    /// # Errors
    /// When no frame can be read.
    pub fn frame_raw(&mut self) -> (r: Result<Cow<'_, [u8]>, NokhwaError>)
        ensures
            final(self).spec_index() == old(self).spec_index(),
            final(self).spec_backend() == old(self).spec_backend(),
    {
        self.device.frame_raw()
    }

    /// Stop streaming.
    /// # Errors
    /// When the device cannot stop the stream.
    pub fn stop_stream(&mut self) -> (r: Result<(), NokhwaError>)
        ensures
            r is Ok ==> !final(self).spec_stream_open(),
            final(self).spec_index() == old(self).spec_index(),
            final(self).spec_backend() == old(self).spec_backend(),
    {
        self.device.stop_stream()
    }
}

} // verus!
