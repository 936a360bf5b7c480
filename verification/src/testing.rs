//! Deterministic in-memory implementations of the capability traits, for tests.
//! They do no I/O.

use crate::buffer::Buffer;
use crate::decode::vec_of_zeros;
use crate::error::{duration_is_zero, NokhwaError};
use crate::traits::{
    CallRecord, CameraDevice, CameraEvent, EventPoll, EventSource, FrameSource, ShutterCapture,
};
use crate::types::{
    decoded_width_spec, ApiBackend, CameraControl, CameraFormat, CameraIndex, CameraInfo,
    ControlValueSetter, FrameFormat, KnownCameraControl, Resolution,
};
use std::borrow::Cow;
use std::collections::VecDeque;
use std::sync::mpsc::Receiver;
use std::time::Duration;
use vstd::prelude::*;

verus! {

// ──────────────────────────────────────────────
// Fixtures
// ──────────────────────────────────────────────

/// `Duration::default`: a duration of zero time (std docs: the default is `Duration::ZERO`).
pub assume_specification[ <Duration as Default>::default ]() -> (r: Duration)
    ensures
        duration_is_zero(r),
;

/// The description [`mock_info`] gives for `index`.
pub open spec fn is_mock_info(info: CameraInfo, index: u32) -> bool {
    &&& info.human_name@ == "Mock Camera"@
    &&& info.description@ == "mock camera for tests"@
    &&& info.misc@ == "mock"@
    &&& info.index == CameraIndex::Index(index)
}

/// A fixed description of mock camera `index`.
pub fn mock_info(index: u32) -> (r: CameraInfo)
    ensures
        is_mock_info(r, index),
{
    CameraInfo::new("Mock Camera", "mock camera for tests", "mock", CameraIndex::Index(index))
}

/// A zero-filled buffer of `width * height * bpp` bytes, `bpp` being the
/// decoded pixel width of `format` (a coarse size, for fixtures only).
pub fn mock_frame(width: u32, height: u32, format: FrameFormat) -> (r: Buffer)
    requires
        width * height * decoded_width_spec(format) <= usize::MAX,
    ensures
        r.spec_resolution() == (Resolution { width_x: width, height_y: height }),
        r.spec_format() == format,
        r.spec_timestamp() is None,
        r.spec_data() == Seq::new(
            (width * height * decoded_width_spec(format)) as nat,
            |_i: int| 0u8,
        ),
{
    let bpp = format.decoded_pixel_byte_width();
    assert((width as usize) * (height as usize) <= usize::MAX) by (nonlinear_arith)
        requires
            width * height * bpp <= usize::MAX,
            1 <= bpp,
    ;
    let len = (width as usize) * (height as usize) * bpp;
    let data = vec_of_zeros(len);
    Buffer::from_vec(Resolution::new(width, height), data, format)
}

/// The record of a camera nothing was asked of yet.
pub open spec fn no_calls() -> CallRecord {
    CallRecord { control_set: None, frame_read: None, trigger: None, picture: None }
}

/// 640x480 YUYV at 30 fps.
pub open spec fn default_mock_format() -> CameraFormat {
    CameraFormat {
        resolution: Resolution { width_x: 640, height_y: 480 },
        format: FrameFormat::YUYV,
        frame_rate: 30,
    }
}

fn default_format() -> (r: CameraFormat)
    ensures
        r == default_mock_format(),
{
    CameraFormat::new(Resolution::new(640, 480), FrameFormat::YUYV, 30)
}

// ──────────────────────────────────────────────
// MockFrameSource
// ──────────────────────────────────────────────

/// A continuous-frame mock: frames pushed in come out of `frame()` in order.
pub struct MockFrameSource {
    info: CameraInfo,
    format: CameraFormat,
    is_open: bool,
    queue: VecDeque<Buffer>,
    calls: Ghost<CallRecord>,
}

impl MockFrameSource {
    /// The description.
    pub closed spec fn spec_info(&self) -> CameraInfo {
        self.info
    }

    /// The negotiated format.
    pub closed spec fn spec_format(&self) -> CameraFormat {
        self.format
    }

    /// Whether the stream is open.
    pub closed spec fn spec_open(&self) -> bool {
        self.is_open
    }

    /// The frames waiting, oldest first.
    pub closed spec fn spec_queue(&self) -> Seq<Buffer> {
        self.queue@
    }

    /// What the mock was asked.
    pub closed spec fn spec_record(&self) -> CallRecord {
        self.calls@
    }

    /// A closed mock of camera `index` in the default format with no frames.
    pub fn new(index: u32) -> (r: Self)
        ensures
            is_mock_info(r.spec_info(), index),
            r.spec_format() == default_mock_format(),
            !r.spec_open(),
            r.spec_queue() == Seq::<Buffer>::empty(),
            r.spec_record() == no_calls(),
    {
        MockFrameSource {
            info: mock_info(index),
            format: default_format(),
            is_open: false,
            queue: VecDeque::new(),
            calls: Ghost(no_calls()),
        }
    }

    /// Queue `frame` behind the others.
    pub fn push_frame(&mut self, frame: Buffer)
        ensures
            final(self).spec_queue() == old(self).spec_queue().push(frame),
            final(self).spec_info() == old(self).spec_info(),
            final(self).spec_format() == old(self).spec_format(),
            final(self).spec_open() == old(self).spec_open(),
            final(self).spec_record() == old(self).spec_record(),
    {
        self.queue.push_back(frame);
    }
}

impl Default for MockFrameSource {
    /// The mock of camera 0.
    fn default() -> (r: Self)
        ensures
            is_mock_info(r.spec_info(), 0),
            r.spec_format() == default_mock_format(),
            !r.spec_open(),
            r.spec_queue() == Seq::<Buffer>::empty(),
            r.spec_record() == no_calls(),
    {
        Self::new(0)
    }
}

impl CameraDevice for MockFrameSource {
    open spec fn spec_calls(&self) -> CallRecord {
        self.spec_record()
    }

    fn backend(&self) -> (r: ApiBackend)
        ensures
            r == ApiBackend::Browser,
    {
        ApiBackend::Browser
    }

    fn info(&self) -> (r: &CameraInfo)
        ensures
            *r == self.spec_info(),
    {
        &self.info
    }

    fn controls(&self) -> (r: Result<Vec<CameraControl>, NokhwaError>)
        ensures
            r is Ok && r->Ok_0.len() == 0,
    {
        Ok(Vec::new())
    }

    fn set_control(&mut self, id: KnownCameraControl, value: ControlValueSetter) -> (r: Result<
        (),
        NokhwaError,
    >)
        ensures
            r is Ok,
            final(self).spec_info() == old(self).spec_info(),
            final(self).spec_format() == old(self).spec_format(),
            final(self).spec_open() == old(self).spec_open(),
            final(self).spec_queue() == old(self).spec_queue(),
    {
        self.calls = Ghost(
            CallRecord { control_set: Some((id, value, Ok(()))), ..self.calls@ },
        );
        Ok(())
    }
}

impl FrameSource for MockFrameSource {
    open spec fn spec_negotiated_format(&self) -> CameraFormat {
        self.spec_format()
    }

    fn negotiated_format(&self) -> (r: CameraFormat)
        ensures
            r == self.spec_format(),
    {
        self.format
    }

    fn set_format(&mut self, f: CameraFormat) -> (r: Result<(), NokhwaError>)
        ensures
            r is Ok,
            final(self).spec_format() == f,
            final(self).spec_info() == old(self).spec_info(),
            final(self).spec_open() == old(self).spec_open(),
            final(self).spec_queue() == old(self).spec_queue(),
    {
        self.format = f;
        Ok(())
    }

    fn compatible_formats(&mut self) -> (r: Result<Vec<CameraFormat>, NokhwaError>)
        ensures
            r is Ok && r->Ok_0@ == seq![old(self).spec_format()],
            *final(self) == *old(self),
    {
        Ok(vec![self.format])
    }

    fn compatible_fourcc(&mut self) -> (r: Result<Vec<FrameFormat>, NokhwaError>)
        ensures
            r is Ok && r->Ok_0@ == seq![old(self).spec_format().format],
            *final(self) == *old(self),
    {
        Ok(vec![self.format.format()])
    }

    fn open(&mut self) -> (r: Result<(), NokhwaError>)
        ensures
            r is Ok,
            final(self).spec_open(),
            final(self).spec_info() == old(self).spec_info(),
            final(self).spec_format() == old(self).spec_format(),
            final(self).spec_queue() == old(self).spec_queue(),
    {
        self.is_open = true;
        Ok(())
    }

    fn is_open(&self) -> (r: bool)
        ensures
            r == self.spec_open(),
    {
        self.is_open
    }

    /// The oldest queued frame.
    fn frame(&mut self) -> (r: Result<Buffer, NokhwaError>)
        ensures
            old(self).spec_queue().len() > 0 ==> r == Ok::<Buffer, NokhwaError>(
                old(self).spec_queue()[0],
            ) && final(self).spec_queue() == old(self).spec_queue().drop_first(),
            old(self).spec_queue().len() == 0 ==> (r matches Err(NokhwaError::TimeoutError(d))
                && duration_is_zero(d)) && final(self).spec_queue() == old(self).spec_queue(),
            final(self).spec_info() == old(self).spec_info(),
            final(self).spec_format() == old(self).spec_format(),
            final(self).spec_open() == old(self).spec_open(),
    {
        let r = match self.queue.pop_front() {
            Some(buf) => Ok(buf),
            None => Err(NokhwaError::TimeoutError(Duration::default())),
        };
        self.calls = Ghost(CallRecord { frame_read: Some(r), ..self.calls@ });
        r
    }

    /// The bytes of the oldest queued frame.
    fn frame_raw(&mut self) -> (r: Result<Cow<'_, [u8]>, NokhwaError>)
        ensures
            old(self).spec_queue().len() > 0 ==> r is Ok && r->Ok_0@ == old(self).spec_queue()[0].spec_data() && final(self).spec_queue() == old(self).spec_queue().drop_first(),
            old(self).spec_queue().len() == 0 ==> (r matches Err(NokhwaError::TimeoutError(d))
                && duration_is_zero(d)) && final(self).spec_queue() == old(self).spec_queue(),
            final(self).spec_info() == old(self).spec_info(),
            final(self).spec_format() == old(self).spec_format(),
            final(self).spec_open() == old(self).spec_open(),
    {
        match self.queue.pop_front() {
            Some(buf) => Ok(Cow::Owned(vstd::slice::slice_to_vec(buf.buffer()))),
            None => Err(NokhwaError::TimeoutError(Duration::default())),
        }
    }

    fn close(&mut self) -> (r: Result<(), NokhwaError>)
        ensures
            r is Ok,
            !final(self).spec_open(),
            final(self).spec_info() == old(self).spec_info(),
            final(self).spec_format() == old(self).spec_format(),
            final(self).spec_queue() == old(self).spec_queue(),
    {
        self.is_open = false;
        Ok(())
    }
}


// ──────────────────────────────────────────────
// MockShutter
// ──────────────────────────────────────────────

/// A shutter mock: each `trigger()` moves the next picture of its pool to the
/// pending pictures, which `take_picture` hands out in order.
pub struct MockShutter {
    info: CameraInfo,
    triggered: VecDeque<Buffer>,
    pending: VecDeque<Buffer>,
    calls: Ghost<CallRecord>,
}

impl MockShutter {
    /// The description.
    pub closed spec fn spec_info(&self) -> CameraInfo {
        self.info
    }

    /// The pictures not yet triggered, next first.
    pub closed spec fn spec_pool(&self) -> Seq<Buffer> {
        self.triggered@
    }

    /// The pictures triggered but not yet taken, oldest first.
    pub closed spec fn spec_pending(&self) -> Seq<Buffer> {
        self.pending@
    }

    /// What the mock was asked.
    pub closed spec fn spec_record(&self) -> CallRecord {
        self.calls@
    }

    /// A mock of camera 0 whose triggers draw from `pictures` in order.
    pub fn new(pictures: Vec<Buffer>) -> (r: Self)
        ensures
            is_mock_info(r.spec_info(), 0),
            r.spec_pool() == pictures@,
            r.spec_pending() == Seq::<Buffer>::empty(),
            r.spec_record() == no_calls(),
    {
        let ghost all = pictures@;
        let mut pool: VecDeque<Buffer> = VecDeque::new();
        let mut rest = pictures;
        while rest.len() > 0
            invariant
                pool@ + rest@ == all,
            decreases rest.len(),
        {
            let ghost before = rest@;
            let p = rest.remove(0);
            pool.push_back(p);
            assert(pool@ + rest@ =~= all);
        }
        assert(pool@ =~= all);
        MockShutter {
            info: mock_info(0),
            triggered: pool,
            pending: VecDeque::new(),
            calls: Ghost(no_calls()),
        }
    }
}

impl CameraDevice for MockShutter {
    open spec fn spec_calls(&self) -> CallRecord {
        self.spec_record()
    }

    fn backend(&self) -> (r: ApiBackend)
        ensures
            r == ApiBackend::Browser,
    {
        ApiBackend::Browser
    }

    fn info(&self) -> (r: &CameraInfo)
        ensures
            *r == self.spec_info(),
    {
        &self.info
    }

    fn controls(&self) -> (r: Result<Vec<CameraControl>, NokhwaError>)
        ensures
            r is Ok && r->Ok_0.len() == 0,
    {
        Ok(Vec::new())
    }

    fn set_control(&mut self, id: KnownCameraControl, value: ControlValueSetter) -> (r: Result<
        (),
        NokhwaError,
    >)
        ensures
            r is Ok,
            final(self).spec_info() == old(self).spec_info(),
            final(self).spec_pool() == old(self).spec_pool(),
            final(self).spec_pending() == old(self).spec_pending(),
    {
        self.calls = Ghost(
            CallRecord { control_set: Some((id, value, Ok(()))), ..self.calls@ },
        );
        Ok(())
    }
}

impl ShutterCapture for MockShutter {
    /// Move the next pool picture, if any, to the pending pictures.
    fn trigger(&mut self) -> (r: Result<(), NokhwaError>)
        ensures
            r is Ok,
            final(self).spec_info() == old(self).spec_info(),
            old(self).spec_pool().len() > 0 ==> final(self).spec_pool() == old(self).spec_pool().drop_first() && final(self).spec_pending() == old(self).spec_pending().push(old(self).spec_pool()[0]),
            old(self).spec_pool().len() == 0 ==> final(self).spec_pool() == old(self).spec_pool()
                && final(self).spec_pending() == old(self).spec_pending(),
    {
        match self.triggered.pop_front() {
            Some(pic) => self.pending.push_back(pic),
            None => {},
        }
        self.calls = Ghost(CallRecord { trigger: Some(Ok(())), ..self.calls@ });
        Ok(())
    }

    /// The oldest pending picture.
    fn take_picture(&mut self, timeout: Duration) -> (r: Result<Buffer, NokhwaError>)
        ensures
            final(self).spec_info() == old(self).spec_info(),
            final(self).spec_pool() == old(self).spec_pool(),
            old(self).spec_pending().len() > 0 ==> r == Ok::<Buffer, NokhwaError>(
                old(self).spec_pending()[0],
            ) && final(self).spec_pending() == old(self).spec_pending().drop_first(),
            old(self).spec_pending().len() == 0 ==> r == Err::<Buffer, NokhwaError>(
                NokhwaError::TimeoutError(timeout),
            ) && final(self).spec_pending() == old(self).spec_pending(),
    {
        let r = match self.pending.pop_front() {
            Some(pic) => Ok(pic),
            None => Err(NokhwaError::TimeoutError(timeout)),
        };
        self.calls = Ghost(CallRecord { picture: Some((timeout, r)), ..self.calls@ });
        r
    }
}

// ──────────────────────────────────────────────
// MockHybrid
// ──────────────────────────────────────────────

/// A mock with both a frame stream and a shutter, each independent of the other.
pub struct MockHybrid {
    frames: MockFrameSource,
    shutter: MockShutter,
}

impl MockHybrid {
    /// The frame-stream part.
    pub closed spec fn spec_frames(&self) -> MockFrameSource {
        self.frames
    }

    /// The shutter part.
    pub closed spec fn spec_shutter(&self) -> MockShutter {
        self.shutter
    }

    /// A frame-stream mock of camera `index` with a shutter drawing from `pictures`.
    pub fn new(index: u32, pictures: Vec<Buffer>) -> (r: Self)
        ensures
            is_mock_info(r.spec_frames().spec_info(), index),
            r.spec_frames().spec_format() == default_mock_format(),
            !r.spec_frames().spec_open(),
            r.spec_frames().spec_queue() == Seq::<Buffer>::empty(),
            r.spec_shutter().spec_pool() == pictures@,
            r.spec_shutter().spec_pending() == Seq::<Buffer>::empty(),
    {
        MockHybrid { frames: MockFrameSource::new(index), shutter: MockShutter::new(pictures) }
    }

    /// Queue `frame` on the frame stream.
    pub fn push_frame(&mut self, frame: Buffer)
        ensures
            final(self).spec_frames().spec_queue() == old(self).spec_frames().spec_queue().push(
                frame,
            ),
            final(self).spec_frames().spec_info() == old(self).spec_frames().spec_info(),
            final(self).spec_frames().spec_format() == old(self).spec_frames().spec_format(),
            final(self).spec_frames().spec_open() == old(self).spec_frames().spec_open(),
            final(self).spec_shutter() == old(self).spec_shutter(),
    {
        self.frames.push_frame(frame);
    }
}

impl CameraDevice for MockHybrid {
    open spec fn spec_calls(&self) -> CallRecord {
        CallRecord {
            control_set: self.spec_frames().spec_record().control_set,
            frame_read: self.spec_frames().spec_record().frame_read,
            trigger: self.spec_shutter().spec_record().trigger,
            picture: self.spec_shutter().spec_record().picture,
        }
    }

    fn backend(&self) -> (r: ApiBackend)
        ensures
            r == ApiBackend::Browser,
    {
        self.frames.backend()
    }

    fn info(&self) -> (r: &CameraInfo)
        ensures
            *r == self.spec_frames().spec_info(),
    {
        self.frames.info()
    }

    fn controls(&self) -> (r: Result<Vec<CameraControl>, NokhwaError>)
        ensures
            r is Ok && r->Ok_0.len() == 0,
    {
        self.frames.controls()
    }

    fn set_control(&mut self, id: KnownCameraControl, value: ControlValueSetter) -> (r: Result<
        (),
        NokhwaError,
    >)
        ensures
            r is Ok,
            final(self).spec_frames().spec_info() == old(self).spec_frames().spec_info(),
            final(self).spec_frames().spec_format() == old(self).spec_frames().spec_format(),
            final(self).spec_frames().spec_open() == old(self).spec_frames().spec_open(),
            final(self).spec_frames().spec_queue() == old(self).spec_frames().spec_queue(),
            final(self).spec_shutter() == old(self).spec_shutter(),
    {
        self.frames.set_control(id, value)
    }
}

impl FrameSource for MockHybrid {
    open spec fn spec_negotiated_format(&self) -> CameraFormat {
        self.spec_frames().spec_format()
    }

    fn negotiated_format(&self) -> (r: CameraFormat)
        ensures
            r == self.spec_frames().spec_format(),
    {
        self.frames.negotiated_format()
    }

    fn set_format(&mut self, f: CameraFormat) -> (r: Result<(), NokhwaError>)
        ensures
            r is Ok,
            final(self).spec_frames().spec_format() == f,
            final(self).spec_frames().spec_info() == old(self).spec_frames().spec_info(),
            final(self).spec_frames().spec_open() == old(self).spec_frames().spec_open(),
            final(self).spec_frames().spec_queue() == old(self).spec_frames().spec_queue(),
            final(self).spec_shutter() == old(self).spec_shutter(),
    {
        self.frames.set_format(f)
    }

    fn compatible_formats(&mut self) -> (r: Result<Vec<CameraFormat>, NokhwaError>)
        ensures
            r is Ok && r->Ok_0@ == seq![old(self).spec_frames().spec_format()],
            *final(self) == *old(self),
    {
        self.frames.compatible_formats()
    }

    fn compatible_fourcc(&mut self) -> (r: Result<Vec<FrameFormat>, NokhwaError>)
        ensures
            r is Ok && r->Ok_0@ == seq![old(self).spec_frames().spec_format().format],
            *final(self) == *old(self),
    {
        self.frames.compatible_fourcc()
    }

    fn open(&mut self) -> (r: Result<(), NokhwaError>)
        ensures
            r is Ok,
            final(self).spec_frames().spec_open(),
            final(self).spec_frames().spec_info() == old(self).spec_frames().spec_info(),
            final(self).spec_frames().spec_format() == old(self).spec_frames().spec_format(),
            final(self).spec_frames().spec_queue() == old(self).spec_frames().spec_queue(),
            final(self).spec_shutter() == old(self).spec_shutter(),
    {
        self.frames.open()
    }

    fn is_open(&self) -> (r: bool)
        ensures
            r == self.spec_frames().spec_open(),
    {
        self.frames.is_open()
    }

    fn frame(&mut self) -> (r: Result<Buffer, NokhwaError>)
        ensures
            old(self).spec_frames().spec_queue().len() > 0 ==> r == Ok::<Buffer, NokhwaError>(
                old(self).spec_frames().spec_queue()[0],
            ) && final(self).spec_frames().spec_queue() == old(self).spec_frames().spec_queue().drop_first(),
            old(self).spec_frames().spec_queue().len() == 0 ==> (r matches Err(NokhwaError::TimeoutError(d)) && duration_is_zero(d)) && final(self).spec_frames().spec_queue() == old(self).spec_frames().spec_queue(),
            final(self).spec_frames().spec_open() == old(self).spec_frames().spec_open(),
            final(self).spec_shutter() == old(self).spec_shutter(),
    {
        self.frames.frame()
    }

    fn frame_raw(&mut self) -> (r: Result<Cow<'_, [u8]>, NokhwaError>)
        ensures
            old(self).spec_frames().spec_queue().len() > 0 ==> r is Ok && r->Ok_0@ == old(self).spec_frames().spec_queue()[0].spec_data(),
            old(self).spec_frames().spec_queue().len() == 0 ==> r is Err,
            final(self).spec_shutter() == old(self).spec_shutter(),
    {
        self.frames.frame_raw()
    }

    fn close(&mut self) -> (r: Result<(), NokhwaError>)
        ensures
            r is Ok,
            !final(self).spec_frames().spec_open(),
            final(self).spec_frames().spec_queue() == old(self).spec_frames().spec_queue(),
            final(self).spec_shutter() == old(self).spec_shutter(),
    {
        self.frames.close()
    }
}

impl ShutterCapture for MockHybrid {
    fn trigger(&mut self) -> (r: Result<(), NokhwaError>)
        ensures
            r is Ok,
            final(self).spec_frames() == old(self).spec_frames(),
            old(self).spec_shutter().spec_pool().len() > 0 ==> final(self).spec_shutter().spec_pending() == old(self).spec_shutter().spec_pending().push(
                old(self).spec_shutter().spec_pool()[0],
            ),
    {
        self.shutter.trigger()
    }

    fn take_picture(&mut self, timeout: Duration) -> (r: Result<Buffer, NokhwaError>)
        ensures
            final(self).spec_frames() == old(self).spec_frames(),
            old(self).spec_shutter().spec_pending().len() > 0 ==> r == Ok::<Buffer, NokhwaError>(
                old(self).spec_shutter().spec_pending()[0],
            ),
            old(self).spec_shutter().spec_pending().len() == 0 ==> r == Err::<Buffer, NokhwaError>(
                NokhwaError::TimeoutError(timeout),
            ),
    {
        self.shutter.take_picture(timeout)
    }
}

// ──────────────────────────────────────────────
// Event polling over a channel
// ──────────────────────────────────────────────

/// `Receiver::try_recv`: the next message if one is waiting, without blocking;
/// what comes back depends on the other threads, so nothing is stated of it.
#[verifier::external_body]
fn receiver_try_recv(rx: &Receiver<CameraEvent>) -> (r: Option<CameraEvent>) {
    rx.try_recv().ok()
}

/// `Receiver::recv_timeout`: the next message, waiting up to `d`; what comes
/// back depends on the other threads and the clock, so nothing is stated of it.
#[verifier::external_body]
fn receiver_recv_timeout(rx: &Receiver<CameraEvent>, d: Duration) -> (r: Option<CameraEvent>) {
    rx.recv_timeout(d).ok()
}

/// An [`EventPoll`] over a channel receiver.
pub struct MpscEventPoll {
    rx: Receiver<CameraEvent>,
    last_wait: Ghost<Option<(Duration, Option<CameraEvent>)>>,
}

impl MpscEventPoll {
    /// The receiver polled.
    pub closed spec fn spec_receiver(&self) -> Receiver<CameraEvent> {
        self.rx
    }

    /// The last wait and its answer.
    pub closed spec fn spec_waited(&self) -> Option<(Duration, Option<CameraEvent>)> {
        self.last_wait@
    }

    /// Poll `rx`.
    pub fn new(rx: Receiver<CameraEvent>) -> (r: Self)
        ensures
            r.spec_receiver() == rx,
            r.spec_waited() is None,
    {
        MpscEventPoll { rx, last_wait: Ghost(None) }
    }
}

impl EventPoll for MpscEventPoll {
    open spec fn spec_last_wait(&self) -> Option<(Duration, Option<CameraEvent>)> {
        self.spec_waited()
    }

    fn try_next(&mut self) -> (r: Option<CameraEvent>)
        ensures
            final(self).spec_receiver() == old(self).spec_receiver(),
    {
        receiver_try_recv(&self.rx)
    }

    fn next_timeout(&mut self, d: Duration) -> (r: Option<CameraEvent>)
        ensures
            final(self).spec_receiver() == old(self).spec_receiver(),
    {
        let r = receiver_recv_timeout(&self.rx, d);
        self.last_wait = Ghost(Some((d, r)));
        r
    }
}

// ──────────────────────────────────────────────
// MockEventfulFrameSource
// ──────────────────────────────────────────────

/// A frame-stream mock that also hands out an event poller, once.
pub struct MockEventfulFrameSource {
    inner: MockFrameSource,
    poll: Option<Box<dyn EventPoll>>,
}

impl MockEventfulFrameSource {
    /// The frame-stream part.
    pub closed spec fn spec_inner(&self) -> MockFrameSource {
        self.inner
    }

    /// Whether the poller is still there to take.
    pub closed spec fn spec_has_poll(&self) -> bool {
        self.poll is Some
    }

    /// A frame-stream mock of camera `index` that hands out `poll` on the
    /// first `take_events()`.
    pub fn new(index: u32, poll: Box<dyn EventPoll>) -> (r: Self)
        ensures
            is_mock_info(r.spec_inner().spec_info(), index),
            r.spec_inner().spec_format() == default_mock_format(),
            !r.spec_inner().spec_open(),
            r.spec_inner().spec_queue() == Seq::<Buffer>::empty(),
            r.spec_has_poll(),
    {
        MockEventfulFrameSource { inner: MockFrameSource::new(index), poll: Some(poll) }
    }

    /// Queue `frame` on the frame stream.
    pub fn push_frame(&mut self, frame: Buffer)
        ensures
            final(self).spec_inner().spec_queue() == old(self).spec_inner().spec_queue().push(
                frame,
            ),
            final(self).spec_inner().spec_info() == old(self).spec_inner().spec_info(),
            final(self).spec_inner().spec_format() == old(self).spec_inner().spec_format(),
            final(self).spec_inner().spec_open() == old(self).spec_inner().spec_open(),
            final(self).spec_has_poll() == old(self).spec_has_poll(),
    {
        self.inner.push_frame(frame);
    }
}

impl CameraDevice for MockEventfulFrameSource {
    open spec fn spec_calls(&self) -> CallRecord {
        self.spec_inner().spec_record()
    }

    fn backend(&self) -> (r: ApiBackend)
        ensures
            r == ApiBackend::Browser,
    {
        self.inner.backend()
    }

    fn info(&self) -> (r: &CameraInfo)
        ensures
            *r == self.spec_inner().spec_info(),
    {
        self.inner.info()
    }

    fn controls(&self) -> (r: Result<Vec<CameraControl>, NokhwaError>)
        ensures
            r is Ok && r->Ok_0.len() == 0,
    {
        self.inner.controls()
    }

    fn set_control(&mut self, id: KnownCameraControl, value: ControlValueSetter) -> (r: Result<
        (),
        NokhwaError,
    >)
        ensures
            r is Ok,
            final(self).spec_inner().spec_info() == old(self).spec_inner().spec_info(),
            final(self).spec_inner().spec_format() == old(self).spec_inner().spec_format(),
            final(self).spec_inner().spec_open() == old(self).spec_inner().spec_open(),
            final(self).spec_inner().spec_queue() == old(self).spec_inner().spec_queue(),
            final(self).spec_has_poll() == old(self).spec_has_poll(),
    {
        self.inner.set_control(id, value)
    }
}

impl FrameSource for MockEventfulFrameSource {
    open spec fn spec_negotiated_format(&self) -> CameraFormat {
        self.spec_inner().spec_format()
    }

    fn negotiated_format(&self) -> (r: CameraFormat)
        ensures
            r == self.spec_inner().spec_format(),
    {
        self.inner.negotiated_format()
    }

    fn set_format(&mut self, f: CameraFormat) -> (r: Result<(), NokhwaError>)
        ensures
            r is Ok,
            final(self).spec_inner().spec_format() == f,
            final(self).spec_inner().spec_open() == old(self).spec_inner().spec_open(),
            final(self).spec_inner().spec_queue() == old(self).spec_inner().spec_queue(),
            final(self).spec_has_poll() == old(self).spec_has_poll(),
    {
        self.inner.set_format(f)
    }

    fn compatible_formats(&mut self) -> (r: Result<Vec<CameraFormat>, NokhwaError>)
        ensures
            r is Ok && r->Ok_0@ == seq![old(self).spec_inner().spec_format()],
            final(self).spec_inner() == old(self).spec_inner(),
            final(self).spec_has_poll() == old(self).spec_has_poll(),
    {
        self.inner.compatible_formats()
    }

    fn compatible_fourcc(&mut self) -> (r: Result<Vec<FrameFormat>, NokhwaError>)
        ensures
            r is Ok && r->Ok_0@ == seq![old(self).spec_inner().spec_format().format],
            final(self).spec_inner() == old(self).spec_inner(),
            final(self).spec_has_poll() == old(self).spec_has_poll(),
    {
        self.inner.compatible_fourcc()
    }

    fn open(&mut self) -> (r: Result<(), NokhwaError>)
        ensures
            r is Ok,
            final(self).spec_inner().spec_open(),
            final(self).spec_inner().spec_queue() == old(self).spec_inner().spec_queue(),
            final(self).spec_has_poll() == old(self).spec_has_poll(),
    {
        self.inner.open()
    }

    fn is_open(&self) -> (r: bool)
        ensures
            r == self.spec_inner().spec_open(),
    {
        self.inner.is_open()
    }

    fn frame(&mut self) -> (r: Result<Buffer, NokhwaError>)
        ensures
            old(self).spec_inner().spec_queue().len() > 0 ==> r == Ok::<Buffer, NokhwaError>(
                old(self).spec_inner().spec_queue()[0],
            ) && final(self).spec_inner().spec_queue() == old(self).spec_inner().spec_queue().drop_first(),
            old(self).spec_inner().spec_queue().len() == 0 ==> (r matches Err(NokhwaError::TimeoutError(d)) && duration_is_zero(d)),
            final(self).spec_has_poll() == old(self).spec_has_poll(),
    {
        self.inner.frame()
    }

    fn frame_raw(&mut self) -> (r: Result<Cow<'_, [u8]>, NokhwaError>)
        ensures
            old(self).spec_inner().spec_queue().len() > 0 ==> r is Ok && r->Ok_0@ == old(self).spec_inner().spec_queue()[0].spec_data(),
            old(self).spec_inner().spec_queue().len() == 0 ==> (r matches Err(NokhwaError::TimeoutError(d)) && duration_is_zero(d)),
            final(self).spec_has_poll() == old(self).spec_has_poll(),
    {
        self.inner.frame_raw()
    }

    fn close(&mut self) -> (r: Result<(), NokhwaError>)
        ensures
            r is Ok,
            !final(self).spec_inner().spec_open(),
            final(self).spec_inner().spec_queue() == old(self).spec_inner().spec_queue(),
            final(self).spec_has_poll() == old(self).spec_has_poll(),
    {
        self.inner.close()
    }
}

impl EventSource for MockEventfulFrameSource {
    /// The poller on the first call; afterwards an unsupported-operation error.
    fn take_events(&mut self) -> (r: Result<Box<dyn EventPoll>, NokhwaError>)
        ensures
            old(self).spec_has_poll() <==> r is Ok,
            r is Err ==> r->Err_0 == NokhwaError::UnsupportedOperationError(ApiBackend::Browser),
            !final(self).spec_has_poll(),
            final(self).spec_inner() == old(self).spec_inner(),
    {
        match self.poll.take() {
            Some(p) => Ok(p),
            None => Err(NokhwaError::UnsupportedOperationError(ApiBackend::Browser)),
        }
    }
}

} // verus!
