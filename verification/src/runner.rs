//! The channel side of a background capture runner: its configuration, the
//! producer half of each delivery channel with its overflow policy, and the
//! drop-oldest buffer that a relay keeps between producer and consumer.
//! Threads are started by the caller.

use crate::buffer::Buffer;
use crate::traits::{CameraEvent, EventPoll, FrameSource, ShutterCapture};
use crate::types::{ControlValueSetter, KnownCameraControl};
use std::collections::VecDeque;
use std::sync::mpsc::{Receiver, Sender, SyncSender};
use std::time::Duration;
use vstd::prelude::*;

verus! {

// ──────────────────────────────────────────────
// Configuration
// ──────────────────────────────────────────────

/// What to do when a bounded channel is full.
#[derive(Debug, Clone, Copy, PartialEq, Eq, Structural)]
pub enum Overflow {
    /// Drop the new item and keep the backlog.
    DropNewest,
    /// Drop the oldest buffered item to make room for the new one (through a relay).
    DropOldest,
    /// Wait until the consumer makes room.
    Block,
}

impl Default for Overflow {
    /// [`Overflow::DropNewest`].
    fn default() -> (r: Self)
        ensures
            r == Overflow::DropNewest,
    {
        Overflow::DropNewest
    }
}

/// The duration of `ms` milliseconds.
pub uninterp spec fn millis_duration(ms: u64) -> Duration;

/// The duration of `s` seconds.
pub uninterp spec fn secs_duration(s: u64) -> Duration;

/// `Duration::from_millis`: the duration of `millis` milliseconds (a pure function of it).
pub assume_specification[ Duration::from_millis ](millis: u64) -> (r: Duration)
    ensures
        r == millis_duration(millis),
;

/// `Duration::from_secs`: the duration of `secs` seconds (a pure function of it).
pub assume_specification[ Duration::from_secs ](secs: u64) -> (r: Duration)
    ensures
        r == secs_duration(secs),
;

/// How a runner polls and buffers.
#[derive(Debug, Clone, Copy)]
pub struct RunnerConfig {
    /// Pause after a failed `frame()`; for a shutter, the command wait.
    pub poll_interval: Duration,
    /// Wait passed to the event poller.
    pub event_tick: Duration,
    /// Wait for a picture after a trigger.
    pub shutter_timeout: Duration,
    /// Frames channel capacity, `0` for unbounded.
    pub frames_capacity: usize,
    /// Pictures channel capacity, `0` for unbounded.
    pub pictures_capacity: usize,
    /// Events channel capacity, `0` for unbounded.
    pub events_capacity: usize,
    /// Policy of the bounded channels.
    pub overflow: Overflow,
}

impl Default for RunnerConfig {
    /// 10 ms polling, 50 ms event ticks, 5 s shutter wait, capacities 4 / 8 /
    /// 32, dropping the newest item on overflow.
    fn default() -> (r: Self)
        ensures
            r.poll_interval == millis_duration(10),
            r.event_tick == millis_duration(50),
            r.shutter_timeout == secs_duration(5),
            r.frames_capacity == 4,
            r.pictures_capacity == 8,
            r.events_capacity == 32,
            r.overflow == Overflow::DropNewest,
    {
        RunnerConfig {
            poll_interval: Duration::from_millis(10),
            event_tick: Duration::from_millis(50),
            shutter_timeout: Duration::from_secs(5),
            frames_capacity: 4,
            pictures_capacity: 8,
            events_capacity: 32,
            overflow: Overflow::DropNewest,
        }
    }
}

// ──────────────────────────────────────────────
// Channels
// ──────────────────────────────────────────────

/// The sending end of an unbounded `std::sync::mpsc` channel.
#[verifier::external_type_specification]
#[verifier::external_body]
#[verifier::reject_recursive_types(T)]
pub struct ExSender<T>(Sender<T>);

/// The sending end of a bounded `std::sync::mpsc` channel.
#[verifier::external_type_specification]
#[verifier::external_body]
#[verifier::reject_recursive_types(T)]
pub struct ExSyncSender<T>(SyncSender<T>);

/// The receiving end of a `std::sync::mpsc` channel.
#[verifier::external_type_specification]
#[verifier::external_body]
#[verifier::reject_recursive_types(T)]
pub struct ExReceiver<T>(Receiver<T>);

/// How a channel answered an item handed to it.
#[derive(Debug, Clone, Copy, PartialEq, Eq, Structural)]
pub enum SendReport {
    /// The channel took the item.
    Queued,
    /// The channel was full and the item came back (non-blocking send only).
    Full,
    /// The receiver is gone.
    Gone,
}

/// The sending end of an unbounded channel, with the items handed to it and
/// the channel's answers, oldest first.
#[verifier::reject_recursive_types(T)]
pub struct LoggedSender<T> {
    inner: Sender<T>,
    handed: Ghost<Seq<(T, SendReport)>>,
}

impl<T> LoggedSender<T> {
    /// The items handed to the channel, with its answers, oldest first.
    pub closed spec fn spec_handed(&self) -> Seq<(T, SendReport)> {
        self.handed@
    }
}

/// The sending end of a bounded channel, with the bound it was made with and
/// the items handed to it with the channel's answers, oldest first.
#[verifier::reject_recursive_types(T)]
pub struct LoggedSyncSender<T> {
    inner: SyncSender<T>,
    bound: Ghost<nat>,
    handed: Ghost<Seq<(T, SendReport)>>,
}

impl<T> LoggedSyncSender<T> {
    /// The items handed to the channel, with its answers, oldest first.
    pub closed spec fn spec_handed(&self) -> Seq<(T, SendReport)> {
        self.handed@
    }

    /// The most items the channel holds.
    pub closed spec fn spec_bound(&self) -> nat {
        self.bound@
    }

    /// The std sender itself.
    pub fn into_inner(self) -> SyncSender<T> {
        self.inner
    }
}

/// `std::sync::mpsc::channel`: a new unbounded channel, nothing handed to it yet.
#[verifier::external_body]
fn unbounded_channel<T>() -> (r: (LoggedSender<T>, Receiver<T>))
    ensures
        r.0.spec_handed() == Seq::<(T, SendReport)>::empty(),
{
    let (tx, rx) = std::sync::mpsc::channel();
    (LoggedSender { inner: tx, handed: Ghost(Seq::empty()) }, rx)
}

/// `std::sync::mpsc::sync_channel(capacity)`: a new channel holding at most
/// `capacity` items, nothing handed to it yet.
#[verifier::external_body]
fn bounded_channel<T>(capacity: usize) -> (r: (LoggedSyncSender<T>, Receiver<T>))
    ensures
        r.0.spec_bound() == capacity,
        r.0.spec_handed() == Seq::<(T, SendReport)>::empty(),
{
    let (tx, rx) = std::sync::mpsc::sync_channel(capacity);
    (LoggedSyncSender { inner: tx, bound: Ghost(capacity as nat), handed: Ghost(Seq::empty()) }, rx)
}

/// `Sender::send`: hands `item` to the channel; `Err` once the receiver is
/// gone. Which answer comes depends on the other side; the item handed and
/// the answer are added to the log.
#[verifier::external_body]
fn sender_send<T>(tx: &mut LoggedSender<T>, item: T) -> (r: Result<(), ()>)
    ensures
        final(tx).spec_handed() == old(tx).spec_handed().push(
            (item, if r is Ok { SendReport::Queued } else { SendReport::Gone }),
        ),
{
    match tx.inner.send(item) {
        Ok(()) => Ok(()),
        Err(_) => Err(()),
    }
}

/// `SyncSender::send`: hands `item` to the channel, waiting for room; `Err`
/// once the receiver is gone. Which answer comes depends on the other side;
/// the item handed and the answer are added to the log.
#[verifier::external_body]
fn sync_sender_send<T>(tx: &mut LoggedSyncSender<T>, item: T) -> (r: Result<(), ()>)
    ensures
        final(tx).spec_bound() == old(tx).spec_bound(),
        final(tx).spec_handed() == old(tx).spec_handed().push(
            (item, if r is Ok { SendReport::Queued } else { SendReport::Gone }),
        ),
{
    match tx.inner.send(item) {
        Ok(()) => Ok(()),
        Err(_) => Err(()),
    }
}

/// The outcome of a non-blocking send on a bounded channel.
pub enum SendAttempt<T> {
    /// The item was queued.
    Sent,
    /// The channel was full; the item comes back.
    Full(T),
    /// The receiver is gone.
    Disconnected,
}

/// The answer an attempt reports.
pub open spec fn attempt_report<T>(a: SendAttempt<T>) -> SendReport {
    match a {
        SendAttempt::Sent => SendReport::Queued,
        SendAttempt::Full(_) => SendReport::Full,
        SendAttempt::Disconnected => SendReport::Gone,
    }
}

/// `SyncSender::try_send`, its error told apart by variant: hands `item` to
/// the channel without waiting; a full channel gives the item back. Which
/// outcome comes depends on the other side; the item handed and the answer
/// are added to the log.
#[verifier::external_body]
fn sync_sender_try_send<T>(tx: &mut LoggedSyncSender<T>, item: T) -> (r: SendAttempt<T>)
    ensures
        final(tx).spec_bound() == old(tx).spec_bound(),
        final(tx).spec_handed() == old(tx).spec_handed().push((item, attempt_report(r))),
        r matches SendAttempt::Full(x) ==> x == item,
{
    match tx.inner.try_send(item) {
        Ok(()) => SendAttempt::Sent,
        Err(std::sync::mpsc::TrySendError::Full(x)) => SendAttempt::Full(x),
        Err(std::sync::mpsc::TrySendError::Disconnected(_)) => SendAttempt::Disconnected,
    }
}

/// What sending with the drop-newest policy reports: a full channel is no
/// error, only a vanished receiver is.
pub fn drop_newest_result<T>(attempt: SendAttempt<T>) -> (r: Result<(), ()>)
    ensures
        r is Err <==> attempt is Disconnected,
{
    match attempt {
        SendAttempt::Sent => Ok(()),
        SendAttempt::Full(_) => Ok(()),
        SendAttempt::Disconnected => Err(()),
    }
}

/// The producer half of a runner channel.
#[verifier::reject_recursive_types(T)]
pub enum Tx<T> {
    /// Unbounded.
    Unbounded(LoggedSender<T>),
    /// Bounded; a full channel drops the new item.
    BoundedDropNewest(LoggedSyncSender<T>),
    /// Bounded, feeding a relay that drops the oldest item when full.
    BoundedDropOldest(LoggedSyncSender<T>),
    /// Bounded; a full channel makes the producer wait.
    BoundedBlock(LoggedSyncSender<T>),
}

/// `after` is `before` with one more entry, for `item`.
pub open spec fn handed_one<T>(before: Seq<(T, SendReport)>, after: Seq<(T, SendReport)>, item: T) -> bool {
    &&& after.len() == before.len() + 1
    &&& after.drop_last() == before
    &&& after.last().0 == item
}

impl<T> Tx<T> {
    /// The items handed to the channel, with its answers, oldest first.
    pub open spec fn spec_handed(&self) -> Seq<(T, SendReport)> {
        match self {
            Tx::Unbounded(s) => s.spec_handed(),
            Tx::BoundedDropNewest(s) => s.spec_handed(),
            Tx::BoundedDropOldest(s) => s.spec_handed(),
            Tx::BoundedBlock(s) => s.spec_handed(),
        }
    }

    /// The channel's bound; none for an unbounded channel.
    pub open spec fn spec_bound(&self) -> Option<nat> {
        match self {
            Tx::Unbounded(_) => None,
            Tx::BoundedDropNewest(s) => Some(s.spec_bound()),
            Tx::BoundedDropOldest(s) => Some(s.spec_bound()),
            Tx::BoundedBlock(s) => Some(s.spec_bound()),
        }
    }

    /// Send `item`: `try_send` under drop-newest, where a full channel drops
    /// it; a waiting `send` otherwise. Only a vanished consumer is an error
    /// (the worker stops on it).
    pub fn send(&mut self, item: T) -> (r: Result<(), ()>)
        ensures
            tx_kind(*final(self)) == tx_kind(*old(self)),
            final(self).spec_bound() == old(self).spec_bound(),
            handed_one(old(self).spec_handed(), final(self).spec_handed(), item),
            r is Err <==> final(self).spec_handed().last().1 == SendReport::Gone,
            tx_kind(*old(self)) != 1 ==> final(self).spec_handed().last().1 != SendReport::Full,
    {
        let ghost before = self.spec_handed();
        let r = match self {
            Tx::Unbounded(tx) => sender_send(tx, item),
            Tx::BoundedDropNewest(tx) => drop_newest_result(sync_sender_try_send(tx, item)),
            Tx::BoundedDropOldest(tx) => sync_sender_send(tx, item),
            Tx::BoundedBlock(tx) => sync_sender_send(tx, item),
        };
        proof {
            assert(self.spec_handed().drop_last() =~= before);
        }
        r
    }
}

// ──────────────────────────────────────────────
// Drop-oldest relay buffer
// ──────────────────────────────────────────────

/// What [`RelayBuffer::accept`] leaves: the newest `capacity` items, in order.
pub open spec fn accepted<T>(buffered: Seq<T>, capacity: nat, item: T) -> Seq<T> {
    if buffered.len() >= capacity {
        buffered.drop_first().push(item)
    } else {
        buffered.push(item)
    }
}

/// The items a drop-oldest relay holds between its producer and the consumer,
/// never more than its capacity.
pub struct RelayBuffer<T> {
    buf: VecDeque<T>,
    capacity: usize,
}

impl<T> RelayBuffer<T> {
    /// The buffered items, oldest first.
    pub closed spec fn items(&self) -> Seq<T> {
        self.buf@
    }

    /// The most items held.
    pub closed spec fn spec_capacity(&self) -> nat {
        self.capacity as nat
    }

    /// A positive capacity, never exceeded.
    pub open spec fn wf(&self) -> bool {
        0 < self.spec_capacity() && self.items().len() <= self.spec_capacity()
    }

    /// An empty buffer of `capacity` items.
    pub fn new(capacity: usize) -> (r: Self)
        requires
            capacity > 0,
        ensures
            r.wf(),
            r.items() == Seq::<T>::empty(),
            r.spec_capacity() == capacity,
    {
        RelayBuffer { buf: VecDeque::new(), capacity }
    }

    /// The most items held.
    pub fn capacity(&self) -> (r: usize)
        ensures
            r == self.spec_capacity(),
    {
        self.capacity
    }

    /// The number of items held.
    pub fn len(&self) -> (r: usize)
        ensures
            r == self.items().len(),
    {
        self.buf.len()
    }

    /// Whether nothing is held (the relay then waits without a timeout).
    pub fn is_empty(&self) -> (r: bool)
        ensures
            r <==> self.items().len() == 0,
    {
        self.buf.len() == 0
    }

    /// Add the newest item, dropping the oldest when full.
    pub fn accept(&mut self, item: T)
        requires
            old(self).wf(),
        ensures
            final(self).wf(),
            final(self).spec_capacity() == old(self).spec_capacity(),
            final(self).items() == accepted(old(self).items(), old(self).spec_capacity(), item),
    {
        if self.buf.len() >= self.capacity {
            let _ = self.buf.pop_front();
        }
        self.buf.push_back(item);
    }

    /// Take the oldest item to forward it.
    pub fn take_front(&mut self) -> (r: Option<T>)
        requires
            old(self).wf(),
        ensures
            final(self).wf(),
            final(self).spec_capacity() == old(self).spec_capacity(),
            old(self).items().len() == 0 ==> r is None && final(self).items() == old(self).items(),
            old(self).items().len() > 0 ==> r == Some(old(self).items()[0]) && final(self).items()
                == old(self).items().drop_first(),
    {
        self.buf.pop_front()
    }

    /// Put back an item that could not be forwarded, as the oldest.
    pub fn restore_front(&mut self, item: T)
        requires
            old(self).wf(),
            old(self).items().len() < old(self).spec_capacity(),
        ensures
            final(self).wf(),
            final(self).spec_capacity() == old(self).spec_capacity(),
            final(self).items() == seq![item] + old(self).items(),
    {
        self.buf.push_front(item);
    }
}

/// What a drop-oldest relay does next.
#[derive(Debug, Clone, Copy, PartialEq, Eq, Structural)]
pub enum RelayStep {
    /// Forward the next buffered item.
    Flush,
    /// Stop forwarding (the consumer is full) and wait for the producer.
    Wait,
    /// The producer is gone: hand over what is buffered, waiting for room, then stop.
    Drain,
    /// The consumer is gone: stop.
    Exit,
}

/// What waiting on the producer's channel gave.
pub enum RelayRecv<T> {
    /// An item arrived.
    Item(T),
    /// Nothing arrived in time.
    Timeout,
    /// The producer is gone.
    Disconnected,
}

/// After trying to forward the item just taken from the front of `buf`: go
/// on when it was sent, put it back in front and wait when the consumer is
/// full, stop when the consumer is gone.
pub fn relay_sent<T>(buf: &mut RelayBuffer<T>, attempt: SendAttempt<T>) -> (r: RelayStep)
    requires
        old(buf).wf(),
        old(buf).items().len() < old(buf).spec_capacity(),
    ensures
        final(buf).wf(),
        final(buf).spec_capacity() == old(buf).spec_capacity(),
        attempt is Sent ==> r == RelayStep::Flush && final(buf).items() == old(buf).items(),
        attempt matches SendAttempt::Full(x) ==> r == RelayStep::Wait && final(buf).items() == seq![
            x,
        ] + old(buf).items(),
        attempt is Disconnected ==> r == RelayStep::Exit && final(buf).items() == old(buf).items(),
{
    match attempt {
        SendAttempt::Sent => RelayStep::Flush,
        SendAttempt::Full(item) => {
            buf.restore_front(item);
            RelayStep::Wait
        },
        SendAttempt::Disconnected => RelayStep::Exit,
    }
}

/// After waiting on the producer: keep an arrived item (dropping the oldest
/// when full) and go back to forwarding; on a timeout just go back to
/// forwarding; when the producer is gone, drain.
pub fn relay_received<T>(buf: &mut RelayBuffer<T>, got: RelayRecv<T>) -> (r: RelayStep)
    requires
        old(buf).wf(),
    ensures
        final(buf).wf(),
        final(buf).spec_capacity() == old(buf).spec_capacity(),
        got matches RelayRecv::Item(x) ==> r == RelayStep::Flush && final(buf).items() == accepted(
            old(buf).items(),
            old(buf).spec_capacity(),
            x,
        ),
        got is Timeout ==> r == RelayStep::Flush && final(buf).items() == old(buf).items(),
        got is Disconnected ==> r == RelayStep::Drain && final(buf).items() == old(buf).items(),
{
    match got {
        RelayRecv::Item(item) => {
            buf.accept(item);
            RelayStep::Flush
        },
        RelayRecv::Timeout => RelayStep::Flush,
        RelayRecv::Disconnected => RelayStep::Drain,
    }
}

/// The pieces of a drop-oldest relay: the producer's channel to read, the
/// consumer's channel to fill, and the buffer between them.
#[verifier::reject_recursive_types(T)]
pub struct RelayTask<T> {
    source: Receiver<T>,
    sink: LoggedSyncSender<T>,
    buffer: RelayBuffer<T>,
}

impl<T> RelayTask<T> {
    /// The buffer's capacity.
    pub closed spec fn spec_capacity(&self) -> nat {
        self.buffer.spec_capacity()
    }

    /// The bound of the consumer's channel.
    pub closed spec fn spec_sink_bound(&self) -> nat {
        self.sink.spec_bound()
    }

    /// The channels and an empty, well-formed buffer.
    pub fn into_parts(self) -> (r: (Receiver<T>, SyncSender<T>, RelayBuffer<T>))
        requires
            self.spec_capacity() > 0,
        ensures
            r.2.wf(),
            r.2.items() == Seq::<T>::empty(),
            r.2.spec_capacity() == self.spec_capacity(),
    {
        let cap = self.buffer.capacity;
        (self.source, self.sink.into_inner(), RelayBuffer::new(cap))
    }
}

/// The kind of producer half [`make_channel`] builds.
pub open spec fn tx_kind<T>(tx: Tx<T>) -> int {
    match tx {
        Tx::Unbounded(_) => 0,
        Tx::BoundedDropNewest(_) => 1,
        Tx::BoundedDropOldest(_) => 2,
        Tx::BoundedBlock(_) => 3,
    }
}

/// A producer / consumer pair for a runner channel: unbounded for capacity 0;
/// otherwise bounded by `capacity` under `policy`, where drop-oldest also
/// yields the relay to run between the producer and the consumer.
pub fn make_channel<T>(capacity: usize, policy: Overflow) -> (r: (
    Tx<T>,
    Receiver<T>,
    Option<RelayTask<T>>,
))
    ensures
        capacity == 0 ==> tx_kind(r.0) == 0 && r.2 is None,
        capacity > 0 && policy == Overflow::DropNewest ==> tx_kind(r.0) == 1 && r.2 is None,
        capacity > 0 && policy == Overflow::DropOldest ==> tx_kind(r.0) == 2 && r.2 is Some
            && r.2->Some_0.spec_capacity() == capacity && r.2->Some_0.spec_sink_bound()
            == capacity,
        capacity > 0 && policy == Overflow::Block ==> tx_kind(r.0) == 3 && r.2 is None,
        capacity == 0 ==> r.0.spec_bound() is None,
        capacity > 0 ==> r.0.spec_bound() == Some(capacity as nat),
        r.0.spec_handed() == Seq::<(T, SendReport)>::empty(),
{
    if capacity == 0 {
        let (tx, rx) = unbounded_channel::<T>();
        return (Tx::Unbounded(tx), rx, None);
    }
    match policy {
        Overflow::DropNewest => {
            let (tx, rx) = bounded_channel::<T>(capacity);
            (Tx::BoundedDropNewest(tx), rx, None)
        },
        Overflow::Block => {
            let (tx, rx) = bounded_channel::<T>(capacity);
            (Tx::BoundedBlock(tx), rx, None)
        },
        Overflow::DropOldest => {
            let (prod_tx, relay_rx) = bounded_channel::<T>(capacity);
            let (user_tx, user_rx) = bounded_channel::<T>(capacity);
            let task = RelayTask {
                source: relay_rx,
                sink: user_tx,
                buffer: RelayBuffer::new(capacity),
            };
            (Tx::BoundedDropOldest(prod_tx), user_rx, Some(task))
        },
    }
}

/// A drop-oldest buffer never exceeds its capacity, keeps its items in
/// arrival order, and always keeps the newest item: after accepting `item`,
/// it holds the last items of the old contents followed by `item`.
pub proof fn lemma_drop_oldest_keeps_newest<T>(buffered: Seq<T>, capacity: nat, item: T)
    requires
        0 < capacity,
        buffered.len() <= capacity,
    ensures
        accepted(buffered, capacity, item).len() <= capacity,
        accepted(buffered, capacity, item).last() == item,
        exists|k: nat|
            k <= 1 && #[trigger] buffered.push(item).skip(k as int) == accepted(
                buffered,
                capacity,
                item,
            ),
{
    if buffered.len() >= capacity {
        assert(buffered.push(item).skip(1) =~= buffered.drop_first().push(item));
        assert(buffered.push(item).skip(1 as nat as int) == accepted(buffered, capacity, item));
    } else {
        assert(buffered.push(item).skip(0) =~= buffered.push(item));
        assert(buffered.push(item).skip(0 as nat as int) == accepted(buffered, capacity, item));
    }
}

// ──────────────────────────────────────────────
// Worker steps
// ──────────────────────────────────────────────

/// A request from a runner handle to its worker.
pub enum Command {
    /// Fire the shutter and deliver the picture.
    Trigger,
    /// Set a control.
    SetControl(KnownCameraControl, ControlValueSetter),
    /// Stop the worker.
    Die,
}

/// What a worker found on its command channel.
pub enum CommandPoll {
    /// A command arrived.
    Got(Command),
    /// Nothing arrived (nothing waiting, or the wait timed out).
    Idle,
    /// The handle is gone.
    Disconnected,
}

/// What the worker does after a step.
#[derive(Debug, Clone, Copy, PartialEq, Eq, Structural)]
pub enum WorkerStep {
    /// Go on at once.
    Continue,
    /// Sleep for the poll interval, then go on.
    Pause,
    /// Leave the loop.
    Stop,
}

/// The command poll asks the worker to stop.
pub open spec fn asks_stop(cmd: CommandPoll) -> bool {
    cmd is Disconnected || (cmd matches CommandPoll::Got(c) && c is Die)
}

/// The step after a frame read (`read_ok`) and, when it gave a frame, its
/// delivery (`sent`).
pub fn frame_outcome(read_ok: bool, sent: Result<(), ()>) -> (r: WorkerStep)
    ensures
        !read_ok ==> r == WorkerStep::Pause,
        read_ok && sent is Ok ==> r == WorkerStep::Continue,
        read_ok && sent is Err ==> r == WorkerStep::Stop,
{
    if !read_ok {
        WorkerStep::Pause
    } else {
        match sent {
            Ok(()) => WorkerStep::Continue,
            Err(()) => WorkerStep::Stop,
        }
    }
}

/// The step after a trigger: go on when no picture came or it was
/// delivered, stop when the picture consumer is gone.
pub fn picture_outcome(sent: Option<Result<(), ()>>) -> (r: WorkerStep)
    ensures
        sent is None ==> r == WorkerStep::Continue,
        (sent matches Some(x) && x is Ok) ==> r == WorkerStep::Continue,
        (sent matches Some(x) && x is Err) ==> r == WorkerStep::Stop,
{
    match sent {
        Some(Err(())) => WorkerStep::Stop,
        _ => WorkerStep::Continue,
    }
}

/// The step after waiting for an event (`got`) and, when one came, its
/// delivery (`sent`).
pub fn event_outcome(got: bool, sent: Result<(), ()>) -> (r: WorkerStep)
    ensures
        !got ==> r == WorkerStep::Continue,
        got && sent is Ok ==> r == WorkerStep::Continue,
        got && sent is Err ==> r == WorkerStep::Stop,
{
    if got {
        match sent {
            Ok(()) => WorkerStep::Continue,
            Err(()) => WorkerStep::Stop,
        }
    } else {
        WorkerStep::Continue
    }
}

/// Read one frame and deliver it: stop when the consumer is gone, pause
/// when the camera gave no frame.
fn deliver_frame<C: FrameSource + ?Sized>(cam: &mut C, frames: &mut Tx<Buffer>) -> (r: WorkerStep)
    ensures
        final(cam).spec_calls().control_set == old(cam).spec_calls().control_set,
        final(cam).spec_calls().trigger == old(cam).spec_calls().trigger,
        final(cam).spec_calls().picture == old(cam).spec_calls().picture,
        final(cam).spec_calls().frame_read matches Some(fr) && (r == WorkerStep::Pause <==> fr is Err),
        tx_kind(*final(frames)) == tx_kind(*old(frames)),
        final(frames).spec_bound() == old(frames).spec_bound(),
        (final(cam).spec_calls().frame_read matches Some(fr) && (fr is Err
            ==> final(frames).spec_handed() == old(frames).spec_handed()) && (fr is Ok ==> handed_one(
            old(frames).spec_handed(),
            final(frames).spec_handed(),
            fr->Ok_0,
        ) && (r == WorkerStep::Stop <==> final(frames).spec_handed().last().1 == SendReport::Gone))),
{
    match cam.frame() {
        Ok(buf) => {
            let sent = frames.send(buf);
            let r = frame_outcome(true, sent);
            r
        },
        Err(_) => {
            let r = frame_outcome(false, Ok(()));
            r
        },
    }
}

/// One round of a streaming worker: obey the command (a trigger does
/// nothing on a stream), then read and deliver a frame.
pub fn stream_worker_step<C: FrameSource + ?Sized>(
    cam: &mut C,
    cmd: CommandPoll,
    frames: &mut Tx<Buffer>,
) -> (r: WorkerStep)
    ensures
        asks_stop(cmd) ==> r == WorkerStep::Stop && final(cam).spec_calls() == old(cam).spec_calls(),
        cmd matches CommandPoll::Got(Command::SetControl(id, v)) ==> (final(cam).spec_calls().control_set matches Some((i, w, _)) && i == id && w == v),
        !(cmd matches CommandPoll::Got(Command::SetControl(_, _))) ==> final(cam).spec_calls().control_set == old(cam).spec_calls().control_set,
        final(cam).spec_calls().trigger == old(cam).spec_calls().trigger,
        final(cam).spec_calls().picture == old(cam).spec_calls().picture,
        !asks_stop(cmd) ==> (final(cam).spec_calls().frame_read matches Some(fr) && (r
            == WorkerStep::Pause <==> fr is Err)),
        tx_kind(*final(frames)) == tx_kind(*old(frames)),
        final(frames).spec_bound() == old(frames).spec_bound(),
        !asks_stop(cmd) ==> (final(cam).spec_calls().frame_read matches Some(fr) && (fr is Err
            ==> final(frames).spec_handed() == old(frames).spec_handed()) && (fr is Ok ==> handed_one(
            old(frames).spec_handed(),
            final(frames).spec_handed(),
            fr->Ok_0,
        ) && (r == WorkerStep::Stop <==> final(frames).spec_handed().last().1 == SendReport::Gone))),
        asks_stop(cmd) ==> final(frames).spec_handed() == old(frames).spec_handed(),
{
    match cmd {
        CommandPoll::Disconnected => {
            return WorkerStep::Stop;
        },
        CommandPoll::Got(Command::Die) => {
            return WorkerStep::Stop;
        },
        CommandPoll::Got(Command::SetControl(id, v)) => {
            let _ = cam.set_control(id, v);
        },
        CommandPoll::Got(Command::Trigger) => {},
        CommandPoll::Idle => {},
    }
    deliver_frame(cam, frames)
}

/// One round of a shutter worker: a trigger takes a picture (waiting up to
/// `shutter_timeout`) and delivers it; it stops only on `Die`, a vanished
/// handle, or a vanished picture consumer.
pub fn shutter_worker_step<C: ShutterCapture + ?Sized>(
    cam: &mut C,
    cmd: CommandPoll,
    pictures: &mut Tx<Buffer>,
    shutter_timeout: Duration,
) -> (r: WorkerStep)
    ensures
        asks_stop(cmd) ==> r == WorkerStep::Stop && final(cam).spec_calls() == old(cam).spec_calls(),
        cmd is Idle ==> r == WorkerStep::Continue && final(cam).spec_calls() == old(cam).spec_calls(),
        cmd matches CommandPoll::Got(Command::SetControl(id, v)) ==> r == WorkerStep::Continue
            && (final(cam).spec_calls().control_set matches Some((i, w, _)) && i == id && w == v)
            && final(cam).spec_calls().trigger == old(cam).spec_calls().trigger
            && final(cam).spec_calls().picture == old(cam).spec_calls().picture,
        cmd matches CommandPoll::Got(Command::Trigger) ==> final(cam).spec_calls().control_set
            == old(cam).spec_calls().control_set && (final(cam).spec_calls().trigger matches Some(
            t,
        ) && (t is Err ==> r == WorkerStep::Continue && final(cam).spec_calls().picture == old(cam).spec_calls().picture) && (t is Ok ==> (final(cam).spec_calls().picture matches Some(
            (w, p),
        ) && w == shutter_timeout && (p is Err ==> r == WorkerStep::Continue)))),
        final(cam).spec_calls().frame_read == old(cam).spec_calls().frame_read,
        r != WorkerStep::Pause,
        tx_kind(*final(pictures)) == tx_kind(*old(pictures)),
        final(pictures).spec_bound() == old(pictures).spec_bound(),
        ({
            let c = final(cam).spec_calls();
            let delivered = (cmd matches CommandPoll::Got(Command::Trigger)) && (c.trigger matches Some(
                t,
            ) && t is Ok) && (c.picture matches Some((_, p)) && p is Ok);
            &&& delivered ==> handed_one(
                old(pictures).spec_handed(),
                final(pictures).spec_handed(),
                (c.picture->Some_0).1->Ok_0,
            )
            &&& !delivered ==> final(pictures).spec_handed() == old(pictures).spec_handed()
        }),
        ({
            let c = final(cam).spec_calls();
            (cmd matches CommandPoll::Got(Command::Trigger)) && (c.trigger matches Some(t) && t is Ok)
                && (c.picture matches Some((_, p)) && p is Ok) ==> (r == WorkerStep::Stop
                <==> final(pictures).spec_handed().last().1 == SendReport::Gone)
        }),
{
    match cmd {
        CommandPoll::Disconnected => WorkerStep::Stop,
        CommandPoll::Got(Command::Die) => WorkerStep::Stop,
        CommandPoll::Got(Command::Trigger) => {
            let mut sent: Option<Result<(), ()>> = None;
            if cam.trigger().is_ok() {
                match cam.take_picture(shutter_timeout) {
                    Ok(pic) => {
                        sent = Some(pictures.send(pic));
                    },
                    Err(_) => {},
                }
            }
            let r = picture_outcome(sent);
            r
        },
        CommandPoll::Got(Command::SetControl(id, v)) => {
            let _ = cam.set_control(id, v);
            WorkerStep::Continue
        },
        CommandPoll::Idle => WorkerStep::Continue,
    }
}

/// Both capabilities of a hybrid camera.
pub trait HybridCapture: FrameSource + ShutterCapture {

}

impl<T: FrameSource + ShutterCapture> HybridCapture for T {

}

/// One round of a hybrid worker: obey the command (a trigger's picture is
/// delivered if possible, a vanished picture consumer is ignored), then read
/// and deliver a frame.
pub fn hybrid_worker_step<C: HybridCapture + ?Sized>(
    cam: &mut C,
    cmd: CommandPoll,
    frames: &mut Tx<Buffer>,
    pictures: &mut Tx<Buffer>,
    shutter_timeout: Duration,
) -> (r: WorkerStep)
    ensures
        asks_stop(cmd) ==> r == WorkerStep::Stop && final(cam).spec_calls() == old(cam).spec_calls(),
        cmd matches CommandPoll::Got(Command::SetControl(id, v)) ==> (final(cam).spec_calls().control_set matches Some((i, w, _)) && i == id && w == v),
        !(cmd matches CommandPoll::Got(Command::SetControl(_, _))) ==> final(cam).spec_calls().control_set == old(cam).spec_calls().control_set,
        cmd matches CommandPoll::Got(Command::Trigger) ==> (final(cam).spec_calls().trigger matches Some(
            t,
        ) && (t is Err ==> final(cam).spec_calls().picture == old(cam).spec_calls().picture) && (
        t is Ok ==> (final(cam).spec_calls().picture matches Some((w, _)) && w
            == shutter_timeout))),
        !(cmd matches CommandPoll::Got(Command::Trigger)) ==> final(cam).spec_calls().trigger
            == old(cam).spec_calls().trigger && final(cam).spec_calls().picture == old(cam).spec_calls().picture,
        !asks_stop(cmd) ==> (final(cam).spec_calls().frame_read matches Some(fr) && (r
            == WorkerStep::Pause <==> fr is Err)),
        tx_kind(*final(pictures)) == tx_kind(*old(pictures)),
        final(pictures).spec_bound() == old(pictures).spec_bound(),
        ({
            let c = final(cam).spec_calls();
            let delivered = (cmd matches CommandPoll::Got(Command::Trigger)) && (c.trigger matches Some(
                t,
            ) && t is Ok) && (c.picture matches Some((_, p)) && p is Ok);
            &&& delivered ==> handed_one(
                old(pictures).spec_handed(),
                final(pictures).spec_handed(),
                (c.picture->Some_0).1->Ok_0,
            )
            &&& !delivered ==> final(pictures).spec_handed() == old(pictures).spec_handed()
        }),
        tx_kind(*final(frames)) == tx_kind(*old(frames)),
        final(frames).spec_bound() == old(frames).spec_bound(),
        !asks_stop(cmd) ==> (final(cam).spec_calls().frame_read matches Some(fr) && (fr is Err
            ==> final(frames).spec_handed() == old(frames).spec_handed()) && (fr is Ok ==> handed_one(
            old(frames).spec_handed(),
            final(frames).spec_handed(),
            fr->Ok_0,
        ) && (r == WorkerStep::Stop <==> final(frames).spec_handed().last().1 == SendReport::Gone))),
        asks_stop(cmd) ==> final(frames).spec_handed() == old(frames).spec_handed(),
{
    match cmd {
        CommandPoll::Disconnected => {
            return WorkerStep::Stop;
        },
        CommandPoll::Got(Command::Die) => {
            return WorkerStep::Stop;
        },
        CommandPoll::Got(Command::Trigger) => {
            if cam.trigger().is_ok() {
                match cam.take_picture(shutter_timeout) {
                    Ok(pic) => {
                        let _ = pictures.send(pic);
                    },
                    Err(_) => {},
                }
            }
        },
        CommandPoll::Got(Command::SetControl(id, v)) => {
            let _ = cam.set_control(id, v);
        },
        CommandPoll::Idle => {},
    }
    deliver_frame(cam, frames)
}

/// One round of an event worker: stop when asked, else wait up to `tick`
/// for an event and deliver it, stopping when its consumer is gone.
pub fn event_worker_step(
    poll: &mut dyn EventPoll,
    stop_requested: bool,
    events: &mut Tx<CameraEvent>,
    tick: Duration,
) -> (r: WorkerStep)
    ensures
        stop_requested ==> r == WorkerStep::Stop && final(poll).spec_last_wait() == old(poll).spec_last_wait(),
        !stop_requested ==> (final(poll).spec_last_wait() matches Some((d, e)) && d == tick && (
        e is None ==> r == WorkerStep::Continue) && (r == WorkerStep::Stop ==> e is Some)),
        r != WorkerStep::Pause,
        tx_kind(*final(events)) == tx_kind(*old(events)),
        final(events).spec_bound() == old(events).spec_bound(),
        ({
            let w = final(poll).spec_last_wait();
            let got = !stop_requested && (w matches Some((_, e)) && e is Some);
            &&& got ==> handed_one(
                old(events).spec_handed(),
                final(events).spec_handed(),
                (w->Some_0).1->Some_0,
            ) && (r == WorkerStep::Stop <==> final(events).spec_handed().last().1
                == SendReport::Gone)
            &&& !got ==> final(events).spec_handed() == old(events).spec_handed()
        }),
{
    if stop_requested {
        return WorkerStep::Stop;
    }
    match poll.next_timeout(tick) {
        Some(event) => {
            let sent = events.send(event);
            let r = event_outcome(true, sent);
            r
        },
        None => {
            let r = event_outcome(false, Ok(()));
            r
        },
    }
}

} // verus!
