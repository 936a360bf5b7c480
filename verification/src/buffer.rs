//! The raw frame payload delivered by a camera.

use crate::types::{FrameFormat, Resolution};
use bytes::Bytes;
use std::time::Duration;
use vstd::prelude::*;

verus! {

/// The reference-counted byte buffer of the `bytes` crate.
#[verifier::external_type_specification]
#[verifier::external_body]
pub struct ExBytes(Bytes);

/// The bytes a `Bytes` handle refers to.
pub uninterp spec fn bytes_contents(b: Bytes) -> Seq<u8>;

/// `Bytes::copy_from_slice`: a new handle holding a copy of `data`.
#[verifier::external_body]
fn bytes_copy_from_slice(data: &[u8]) -> (r: Bytes)
    ensures
        bytes_contents(r) == data@,
{
    Bytes::copy_from_slice(data)
}

/// `Bytes::from(Vec<u8>)`: takes over the vector without copying; the handle
/// holds the vector's bytes.
#[verifier::external_body]
fn bytes_from_vec(data: Vec<u8>) -> (r: Bytes)
    ensures
        bytes_contents(r) == data@,
{
    Bytes::from(data)
}

/// `Deref` of `Bytes`: the bytes as a slice.
#[verifier::external_body]
fn bytes_as_slice(b: &Bytes) -> (r: &[u8])
    ensures
        r@ == bytes_contents(*b),
{
    b
}

/// `Clone` of `Bytes`: a new handle to the same bytes.
#[verifier::external_body]
fn bytes_clone(b: &Bytes) -> (r: Bytes)
    ensures
        bytes_contents(r) == bytes_contents(*b),
{
    b.clone()
}

/// What the clock of a capture timestamp is.
#[derive(Clone, Copy, Debug, Hash, PartialOrd, Ord, PartialEq, Eq, Structural)]
#[non_exhaustive]
pub enum TimestampKind {
    /// When the sensor captured the frame.
    Capture,
    /// A presentation timestamp of the media pipeline.
    Presentation,
    /// A monotonic clock.
    MonotonicClock,
    /// Wall-clock time.
    WallClock,
    /// Unknown or unspecified.
    Unknown,
}

/// A frame as delivered by a camera: its resolution, its bytes, the pixel
/// format those bytes are in, and an optional capture timestamp.
#[derive(Debug, Hash, PartialOrd, PartialEq, Eq)]
pub struct Buffer {
    resolution: Resolution,
    data: Bytes,
    source_frame_format: FrameFormat,
    capture_timestamp: Option<(Duration, TimestampKind)>,
}

impl Buffer {
    /// The frame size.
    pub closed spec fn spec_resolution(&self) -> Resolution {
        self.resolution
    }

    /// The frame bytes.
    pub closed spec fn spec_data(&self) -> Seq<u8> {
        bytes_contents(self.data)
    }

    /// The pixel format of the bytes.
    pub closed spec fn spec_format(&self) -> FrameFormat {
        self.source_frame_format
    }

    /// The capture timestamp, if the backend gave one.
    pub closed spec fn spec_timestamp(&self) -> Option<(Duration, TimestampKind)> {
        self.capture_timestamp
    }

    /// A buffer holding a copy of `buf`, with no timestamp.
    pub fn new(res: Resolution, buf: &[u8], source_frame_format: FrameFormat) -> (r: Self)
        ensures
            r.spec_resolution() == res,
            r.spec_data() == buf@,
            r.spec_format() == source_frame_format,
            r.spec_timestamp() is None,
    {
        Buffer {
            resolution: res,
            data: bytes_copy_from_slice(buf),
            source_frame_format,
            capture_timestamp: None,
        }
    }

    /// A buffer holding a copy of `buf` with a backend-provided timestamp.
    pub fn with_timestamp(
        res: Resolution,
        buf: &[u8],
        source_frame_format: FrameFormat,
        capture_timestamp: Option<(Duration, TimestampKind)>,
    ) -> (r: Self)
        ensures
            r.spec_resolution() == res,
            r.spec_data() == buf@,
            r.spec_format() == source_frame_format,
            r.spec_timestamp() == capture_timestamp,
    {
        Buffer {
            resolution: res,
            data: bytes_copy_from_slice(buf),
            source_frame_format,
            capture_timestamp,
        }
    }

    /// A buffer taking over `buf` without copying, with no timestamp.
    pub fn from_vec(res: Resolution, buf: Vec<u8>, source_frame_format: FrameFormat) -> (r: Self)
        ensures
            r.spec_resolution() == res,
            r.spec_data() == buf@,
            r.spec_format() == source_frame_format,
            r.spec_timestamp() is None,
    {
        Buffer {
            resolution: res,
            data: bytes_from_vec(buf),
            source_frame_format,
            capture_timestamp: None,
        }
    }

    /// A buffer taking over `buf` without copying, with a backend-provided timestamp.
    pub fn from_vec_with_timestamp(
        res: Resolution,
        buf: Vec<u8>,
        source_frame_format: FrameFormat,
        capture_timestamp: Option<(Duration, TimestampKind)>,
    ) -> (r: Self)
        ensures
            r.spec_resolution() == res,
            r.spec_data() == buf@,
            r.spec_format() == source_frame_format,
            r.spec_timestamp() == capture_timestamp,
    {
        Buffer {
            resolution: res,
            data: bytes_from_vec(buf),
            source_frame_format,
            capture_timestamp,
        }
    }

    /// The capture timestamp, if any.
    pub fn capture_timestamp(&self) -> (r: Option<Duration>)
        ensures
            r == match self.spec_timestamp() {
                Some((d, _)) => Some(d),
                None => None::<Duration>,
            },
    {
        match self.capture_timestamp {
            Some((ts, _)) => Some(ts),
            None => None,
        }
    }

    /// The capture timestamp with its kind, if any.
    pub fn capture_timestamp_with_kind(&self) -> (r: Option<(Duration, TimestampKind)>)
        ensures
            r == self.spec_timestamp(),
    {
        self.capture_timestamp
    }

    /// The frame size.
    pub fn resolution(&self) -> (r: Resolution)
        ensures
            r == self.spec_resolution(),
    {
        self.resolution
    }

    /// The frame bytes, without copying.
    pub fn buffer(&self) -> (r: &[u8])
        ensures
            r@ == self.spec_data(),
    {
        bytes_as_slice(&self.data)
    }

    /// A new handle to the frame bytes, without copying them.
    pub fn buffer_bytes(&self) -> (r: Bytes)
        ensures
            bytes_contents(r) == self.spec_data(),
    {
        bytes_clone(&self.data)
    }

    /// The pixel format of the bytes.
    pub fn source_frame_format(&self) -> (r: FrameFormat)
        ensures
            r == self.spec_format(),
    {
        self.source_frame_format
    }
}

impl Clone for Buffer {
    /// A buffer with the same size, bytes, format and timestamp.
    fn clone(&self) -> (r: Self)
        ensures
            r.spec_resolution() == self.spec_resolution(),
            r.spec_data() == self.spec_data(),
            r.spec_format() == self.spec_format(),
            r.spec_timestamp() == self.spec_timestamp(),
    {
        Buffer {
            resolution: self.resolution,
            data: bytes_clone(&self.data),
            source_frame_format: self.source_frame_format,
            capture_timestamp: self.capture_timestamp,
        }
    }
}

} // verus!
