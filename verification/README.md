# nokhwa (verified core)

A webcam-capture library whose pixel conversions, frame and buffer types,
format selection, control checks, camera front end and runner decisions are
written in Verus and proved against their contracts.

Layout:

- `src/` — the verified library.
  - `simd`, `decode`: YUYV, NV12, BGR, RGB and luma conversions with byte-exact
    specifications (BT.601 integer arithmetic).
  - `frame`, `buffer`, `format_types`: typed frames over captured buffers and
    their RGB / RGBA / luma conversions, MJPEG through the `image` crate.
  - `types`, `text`, `error`: formats, resolutions, requests and their
    fulfilment, camera indices, controls, error texts.
  - `traits`, `camera`, `testing`: capability traits, the `Camera` front end
    and in-memory mock devices. A `CaptureBackendTrait` implementor also
    supplies `spec_camera_info`, `spec_camera_format`, `spec_stream_open`,
    `spec_compatible_formats`, `spec_control_listing`, `spec_control_read` and
    `spec_answers`: the state its getters report, its setters establish and
    its format calls answered. Likewise a `CameraDevice` supplies
    `spec_calls` (the record of what it was last asked, and its answers), a
    `FrameSource` `spec_negotiated_format`, and an `EventPoll`
    `spec_last_wait`. These members exist for the proofs; an implementor in
    plain Rust returns its own state or an empty record.
  - `runner`: runner configuration, channel policies, the drop-oldest relay
    buffer and the steps of the worker loops.
  - `wgpu`, `opencv_backend`, `init`: raw texture layouts, decisions of an
    OpenCV-driven backend, platform permission.
- `app/` — plain Rust around the library: a `std::error::Error` form of the
  error, PNG output, the floating-point step test of controls, and the
  thread-driven `CameraRunner`.
- `tests/` — the test suite.
