use nokhwa::error::NokhwaError;
use nokhwa::types::{ApiBackend, FrameFormat};
use std::time::Duration;

#[test]
fn general_error_display_without_backend() {
    let e = NokhwaError::general("oops");
    let s = e.to_string();
    assert!(s.starts_with("Error:"), "got: {s}");
    assert!(s.contains("oops"));
    assert!(!s.contains("backend"));
}

#[test]
fn general_error_display_with_backend() {
    let e = NokhwaError::GeneralError {
        message: "oops".into(),
        backend: Some(ApiBackend::Video4Linux),
    };
    let s = e.to_string();
    assert!(s.contains("backend"));
    assert!(s.contains("Video4Linux"));
    assert!(s.contains("oops"));
}

#[test]
fn open_stream_error_display_without_backend() {
    let e = NokhwaError::open_stream("denied");
    let s = e.to_string();
    assert!(s.contains("denied"));
    assert!(!s.contains("backend"));
}

#[test]
fn open_stream_error_display_with_backend() {
    let e = NokhwaError::OpenStreamError {
        message: "denied".into(),
        backend: Some(ApiBackend::MediaFoundation),
    };
    let s = e.to_string();
    assert!(s.contains("denied"));
    assert!(s.contains("MediaFoundation"));
}

#[test]
fn read_frame_error_display_without_format() {
    let e = NokhwaError::read_frame("eof");
    let s = e.to_string();
    assert!(s.contains("eof"));
    assert!(!s.contains("format"));
}

#[test]
fn read_frame_error_display_with_format() {
    let e = NokhwaError::ReadFrameError {
        message: "eof".into(),
        format: Some(FrameFormat::MJPEG),
    };
    let s = e.to_string();
    assert!(s.contains("eof"));
    assert!(s.contains("MJPEG"));
    assert!(s.contains("format"));
}

#[test]
fn stream_shutdown_error_display_without_backend() {
    let e = NokhwaError::stream_shutdown("busy");
    let s = e.to_string();
    assert!(s.contains("busy"));
    assert!(!s.contains("backend"));
}

#[test]
fn stream_shutdown_error_display_with_backend() {
    let e = NokhwaError::StreamShutdownError {
        message: "busy".into(),
        backend: Some(ApiBackend::AVFoundation),
    };
    let s = e.to_string();
    assert!(s.contains("busy"));
    assert!(s.contains("AVFoundation"));
}

#[test]
fn timeout_error_display_includes_duration() {
    let e = NokhwaError::TimeoutError(Duration::from_millis(250));
    let s = e.to_string();
    assert!(s.contains("timed out"));
    assert!(s.contains("250"));
}

#[test]
fn unsupported_operation_error_display_includes_backend() {
    let e = NokhwaError::UnsupportedOperationError(ApiBackend::Video4Linux);
    let s = e.to_string();
    assert!(s.contains("not supported"));
    assert!(s.contains("Video4Linux"));
}

#[test]
fn process_frame_error_display_includes_src_and_destination() {
    let e = NokhwaError::ProcessFrameError {
        src: FrameFormat::YUYV,
        destination: "RGB".into(),
        error: "bad sample".into(),
    };
    let s = e.to_string();
    assert!(s.contains("YUYV"));
    assert!(s.contains("RGB"));
    assert!(s.contains("bad sample"));
}

#[test]
fn uninitialized_error_display_mentions_init() {
    let e = NokhwaError::UninitializedError;
    let s = e.to_string();
    assert!(s.contains("Uninitialized"));
    assert!(s.contains("init()"));
}

#[test]
fn uninitialized_error_display_exact_format() {
    let e = NokhwaError::UninitializedError;
    assert_eq!(e.to_string(), "Uninitialized Camera. Call `init()` first!");
}

#[test]
fn initialize_error_display_exact_format() {
    let e = NokhwaError::InitializeError {
        backend: ApiBackend::Video4Linux,
        error: "no /dev/video0".into(),
    };
    assert_eq!(
        e.to_string(),
        "Could not initialize Video4Linux: no /dev/video0"
    );
}

#[test]
fn shutdown_error_display_exact_format() {
    let e = NokhwaError::ShutdownError {
        backend: ApiBackend::AVFoundation,
        error: "device busy".into(),
    };
    assert_eq!(
        e.to_string(),
        "Could not shutdown AVFoundation: device busy"
    );
}

#[test]
fn structure_error_display_exact_format() {
    let e = NokhwaError::StructureError {
        structure: "FrameFormat".into(),
        error: "No match for FOOBAR".into(),
    };
    assert_eq!(
        e.to_string(),
        "Could not generate required structure FrameFormat: No match for FOOBAR"
    );
}

#[test]
fn open_device_error_display_exact_format() {
    let e = NokhwaError::OpenDeviceError {
        device: "/dev/video2".into(),
        error: "permission denied".into(),
    };
    assert_eq!(
        e.to_string(),
        "Could not open device /dev/video2: permission denied"
    );
}

#[test]
fn get_property_error_display_exact_format() {
    let e = NokhwaError::GetPropertyError {
        property: "Brightness".into(),
        error: "not supported".into(),
    };
    assert_eq!(
        e.to_string(),
        "Could not get device property Brightness: not supported"
    );
}

#[test]
fn set_property_error_display_exact_format() {
    let e = NokhwaError::SetPropertyError {
        property: "Exposure".into(),
        value: "9999".into(),
        error: "out of range".into(),
    };
    assert_eq!(
        e.to_string(),
        "Could not set device property Exposure with value 9999: out of range"
    );
}

#[test]
fn process_frame_error_display_exact_format() {
    let e = NokhwaError::ProcessFrameError {
        src: FrameFormat::YUYV,
        destination: "RGB".into(),
        error: "bad sample".into(),
    };
    assert_eq!(
        e.to_string(),
        "Could not process frame YUYV to RGB: bad sample"
    );
}

#[test]
fn unsupported_operation_error_display_exact_format() {
    let e = NokhwaError::UnsupportedOperationError(ApiBackend::Video4Linux);
    assert_eq!(
        e.to_string(),
        "This operation is not supported by backend Video4Linux."
    );
}

#[test]
fn not_implemented_error_display_exact_format() {
    let e = NokhwaError::NotImplementedError("hotplug on browser".into());
    assert_eq!(
        e.to_string(),
        "This operation is not implemented yet: hotplug on browser"
    );
}

#[test]
fn timeout_error_display_exact_format() {
    let e = NokhwaError::TimeoutError(Duration::from_millis(250));
    assert_eq!(e.to_string(), "Frame capture timed out after 250ms");
}

#[test]
fn general_error_display_with_backend_exact_format() {
    let e = NokhwaError::GeneralError {
        message: "oops".into(),
        backend: Some(ApiBackend::Video4Linux),
    };
    assert_eq!(e.to_string(), "Error (backend Video4Linux): oops");
}

#[test]
fn general_error_display_without_backend_exact_format() {
    let e = NokhwaError::general("oops");
    assert_eq!(e.to_string(), "Error: oops");
}

#[test]
fn open_stream_error_display_with_backend_exact_format() {
    let e = NokhwaError::OpenStreamError {
        message: "denied".into(),
        backend: Some(ApiBackend::MediaFoundation),
    };
    assert_eq!(
        e.to_string(),
        "Could not open device stream (backend MediaFoundation): denied"
    );
}

#[test]
fn read_frame_error_display_with_format_exact_format() {
    let e = NokhwaError::ReadFrameError {
        message: "eof".into(),
        format: Some(FrameFormat::MJPEG),
    };
    assert_eq!(
        e.to_string(),
        "Could not capture frame (format MJPEG): eof"
    );
}

#[test]
fn stream_shutdown_error_display_with_backend_exact_format() {
    let e = NokhwaError::StreamShutdownError {
        message: "busy".into(),
        backend: Some(ApiBackend::AVFoundation),
    };
    assert_eq!(
        e.to_string(),
        "Could not stop stream (backend AVFoundation): busy"
    );
}

#[test]
fn open_stream_error_display_without_backend_exact_format() {
    let e = NokhwaError::open_stream("denied");
    assert_eq!(e.to_string(), "Could not open device stream: denied");
}

#[test]
fn read_frame_error_display_without_format_exact_format() {
    let e = NokhwaError::read_frame("eof");
    assert_eq!(e.to_string(), "Could not capture frame: eof");
}

#[test]
fn stream_shutdown_error_display_without_backend_exact_format() {
    let e = NokhwaError::stream_shutdown("busy");
    assert_eq!(e.to_string(), "Could not stop stream: busy");
}

#[test]
fn initialize_error_display_includes_backend_and_error() {
    let e = NokhwaError::InitializeError {
        backend: ApiBackend::Video4Linux,
        error: "no /dev/video0".into(),
    };
    let s = e.to_string();
    assert!(s.contains("Video4Linux"));
    assert!(s.contains("no /dev/video0"));
}

#[test]
fn shutdown_error_display_includes_backend_and_error() {
    let e = NokhwaError::ShutdownError {
        backend: ApiBackend::AVFoundation,
        error: "device busy".into(),
    };
    let s = e.to_string();
    assert!(s.contains("AVFoundation"));
    assert!(s.contains("device busy"));
}

#[test]
fn structure_error_display_includes_structure_and_error() {
    let e = NokhwaError::StructureError {
        structure: "FrameFormat".into(),
        error: "No match for FOOBAR".into(),
    };
    let s = e.to_string();
    assert!(s.contains("FrameFormat"));
    assert!(s.contains("No match for FOOBAR"));
}

#[test]
fn open_device_error_display_includes_device_and_error() {
    let e = NokhwaError::OpenDeviceError {
        device: "/dev/video2".into(),
        error: "permission denied".into(),
    };
    let s = e.to_string();
    assert!(s.contains("/dev/video2"));
    assert!(s.contains("permission denied"));
}

#[test]
fn get_property_error_display_includes_property_and_error() {
    let e = NokhwaError::GetPropertyError {
        property: "Brightness".into(),
        error: "not supported".into(),
    };
    let s = e.to_string();
    assert!(s.contains("Brightness"));
    assert!(s.contains("not supported"));
}

#[test]
fn set_property_error_display_includes_property_value_and_error() {
    let e = NokhwaError::SetPropertyError {
        property: "Exposure".into(),
        value: "9999".into(),
        error: "out of range".into(),
    };
    let s = e.to_string();
    assert!(s.contains("Exposure"));
    assert!(s.contains("9999"));
    assert!(s.contains("out of range"));
}

#[test]
fn not_implemented_error_display_includes_message() {
    let e = NokhwaError::NotImplementedError("hotplug on browser".into());
    let s = e.to_string();
    assert!(s.contains("not implemented"));
    assert!(s.contains("hotplug on browser"));
}

#[test]
fn clone_unit_variant_round_trips_display() {
    let e = NokhwaError::UninitializedError;
    let cloned = e.clone();
    assert_eq!(e.to_string(), cloned.to_string());
}

#[test]
fn clone_struct_variant_preserves_fields() {
    let e = NokhwaError::ProcessFrameError {
        src: FrameFormat::MJPEG,
        destination: "RGB".to_string(),
        error: "boom".to_string(),
    };
    let cloned = e.clone();
    if let NokhwaError::ProcessFrameError {
        src,
        destination,
        error,
    } = cloned
    {
        assert_eq!(src, FrameFormat::MJPEG);
        assert_eq!(destination, "RGB");
        assert_eq!(error, "boom");
    } else {
        panic!("clone changed variant");
    }
}

#[test]
fn clone_optional_backend_field_preserves_some() {
    let e = NokhwaError::GeneralError {
        message: "x".to_string(),
        backend: Some(ApiBackend::Video4Linux),
    };
    let cloned = e.clone();
    if let NokhwaError::GeneralError { message, backend } = cloned {
        assert_eq!(message, "x");
        assert_eq!(backend, Some(ApiBackend::Video4Linux));
    } else {
        panic!("clone changed variant");
    }
}

#[test]
fn debug_format_unit_variant_exact_format() {
    assert_eq!(
        format!("{:?}", NokhwaError::UninitializedError),
        "UninitializedError"
    );
}

#[test]
fn debug_format_timeout_variant_exact_format() {
    assert_eq!(
        format!("{:?}", NokhwaError::TimeoutError(Duration::from_secs(2))),
        "TimeoutError(2s)"
    );
}

#[test]
fn debug_format_open_device_struct_variant_exact_format() {
    let e = NokhwaError::OpenDeviceError {
        device: "cam0".to_string(),
        error: "ENOENT".to_string(),
    };
    assert_eq!(
        format!("{e:?}"),
        "OpenDeviceError { device: \"cam0\", error: \"ENOENT\" }"
    );
}

#[test]
fn helper_constructors_default_optional_context_to_none() {
    if let NokhwaError::GeneralError { backend, .. } = NokhwaError::general("x") {
        assert!(backend.is_none());
    } else {
        panic!("wrong variant");
    }
    if let NokhwaError::OpenStreamError { backend, .. } = NokhwaError::open_stream("x") {
        assert!(backend.is_none());
    } else {
        panic!("wrong variant");
    }
    if let NokhwaError::ReadFrameError { format, .. } = NokhwaError::read_frame("x") {
        assert!(format.is_none());
    } else {
        panic!("wrong variant");
    }
    if let NokhwaError::StreamShutdownError { backend, .. } = NokhwaError::stream_shutdown("x") {
        assert!(backend.is_none());
    } else {
        panic!("wrong variant");
    }
}

#[test]
fn helper_constructors_pass_message_through_unchanged() {
    if let NokhwaError::GeneralError { message, .. } = NokhwaError::general("sentinel") {
        assert_eq!(message, "sentinel");
    } else {
        panic!("wrong variant");
    }
    if let NokhwaError::OpenStreamError { message, .. } = NokhwaError::open_stream("sentinel") {
        assert_eq!(message, "sentinel");
    } else {
        panic!("wrong variant");
    }
    if let NokhwaError::ReadFrameError { message, .. } = NokhwaError::read_frame("sentinel") {
        assert_eq!(message, "sentinel");
    } else {
        panic!("wrong variant");
    }
    if let NokhwaError::StreamShutdownError { message, .. } =
        NokhwaError::stream_shutdown("sentinel")
    {
        assert_eq!(message, "sentinel");
    } else {
        panic!("wrong variant");
    }
}
