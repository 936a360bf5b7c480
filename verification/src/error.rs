//! The error type shared by the whole library.

use crate::text::joined;
use crate::types::{backend_name, frame_format_name, ApiBackend, FrameFormat};
use std::time::Duration;
use vstd::prelude::*;

verus! {

/// All errors of the library.
#[derive(Debug, Clone)]
pub enum NokhwaError {
    /// The library was used before it was initialised.
    UninitializedError,
    /// A backend could not be initialised.
    InitializeError { backend: ApiBackend, error: String },
    /// A backend could not be shut down.
    ShutdownError { backend: ApiBackend, error: String },
    /// Any other failure, optionally attributed to a backend.
    GeneralError { message: String, backend: Option<ApiBackend> },
    /// A required structure could not be built.
    StructureError { structure: String, error: String },
    /// A device could not be opened.
    OpenDeviceError { device: String, error: String },
    /// A device property could not be read.
    GetPropertyError { property: String, error: String },
    /// A device property could not be set to a value.
    SetPropertyError { property: String, value: String, error: String },
    /// The device stream could not be opened.
    OpenStreamError { message: String, backend: Option<ApiBackend> },
    /// A frame could not be captured.
    ReadFrameError { message: String, format: Option<FrameFormat> },
    /// A frame could not be converted from `src` to `destination`.
    ProcessFrameError { src: FrameFormat, destination: String, error: String },
    /// The stream could not be stopped.
    StreamShutdownError { message: String, backend: Option<ApiBackend> },
    /// The backend does not support the operation.
    UnsupportedOperationError(ApiBackend),
    /// The operation is not implemented.
    NotImplementedError(String),
    /// Frame capture did not finish in time.
    TimeoutError(Duration),
}

/// `Duration` is `Copy`; its `Clone` gives back the same duration (std docs).
pub assume_specification[ <Duration as Clone>::clone ](d: &Duration) -> (r: Duration)
    ensures
        r == *d,
;

/// Whether a duration spans no time.
pub uninterp spec fn duration_is_zero(d: Duration) -> bool;

/// `Duration::is_zero`: whether the duration spans no time (std docs).
pub assume_specification[ Duration::is_zero ](d: &Duration) -> (r: bool)
    ensures
        r == duration_is_zero(*d),
;

/// The `Debug` text of a duration (`250ms`, `2s`, ...), as std writes it.
pub uninterp spec fn duration_debug_text(d: Duration) -> Seq<char>;

/// Debug-format a duration. Calls std's `Debug` impl of `Duration`; the text is
/// not stated beyond its name, which depends on the duration alone.
#[verifier::external_body]
fn duration_debug(d: Duration) -> (r: String)
    ensures
        r@ == duration_debug_text(d),
{
    format!("{d:?}")
}

/// `" (backend <name>)"` for a backend, nothing without one.
pub open spec fn backend_suffix(b: Option<ApiBackend>) -> Seq<char> {
    match b {
        Some(b) => " (backend "@ + backend_name(b) + ")"@,
        None => Seq::empty(),
    }
}

/// `" (format <name>)"` for a format, nothing without one.
pub open spec fn format_suffix(f: Option<FrameFormat>) -> Seq<char> {
    match f {
        Some(f) => " (format "@ + frame_format_name(f) + ")"@,
        None => Seq::empty(),
    }
}

/// The display text of an error.
pub open spec fn error_text(e: NokhwaError) -> Seq<char> {
    match e {
        NokhwaError::UninitializedError => "Uninitialized Camera. Call `init()` first!"@,
        NokhwaError::InitializeError { backend, error } => "Could not initialize "@ + backend_name(
            backend,
        ) + ": "@ + error@,
        NokhwaError::ShutdownError { backend, error } => "Could not shutdown "@ + backend_name(
            backend,
        ) + ": "@ + error@,
        NokhwaError::GeneralError { message, backend } => "Error"@ + backend_suffix(backend)
            + ": "@ + message@,
        NokhwaError::StructureError { structure, error } =>
            "Could not generate required structure "@ + structure@ + ": "@ + error@,
        NokhwaError::OpenDeviceError { device, error } => "Could not open device "@ + device@
            + ": "@ + error@,
        NokhwaError::GetPropertyError { property, error } => "Could not get device property "@
            + property@ + ": "@ + error@,
        NokhwaError::SetPropertyError { property, value, error } =>
            "Could not set device property "@ + property@ + " with value "@ + value@ + ": "@
                + error@,
        NokhwaError::OpenStreamError { message, backend } => "Could not open device stream"@
            + backend_suffix(backend) + ": "@ + message@,
        NokhwaError::ReadFrameError { message, format } => "Could not capture frame"@
            + format_suffix(format) + ": "@ + message@,
        NokhwaError::ProcessFrameError { src, destination, error } => "Could not process frame "@
            + frame_format_name(src) + " to "@ + destination@ + ": "@ + error@,
        NokhwaError::StreamShutdownError { message, backend } => "Could not stop stream"@
            + backend_suffix(backend) + ": "@ + message@,
        NokhwaError::UnsupportedOperationError(b) => "This operation is not supported by backend "@
            + backend_name(b) + "."@,
        NokhwaError::NotImplementedError(m) => "This operation is not implemented yet: "@ + m@,
        NokhwaError::TimeoutError(d) => "Frame capture timed out after "@ + duration_debug_text(d),
    }
}

/// Append `" (backend <name>)"` when there is a backend.
fn push_backend(s: String, b: &Option<ApiBackend>) -> (r: String)
    ensures
        r@ == s@ + backend_suffix(*b),
{
    match b {
        Some(b) => {
            let s = joined(s, " (backend ");
            let s = joined(s, b.name());
            joined(s, ")")
        },
        None => {
            assert(s@ + backend_suffix(*b) =~= s@);
            s
        },
    }
}

impl NokhwaError {
    /// A [`NokhwaError::GeneralError`] with no backend.
    pub fn general(message: &str) -> (r: Self)
        ensures
            r matches NokhwaError::GeneralError { message: m, backend } && m@ == message@
                && backend is None,
    {
        NokhwaError::GeneralError { message: String::from_str(message), backend: None }
    }

    /// A [`NokhwaError::OpenStreamError`] with no backend.
    pub fn open_stream(message: &str) -> (r: Self)
        ensures
            r matches NokhwaError::OpenStreamError { message: m, backend } && m@ == message@
                && backend is None,
    {
        NokhwaError::OpenStreamError { message: String::from_str(message), backend: None }
    }

    /// A [`NokhwaError::ReadFrameError`] with no format.
    pub fn read_frame(message: &str) -> (r: Self)
        ensures
            r matches NokhwaError::ReadFrameError { message: m, format } && m@ == message@
                && format is None,
    {
        NokhwaError::ReadFrameError { message: String::from_str(message), format: None }
    }

    /// A [`NokhwaError::StreamShutdownError`] with no backend.
    pub fn stream_shutdown(message: &str) -> (r: Self)
        ensures
            r matches NokhwaError::StreamShutdownError { message: m, backend } && m@ == message@
                && backend is None,
    {
        NokhwaError::StreamShutdownError { message: String::from_str(message), backend: None }
    }

    /// A [`NokhwaError::ProcessFrameError`] from its parts.
    pub fn process_frame(src: FrameFormat, destination: &str, error: &str) -> (r: Self)
        ensures
            r matches NokhwaError::ProcessFrameError { src: s, destination: d, error: e } && s
                == src && d@ == destination@ && e@ == error@,
    {
        NokhwaError::ProcessFrameError {
            src,
            destination: String::from_str(destination),
            error: String::from_str(error),
        }
    }

    /// The display text of the error.
    pub fn to_string(&self) -> (r: String)
        ensures
            r@ == error_text(*self),
    {
        match self {
            NokhwaError::UninitializedError => String::from_str(
                "Uninitialized Camera. Call `init()` first!",
            ),
            NokhwaError::InitializeError { backend, error } => {
                let s = joined(String::from_str("Could not initialize "), backend.name());
                let s = joined(s, ": ");
                joined(s, error.as_str())
            },
            NokhwaError::ShutdownError { backend, error } => {
                let s = joined(String::from_str("Could not shutdown "), backend.name());
                let s = joined(s, ": ");
                joined(s, error.as_str())
            },
            NokhwaError::GeneralError { message, backend } => {
                let s = push_backend(String::from_str("Error"), backend);
                let s = joined(s, ": ");
                joined(s, message.as_str())
            },
            NokhwaError::StructureError { structure, error } => {
                let s = joined(
                    String::from_str("Could not generate required structure "),
                    structure.as_str(),
                );
                let s = joined(s, ": ");
                joined(s, error.as_str())
            },
            NokhwaError::OpenDeviceError { device, error } => {
                let s = joined(String::from_str("Could not open device "), device.as_str());
                let s = joined(s, ": ");
                joined(s, error.as_str())
            },
            NokhwaError::GetPropertyError { property, error } => {
                let s = joined(
                    String::from_str("Could not get device property "),
                    property.as_str(),
                );
                let s = joined(s, ": ");
                joined(s, error.as_str())
            },
            NokhwaError::SetPropertyError { property, value, error } => {
                let s = joined(
                    String::from_str("Could not set device property "),
                    property.as_str(),
                );
                let s = joined(s, " with value ");
                let s = joined(s, value.as_str());
                let s = joined(s, ": ");
                joined(s, error.as_str())
            },
            NokhwaError::OpenStreamError { message, backend } => {
                let s = push_backend(String::from_str("Could not open device stream"), backend);
                let s = joined(s, ": ");
                joined(s, message.as_str())
            },
            NokhwaError::ReadFrameError { message, format } => {
                let mut s = String::from_str("Could not capture frame");
                match format {
                    Some(f) => {
                        s = joined(s, " (format ");
                        s = joined(s, f.name());
                        s = joined(s, ")");
                    },
                    None => {},
                }
                let s = joined(s, ": ");
                joined(s, message.as_str())
            },
            NokhwaError::ProcessFrameError { src, destination, error } => {
                let s = joined(String::from_str("Could not process frame "), src.name());
                let s = joined(s, " to ");
                let s = joined(s, destination.as_str());
                let s = joined(s, ": ");
                joined(s, error.as_str())
            },
            NokhwaError::StreamShutdownError { message, backend } => {
                let s = push_backend(String::from_str("Could not stop stream"), backend);
                let s = joined(s, ": ");
                joined(s, message.as_str())
            },
            NokhwaError::UnsupportedOperationError(b) => {
                let s = joined(
                    String::from_str("This operation is not supported by backend "),
                    b.name(),
                );
                joined(s, ".")
            },
            NokhwaError::NotImplementedError(m) => joined(
                String::from_str("This operation is not implemented yet: "),
                m.as_str(),
            ),
            NokhwaError::TimeoutError(d) => {
                let t = duration_debug(*d);
                joined(String::from_str("Frame capture timed out after "), t.as_str())
            },
        }
    }
}

} // verus!
