//! Camera frame types, pixel-format conversion and capture helpers.

pub mod simd;
pub mod text;
pub mod error;
pub mod types;
pub mod decode;
pub mod buffer;
pub mod format_types;
pub mod frame;
pub mod traits;
pub mod camera;
pub mod wgpu;
pub mod testing;
pub mod init;
pub mod runner;
pub mod opencv_backend;
pub mod colour_laws;
