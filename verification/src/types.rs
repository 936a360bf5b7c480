//! Core value types: pixel formats, resolutions, camera formats, indices,
//! camera descriptions, backends and camera controls.

use crate::error::NokhwaError;
use crate::text::{decimal, decimal_string, joined, parse_u32, parse_u32_spec};
use vstd::prelude::*;

verus! {

// ──────────────────────────────────────────────
// FrameFormat
// ──────────────────────────────────────────────

/// The pixel format of a frame as delivered by a camera.
#[derive(Clone, Copy, Debug, Hash, PartialEq, Eq, PartialOrd, Ord, Structural)]
pub enum FrameFormat {
    /// Motion-JPEG compressed frames.
    MJPEG,
    /// YUYV 4:2:2 packed.
    YUYV,
    /// NV12: Y plane followed by an interleaved UV plane (4:2:0).
    NV12,
    /// 8-bit grayscale.
    GRAY,
    /// Raw RGB888.
    RAWRGB,
    /// Raw BGR888.
    RAWBGR,
}

/// The text name of a frame format.
pub open spec fn frame_format_name(f: FrameFormat) -> Seq<char> {
    match f {
        FrameFormat::MJPEG => "MJPEG"@,
        FrameFormat::YUYV => "YUYV"@,
        FrameFormat::NV12 => "NV12"@,
        FrameFormat::GRAY => "GRAY"@,
        FrameFormat::RAWRGB => "RAWRGB"@,
        FrameFormat::RAWBGR => "RAWBGR"@,
    }
}

/// Bytes per pixel of a frame of this format once decoded (RGB for colour
/// formats, one byte for grayscale).
pub open spec fn decoded_width_spec(f: FrameFormat) -> usize {
    match f {
        FrameFormat::GRAY => 1,
        _ => 3,
    }
}

/// What parsing `s` as a frame format gives: the format named `s`, or a
/// [`NokhwaError::StructureError`] "No match for `s`" when none is.
pub open spec fn parse_outcome(s: Seq<char>, r: Result<FrameFormat, NokhwaError>) -> bool {
    match r {
        Ok(f) => frame_format_name(f) == s,
        Err(e) => (forall|f: FrameFormat| frame_format_name(f) != s) && e
            == NokhwaError::StructureError {
            structure: e->structure,
            error: e->StructureError_error,
        } && e->structure@ == "FrameFormat"@ && e->StructureError_error@ == "No match for "@ + s,
    }
}

/// No two frame formats share a name.
pub proof fn lemma_frame_format_names_distinct(a: FrameFormat, b: FrameFormat)
    ensures
        frame_format_name(a) == frame_format_name(b) ==> a == b,
{
    reveal_strlit("MJPEG");
    reveal_strlit("YUYV");
    reveal_strlit("NV12");
    reveal_strlit("GRAY");
    reveal_strlit("RAWRGB");
    reveal_strlit("RAWBGR");
    if frame_format_name(a) == frame_format_name(b) && a != b {
        let na = frame_format_name(a);
        let nb = frame_format_name(b);
        assert(na.len() == nb.len());
        assert(na[0] == nb[0]);
        assert(na[na.len() - 1] == nb[nb.len() - 1]);
    }
}

/// Parsing a format's display name gives the format back.
pub proof fn lemma_frame_format_display_parse_roundtrip(f: FrameFormat, r: Result<FrameFormat, NokhwaError>)
    requires
        parse_outcome(frame_format_name(f), r),
    ensures
        r == Ok::<FrameFormat, NokhwaError>(f),
{
    match r {
        Ok(g) => lemma_frame_format_names_distinct(f, g),
        Err(_) => {
            assert(frame_format_name(f) == frame_format_name(f));
        },
    }
}

impl FrameFormat {
    /// The text name of this format (`"MJPEG"`, `"YUYV"`, ...).
    pub fn name(&self) -> (r: &'static str)
        ensures
            r@ == frame_format_name(*self),
    {
        match self {
            FrameFormat::MJPEG => "MJPEG",
            FrameFormat::YUYV => "YUYV",
            FrameFormat::NV12 => "NV12",
            FrameFormat::GRAY => "GRAY",
            FrameFormat::RAWRGB => "RAWRGB",
            FrameFormat::RAWBGR => "RAWBGR",
        }
    }

    /// The text form of this format; it parses back with [`FrameFormat::parse`].
    pub fn to_string(&self) -> (r: String)
        ensures
            r@ == frame_format_name(*self),
    {
        String::from_str(self.name())
    }

    /// Bytes per pixel once decoded: 3 for every colour format, 1 for `GRAY`.
    pub fn decoded_pixel_byte_width(&self) -> (r: usize)
        ensures
            r == decoded_width_spec(*self),
    {
        match self {
            FrameFormat::GRAY => 1,
            _ => 3,
        }
    }

    /// Parse the exact (case-sensitive) name of a format.
    /// # Errors
    /// Any other text gives a [`NokhwaError::StructureError`].
    pub fn parse(s: &str) -> (r: Result<FrameFormat, NokhwaError>)
        ensures
            parse_outcome(s@, r),
    {
        let owned = s.to_owned();
        let all = [
            FrameFormat::MJPEG,
            FrameFormat::YUYV,
            FrameFormat::NV12,
            FrameFormat::GRAY,
            FrameFormat::RAWRGB,
            FrameFormat::RAWBGR,
        ];
        let mut i: usize = 0;
        while i < 6
            invariant
                owned@ == s@,
                i <= 6,
                all@ == seq![
                    FrameFormat::MJPEG,
                    FrameFormat::YUYV,
                    FrameFormat::NV12,
                    FrameFormat::GRAY,
                    FrameFormat::RAWRGB,
                    FrameFormat::RAWBGR,
                ],
                forall|j: int| 0 <= j < i ==> frame_format_name(all@[j]) != s@,
            decreases 6 - i,
        {
            let candidate = String::from_str(all[i].name());
            if candidate == owned {
                return Ok(all[i]);
            }
            i += 1;
        }
        proof {
            assert forall|f: FrameFormat| frame_format_name(f) != s@ by {
                match f {
                    FrameFormat::MJPEG => assert(all@[0] == f),
                    FrameFormat::YUYV => assert(all@[1] == f),
                    FrameFormat::NV12 => assert(all@[2] == f),
                    FrameFormat::GRAY => assert(all@[3] == f),
                    FrameFormat::RAWRGB => assert(all@[4] == f),
                    FrameFormat::RAWBGR => assert(all@[5] == f),
                }
            }
        }
        Err(
            NokhwaError::StructureError {
                structure: String::from_str("FrameFormat"),
                error: joined(String::from_str("No match for "), s),
            },
        )
    }
}

/// Every frame format.
pub open spec fn all_frame_formats() -> Seq<FrameFormat> {
    seq![
        FrameFormat::MJPEG,
        FrameFormat::YUYV,
        FrameFormat::NV12,
        FrameFormat::GRAY,
        FrameFormat::RAWRGB,
        FrameFormat::RAWBGR,
    ]
}

/// The frame formats that carry colour (every format but `GRAY`).
pub open spec fn all_color_frame_formats() -> Seq<FrameFormat> {
    seq![
        FrameFormat::MJPEG,
        FrameFormat::YUYV,
        FrameFormat::NV12,
        FrameFormat::RAWRGB,
        FrameFormat::RAWBGR,
    ]
}

impl std::str::FromStr for FrameFormat {
    type Err = NokhwaError;

    /// [`FrameFormat::parse`].
    fn from_str(s: &str) -> (r: Result<FrameFormat, NokhwaError>)
        ensures
            parse_outcome(s@, r),
    {
        FrameFormat::parse(s)
    }
}

/// Every frame format, in declaration order.
pub fn frame_formats() -> (r: Vec<FrameFormat>)
    ensures
        r@ == all_frame_formats(),
{
    vec![
        FrameFormat::MJPEG,
        FrameFormat::YUYV,
        FrameFormat::NV12,
        FrameFormat::GRAY,
        FrameFormat::RAWRGB,
        FrameFormat::RAWBGR,
    ]
}

/// The colour frame formats (all but `GRAY`).
pub fn color_frame_formats() -> (r: Vec<FrameFormat>)
    ensures
        r@ == all_color_frame_formats(),
{
    vec![
        FrameFormat::MJPEG,
        FrameFormat::YUYV,
        FrameFormat::NV12,
        FrameFormat::RAWRGB,
        FrameFormat::RAWBGR,
    ]
}

// ──────────────────────────────────────────────
// Resolution
// ──────────────────────────────────────────────

/// Width and height of a frame in pixels. Ordered by width, then height.
#[derive(Clone, Copy, Debug, Hash, PartialEq, Eq, PartialOrd, Ord, Default, Structural)]
pub struct Resolution {
    /// Width in pixels.
    pub width_x: u32,
    /// Height in pixels.
    pub height_y: u32,
}

/// Resolution order: by width, then by height.
pub open spec fn resolution_lt(a: Resolution, b: Resolution) -> bool {
    a.width_x < b.width_x || (a.width_x == b.width_x && a.height_y < b.height_y)
}

/// `<text of width>x<text of height>`.
pub open spec fn resolution_text(r: Resolution) -> Seq<char> {
    decimal(r.width_x as nat) + "x"@ + decimal(r.height_y as nat)
}

impl Resolution {
    /// A resolution of `x` by `y` pixels.
    pub fn new(x: u32, y: u32) -> (r: Self)
        ensures
            r.width_x == x,
            r.height_y == y,
    {
        Resolution { width_x: x, height_y: y }
    }

    /// Width in pixels.
    pub fn width(&self) -> (r: u32)
        ensures
            r == self.width_x,
    {
        self.width_x
    }

    /// Height in pixels.
    pub fn height(&self) -> (r: u32)
        ensures
            r == self.height_y,
    {
        self.height_y
    }

    /// Width in pixels.
    pub fn x(&self) -> (r: u32)
        ensures
            r == self.width_x,
    {
        self.width_x
    }

    /// Height in pixels.
    pub fn y(&self) -> (r: u32)
        ensures
            r == self.height_y,
    {
        self.height_y
    }

    /// `"<width>x<height>"`, e.g. `"640x480"`.
    pub fn to_string(&self) -> (r: String)
        ensures
            r@ == resolution_text(*self),
    {
        let s = decimal_string(self.width_x as u128);
        let s = joined(s, "x");
        let h = decimal_string(self.height_y as u128);
        let r = joined(s, h.as_str());
        r
    }
}

// ──────────────────────────────────────────────
// CameraFormat
// ──────────────────────────────────────────────

/// A resolution, a frame format and a frame rate that a camera can deliver.
#[derive(Clone, Copy, Debug, Hash, PartialEq, Eq, Structural)]
pub struct CameraFormat {
    /// Frame size.
    pub resolution: Resolution,
    /// Pixel format.
    pub format: FrameFormat,
    /// Frames per second.
    pub frame_rate: u32,
}

/// `<resolution>@<rate>FPS, <format> Format`.
pub open spec fn camera_format_text(f: CameraFormat) -> Seq<char> {
    resolution_text(f.resolution) + "@"@ + decimal(f.frame_rate as nat) + "FPS, "@
        + frame_format_name(f.format) + " Format"@
}

impl CameraFormat {
    /// A camera format from its three parts.
    pub fn new(resolution: Resolution, format: FrameFormat, frame_rate: u32) -> (r: Self)
        ensures
            r.resolution == resolution,
            r.format == format,
            r.frame_rate == frame_rate,
    {
        CameraFormat { resolution, format, frame_rate }
    }

    /// A camera format from width, height, format and frame rate.
    pub fn new_from(res_x: u32, res_y: u32, format: FrameFormat, fps: u32) -> (r: Self)
        ensures
            r.resolution == (Resolution { width_x: res_x, height_y: res_y }),
            r.format == format,
            r.frame_rate == fps,
    {
        CameraFormat { resolution: Resolution::new(res_x, res_y), format, frame_rate: fps }
    }

    /// The frame size.
    pub fn resolution(&self) -> (r: Resolution)
        ensures
            r == self.resolution,
    {
        self.resolution
    }

    /// The frame width.
    pub fn width(&self) -> (r: u32)
        ensures
            r == self.resolution.width_x,
    {
        self.resolution.width_x
    }

    /// The frame height.
    pub fn height(&self) -> (r: u32)
        ensures
            r == self.resolution.height_y,
    {
        self.resolution.height_y
    }

    /// Replace the frame size.
    pub fn set_resolution(&mut self, resolution: Resolution)
        ensures
            *final(self) == (CameraFormat { resolution, ..*old(self) }),
    {
        self.resolution = resolution;
    }

    /// The frame rate.
    pub fn frame_rate(&self) -> (r: u32)
        ensures
            r == self.frame_rate,
    {
        self.frame_rate
    }

    /// Replace the frame rate.
    pub fn set_frame_rate(&mut self, frame_rate: u32)
        ensures
            *final(self) == (CameraFormat { frame_rate, ..*old(self) }),
    {
        self.frame_rate = frame_rate;
    }

    /// The pixel format.
    pub fn format(&self) -> (r: FrameFormat)
        ensures
            r == self.format,
    {
        self.format
    }

    /// Replace the pixel format.
    pub fn set_format(&mut self, format: FrameFormat)
        ensures
            *final(self) == (CameraFormat { format, ..*old(self) }),
    {
        self.format = format;
    }

    /// `"<w>x<h>@<fps>FPS, <format> Format"`.
    pub fn to_string(&self) -> (r: String)
        ensures
            r@ == camera_format_text(*self),
    {
        let s = self.resolution.to_string();
        let s = joined(s, "@");
        let fps = decimal_string(self.frame_rate as u128);
        let s = joined(s, fps.as_str());
        let s = joined(s, "FPS, ");
        let s = joined(s, self.format.name());
        joined(s, " Format")
    }
}

impl Default for CameraFormat {
    /// 640×480 MJPEG at 30 frames per second.
    fn default() -> (r: Self)
        ensures
            r == (CameraFormat {
                resolution: Resolution { width_x: 640, height_y: 480 },
                format: FrameFormat::MJPEG,
                frame_rate: 30,
            }),
    {
        CameraFormat::new(Resolution::new(640, 480), FrameFormat::MJPEG, 30)
    }
}

// ──────────────────────────────────────────────
// ApiBackend
// ──────────────────────────────────────────────

/// The capture backend a camera is driven through.
#[derive(Clone, Copy, Debug, Hash, PartialEq, Eq, PartialOrd, Ord, Structural)]
pub enum ApiBackend {
    /// Pick the native backend of the platform.
    Auto,
    /// macOS / iOS `AVFoundation`.
    AVFoundation,
    /// Linux Video4Linux2.
    Video4Linux,
    /// Universal Video Class.
    UniversalVideoClass,
    /// Windows Media Foundation.
    MediaFoundation,
    /// `OpenCV`.
    OpenCv,
    /// `GStreamer`.
    GStreamer,
    /// Browser (`getUserMedia`).
    Browser,
}

/// The text name of a backend.
pub open spec fn backend_name(b: ApiBackend) -> Seq<char> {
    match b {
        ApiBackend::Auto => "Auto"@,
        ApiBackend::AVFoundation => "AVFoundation"@,
        ApiBackend::Video4Linux => "Video4Linux"@,
        ApiBackend::UniversalVideoClass => "UniversalVideoClass"@,
        ApiBackend::MediaFoundation => "MediaFoundation"@,
        ApiBackend::OpenCv => "OpenCv"@,
        ApiBackend::GStreamer => "GStreamer"@,
        ApiBackend::Browser => "Browser"@,
    }
}

impl ApiBackend {
    /// The text name of this backend (`"Video4Linux"`, ...).
    pub fn name(&self) -> (r: &'static str)
        ensures
            r@ == backend_name(*self),
    {
        match self {
            ApiBackend::Auto => "Auto",
            ApiBackend::AVFoundation => "AVFoundation",
            ApiBackend::Video4Linux => "Video4Linux",
            ApiBackend::UniversalVideoClass => "UniversalVideoClass",
            ApiBackend::MediaFoundation => "MediaFoundation",
            ApiBackend::OpenCv => "OpenCv",
            ApiBackend::GStreamer => "GStreamer",
            ApiBackend::Browser => "Browser",
        }
    }

    /// The text form of this backend.
    pub fn to_string(&self) -> (r: String)
        ensures
            r@ == backend_name(*self),
    {
        String::from_str(self.name())
    }
}

// ──────────────────────────────────────────────
// CameraIndex
// ──────────────────────────────────────────────

/// How a camera is addressed: by number or by a backend-specific string
/// (a device path, a URL, ...).
#[derive(Clone, Debug, Hash, PartialEq, Eq, PartialOrd, Ord)]
pub enum CameraIndex {
    /// A numeric index.
    Index(u32),
    /// A backend-specific identifier.
    String(String),
}

/// The text form of an index: the number, or the identifier itself.
pub open spec fn camera_index_text(i: CameraIndex) -> Seq<char> {
    match i {
        CameraIndex::Index(n) => decimal(n as nat),
        CameraIndex::String(s) => s@,
    }
}

impl CameraIndex {
    /// The numeric index; a string index is parsed as a decimal `u32`.
    /// # Errors
    /// A string that is not a decimal `u32` gives a [`NokhwaError::GeneralError`].
    pub fn as_index(&self) -> (r: Result<u32, NokhwaError>)
        ensures
            match *self {
                CameraIndex::Index(n) => r == Ok::<u32, NokhwaError>(n),
                CameraIndex::String(s) => match parse_u32_spec(s@) {
                    Some(v) => r == Ok::<u32, NokhwaError>(v),
                    None => r is Err && r->Err_0 is GeneralError && r->Err_0->GeneralError_backend
                        is None,
                },
            },
    {
        match self {
            CameraIndex::Index(i) => Ok(*i),
            CameraIndex::String(s) => match parse_u32(s.as_str()) {
                Some(v) => Ok(v),
                None => Err(NokhwaError::general("invalid digit found in string")),
            },
        }
    }

    /// The text form of the index.
    pub fn as_string(&self) -> (r: String)
        ensures
            r@ == camera_index_text(*self),
    {
        match self {
            CameraIndex::Index(i) => decimal_string(*i as u128),
            CameraIndex::String(s) => s.clone(),
        }
    }

    /// Whether this is a numeric index.
    pub fn is_index(&self) -> (r: bool)
        ensures
            r == (*self is Index),
    {
        match self {
            CameraIndex::Index(_) => true,
            CameraIndex::String(_) => false,
        }
    }

    /// Whether this is a string identifier.
    pub fn is_string(&self) -> (r: bool)
        ensures
            r == (*self is String),
    {
        match self {
            CameraIndex::Index(_) => false,
            CameraIndex::String(_) => true,
        }
    }

    /// The text form of the index (same as [`CameraIndex::as_string`]).
    pub fn to_string(&self) -> (r: String)
        ensures
            r@ == camera_index_text(*self),
    {
        self.as_string()
    }
}

impl Default for CameraIndex {
    /// Index 0.
    fn default() -> (r: Self)
        ensures
            r == CameraIndex::Index(0),
    {
        CameraIndex::Index(0)
    }
}

// ──────────────────────────────────────────────
// CameraInfo
// ──────────────────────────────────────────────

/// Human-readable description of a camera and the index it is opened by.
#[derive(Clone, Debug, Hash, PartialEq, Eq, PartialOrd, Ord)]
pub struct CameraInfo {
    /// Display name.
    pub human_name: String,
    /// Description.
    pub description: String,
    /// Anything else the backend reports.
    pub misc: String,
    /// The index the camera is opened by.
    pub index: CameraIndex,
}

impl CameraInfo {
    /// A description from its parts.
    pub fn new(human_name: &str, description: &str, misc: &str, index: CameraIndex) -> (r: Self)
        ensures
            r.human_name@ == human_name@,
            r.description@ == description@,
            r.misc@ == misc@,
            r.index == index,
    {
        CameraInfo {
            human_name: String::from_str(human_name),
            description: String::from_str(description),
            misc: String::from_str(misc),
            index,
        }
    }

    /// The display name.
    pub fn human_name(&self) -> (r: String)
        ensures
            r@ == self.human_name@,
    {
        self.human_name.clone()
    }

    /// Replace the display name.
    pub fn set_human_name(&mut self, human_name: &str)
        ensures
            final(self).human_name@ == human_name@,
            final(self).description == old(self).description,
            final(self).misc == old(self).misc,
            final(self).index == old(self).index,
    {
        self.human_name = String::from_str(human_name);
    }

    /// The description.
    pub fn description(&self) -> (r: String)
        ensures
            r@ == self.description@,
    {
        self.description.clone()
    }

    /// Replace the description.
    pub fn set_description(&mut self, description: &str)
        ensures
            final(self).description@ == description@,
            final(self).human_name == old(self).human_name,
            final(self).misc == old(self).misc,
            final(self).index == old(self).index,
    {
        self.description = String::from_str(description);
    }

    /// The backend's extra information.
    pub fn misc(&self) -> (r: String)
        ensures
            r@ == self.misc@,
    {
        self.misc.clone()
    }

    /// Replace the extra information.
    pub fn set_misc(&mut self, misc: &str)
        ensures
            final(self).misc@ == misc@,
            final(self).human_name == old(self).human_name,
            final(self).description == old(self).description,
            final(self).index == old(self).index,
    {
        self.misc = String::from_str(misc);
    }

    /// The index the camera is opened by.
    pub fn index(&self) -> (r: &CameraIndex)
        ensures
            *r == self.index,
    {
        &self.index
    }

    /// Replace the index.
    pub fn set_index(&mut self, index: CameraIndex)
        ensures
            final(self).index == index,
            final(self).human_name == old(self).human_name,
            final(self).description == old(self).description,
            final(self).misc == old(self).misc,
    {
        self.index = index;
    }
}


// ──────────────────────────────────────────────
// Format requests
// ──────────────────────────────────────────────

/// How a camera format is chosen from the formats a camera offers.
#[derive(Clone, Copy, Debug, PartialEq, Eq, Structural)]
pub enum RequestedFormatType {
    /// The highest resolution; among those, the highest frame rate.
    AbsoluteHighestResolution,
    /// The highest frame rate; among those, the highest resolution.
    AbsoluteHighestFrameRate,
    /// The highest frame rate at exactly this resolution.
    HighestResolution(Resolution),
    /// The highest resolution at exactly this frame rate.
    HighestFrameRate(u32),
    /// Exactly this format (only its pixel format is checked).
    Exact(CameraFormat),
    /// The offered resolution nearest to this one, then the nearest frame rate.
    Closest(CameraFormat),
    /// No preference: the first offered format.
    NoPreference,
}

/// A [`RequestedFormatType`] together with the pixel formats the caller can decode.
#[derive(Clone, Debug, PartialEq, Eq)]
pub struct RequestedFormat {
    requested_format: RequestedFormatType,
    wanted_decoder: Vec<FrameFormat>,
}

/// Lexicographic `>=` on triples.
pub open spec fn triple_ge(a: (int, int, int), b: (int, int, int)) -> bool {
    a.0 > b.0 || (a.0 == b.0 && (a.1 > b.1 || (a.1 == b.1 && a.2 >= b.2)))
}

/// What a "highest" request maximises: frame rate first for
/// `AbsoluteHighestFrameRate`, resolution first otherwise.
pub open spec fn format_rank(t: RequestedFormatType, f: CameraFormat) -> (int, int, int) {
    match t {
        RequestedFormatType::AbsoluteHighestFrameRate => (
            f.frame_rate as int,
            f.resolution.width_x as int,
            f.resolution.height_y as int,
        ),
        _ => (f.resolution.width_x as int, f.resolution.height_y as int, f.frame_rate as int),
    }
}

/// Whether a "highest" request may pick this format at all.
pub open spec fn rank_eligible(t: RequestedFormatType, f: CameraFormat) -> bool {
    match t {
        RequestedFormatType::HighestResolution(r) => f.resolution == r,
        RequestedFormatType::HighestFrameRate(fps) => f.frame_rate == fps,
        _ => true,
    }
}

/// Squared distance between two resolutions.
pub open spec fn resolution_distance(a: Resolution, b: Resolution) -> int {
    (a.width_x - b.width_x) * (a.width_x - b.width_x) + (a.height_y - b.height_y) * (
    a.height_y - b.height_y)
}

/// Absolute difference of two frame rates.
pub open spec fn rate_distance(a: u32, b: u32) -> int {
    if a >= b {
        a - b
    } else {
        b - a
    }
}

impl RequestedFormat {
    /// The selection rule.
    pub closed spec fn request_kind(&self) -> RequestedFormatType {
        self.requested_format
    }

    /// The pixel formats the caller accepts.
    pub closed spec fn decoders(&self) -> Seq<FrameFormat> {
        self.wanted_decoder@
    }

    /// Whether the caller accepts the pixel format of `f`.
    pub open spec fn accepts(&self, f: CameraFormat) -> bool {
        self.decoders().contains(f.format)
    }

    /// `all[i]` is a format a "highest" request may pick.
    pub open spec fn rank_candidate(&self, all: Seq<CameraFormat>, i: int) -> bool {
        0 <= i < all.len() && self.accepts(all[i]) && rank_eligible(self.request_kind(), all[i])
    }

    /// `all[i]` is the last of the candidates with the highest rank.
    pub open spec fn is_rank_pick(&self, all: Seq<CameraFormat>, i: int) -> bool {
        &&& self.rank_candidate(all, i)
        &&& forall|j: int| #[trigger]
            self.rank_candidate(all, j) ==> triple_ge(
                format_rank(self.request_kind(), all[i]),
                format_rank(self.request_kind(), all[j]),
            )
        &&& forall|j: int|
            i < j && #[trigger] self.rank_candidate(all, j) ==> !triple_ge(
                format_rank(self.request_kind(), all[j]),
                format_rank(self.request_kind(), all[i]),
            )
    }

    /// `all[i]` has the pixel format of `c` and is accepted.
    pub open spec fn near_candidate(&self, all: Seq<CameraFormat>, c: CameraFormat, i: int) -> bool {
        0 <= i < all.len() && self.accepts(all[i]) && all[i].format == c.format
    }

    /// `all[i]` is the first candidate whose resolution is nearest to `c`'s.
    pub open spec fn is_nearest_resolution(&self, all: Seq<CameraFormat>, c: CameraFormat, i: int) -> bool {
        &&& self.near_candidate(all, c, i)
        &&& forall|j: int| #[trigger]
            self.near_candidate(all, c, j) ==> resolution_distance(all[i].resolution, c.resolution)
                <= resolution_distance(all[j].resolution, c.resolution)
        &&& forall|j: int|
            0 <= j < i && #[trigger] self.near_candidate(all, c, j) ==> resolution_distance(
                all[i].resolution,
                c.resolution,
            ) < resolution_distance(all[j].resolution, c.resolution)
    }

    /// `all[i]` is the first candidate at resolution `res` whose frame rate is
    /// nearest to `c`'s.
    pub open spec fn is_nearest_rate(
        &self,
        all: Seq<CameraFormat>,
        c: CameraFormat,
        res: Resolution,
        i: int,
    ) -> bool {
        &&& self.near_candidate(all, c, i) && all[i].resolution == res
        &&& forall|j: int| #[trigger]
            self.near_candidate(all, c, j) && all[j].resolution == res ==> rate_distance(
                all[i].frame_rate,
                c.frame_rate,
            ) <= rate_distance(all[j].frame_rate, c.frame_rate)
        &&& forall|j: int|
            0 <= j < i && #[trigger] self.near_candidate(all, c, j) && all[j].resolution == res
                ==> rate_distance(all[i].frame_rate, c.frame_rate) < rate_distance(
                all[j].frame_rate,
                c.frame_rate,
            )
    }

    /// What [`RequestedFormat::fulfill`] returns.
    pub open spec fn fulfills(&self, all: Seq<CameraFormat>, r: Option<CameraFormat>) -> bool {
        match self.request_kind() {
            RequestedFormatType::Exact(f) => r == (if self.accepts(f) {
                Some(f)
            } else {
                None::<CameraFormat>
            }),
            RequestedFormatType::NoPreference => match r {
                Some(f) => exists|i: int|
                    0 <= i < all.len() && self.accepts(all[i]) && f == all[i] && (forall|j: int|
                        0 <= j < i ==> !self.accepts(#[trigger] all[j])),
                None => forall|i: int| 0 <= i < all.len() ==> !self.accepts(#[trigger] all[i]),
            },
            RequestedFormatType::Closest(c) => match r {
                Some(f) => exists|i: int, j: int|
                    self.is_nearest_resolution(all, c, i) && self.is_nearest_rate(
                        all,
                        c,
                        all[i].resolution,
                        j,
                    ) && f == (CameraFormat {
                        resolution: all[i].resolution,
                        format: c.format,
                        frame_rate: all[j].frame_rate,
                    }),
                None => forall|i: int| !#[trigger] self.near_candidate(all, c, i),
            },
            _ => match r {
                Some(f) => exists|i: int| self.is_rank_pick(all, i) && f == all[i],
                None => forall|i: int| !#[trigger] self.rank_candidate(all, i),
            },
        }
    }

    /// A request for `requested`, accepting the pixel formats in `decoder`.
    pub fn with_formats(requested: RequestedFormatType, decoder: &[FrameFormat]) -> (r: Self)
        ensures
            r.request_kind() == requested,
            r.decoders() == decoder@,
    {
        let mut wanted: Vec<FrameFormat> = Vec::new();
        let mut i: usize = 0;
        while i < decoder.len()
            invariant
                i <= decoder.len(),
                wanted@ == decoder@.take(i as int),
            decreases decoder.len() - i,
        {
            wanted.push(decoder[i]);
            i += 1;
            assert(wanted@ =~= decoder@.take(i as int));
        }
        assert(decoder@.take(decoder.len() as int) =~= decoder@);
        RequestedFormat { requested_format: requested, wanted_decoder: wanted }
    }

    /// The selection rule.
    pub fn requested_format_type(&self) -> (r: RequestedFormatType)
        ensures
            r == self.request_kind(),
    {
        self.requested_format
    }

    /// Whether `format` is one of the accepted pixel formats.
    fn accepts_format(&self, format: FrameFormat) -> (r: bool)
        ensures
            r == self.wanted_decoder@.contains(format),
    {
        let mut i: usize = 0;
        while i < self.wanted_decoder.len()
            invariant
                i <= self.wanted_decoder.len(),
                forall|j: int| 0 <= j < i ==> self.wanted_decoder@[j] != format,
            decreases self.wanted_decoder.len() - i,
        {
            if self.wanted_decoder[i] == format {
                return true;
            }
            i += 1;
        }
        false
    }

    /// Pick a camera format from `all_formats` according to the request.
    ///
    /// Only formats whose pixel format is accepted are considered.
    /// `AbsoluteHighestResolution`, `HighestResolution` and `HighestFrameRate`
    /// take the highest (width, height, frame rate); `AbsoluteHighestFrameRate`
    /// the highest (frame rate, width, height); ties go to the later format.
    /// `Exact` returns its format when its pixel format is accepted. `Closest`
    /// takes the first format of the same pixel format at the smallest squared
    /// resolution distance, then the first frame rate nearest to the requested
    /// one at that resolution. `NoPreference` returns the first accepted format.
    pub fn fulfill(&self, all_formats: &[CameraFormat]) -> (r: Option<CameraFormat>)
        ensures
            self.fulfills(all_formats@, r),
    {
        match self.requested_format {
            RequestedFormatType::Exact(f) => {
                if self.accepts_format(f.format) {
                    Some(f)
                } else {
                    None
                }
            },
            RequestedFormatType::NoPreference => {
                let mut i: usize = 0;
                while i < all_formats.len()
                    invariant
                        self.requested_format is NoPreference,
                        i <= all_formats.len(),
                        forall|j: int| 0 <= j < i ==> !self.accepts(#[trigger] all_formats@[j]),
                    decreases all_formats.len() - i,
                {
                    if self.accepts_format(all_formats[i].format) {
                        assert(0 <= i < all_formats@.len() && self.accepts(all_formats@[i as int])
                            && all_formats@[i as int] == all_formats@[i as int] && (forall|j: int|
                            0 <= j < i ==> !self.accepts(#[trigger] all_formats@[j])));
                        return Some(all_formats[i]);
                    }
                    i += 1;
                }
                None
            },
            RequestedFormatType::Closest(c) => self.fulfill_closest(all_formats, c),
            _ => self.fulfill_highest(all_formats),
        }
    }

    /// Whether `a` ranks at least as high as `b` under the request.
    fn rank_ge(&self, a: CameraFormat, b: CameraFormat) -> (r: bool)
        ensures
            r == triple_ge(
                format_rank(self.requested_format, a),
                format_rank(self.requested_format, b),
            ),
    {
        let (a0, a1, a2, b0, b1, b2) = match self.requested_format {
            RequestedFormatType::AbsoluteHighestFrameRate => (
                a.frame_rate,
                a.resolution.width_x,
                a.resolution.height_y,
                b.frame_rate,
                b.resolution.width_x,
                b.resolution.height_y,
            ),
            _ => (
                a.resolution.width_x,
                a.resolution.height_y,
                a.frame_rate,
                b.resolution.width_x,
                b.resolution.height_y,
                b.frame_rate,
            ),
        };
        a0 > b0 || (a0 == b0 && (a1 > b1 || (a1 == b1 && a2 >= b2)))
    }

    /// Whether the request may pick `f` at all.
    fn eligible(&self, f: CameraFormat) -> (r: bool)
        ensures
            r == rank_eligible(self.requested_format, f),
    {
        match self.requested_format {
            RequestedFormatType::HighestResolution(res) => f.resolution == res,
            RequestedFormatType::HighestFrameRate(fps) => f.frame_rate == fps,
            _ => true,
        }
    }

    /// The "highest" requests: the last candidate of maximal rank.
    fn fulfill_highest(&self, all: &[CameraFormat]) -> (r: Option<CameraFormat>)
        requires
            !(self.requested_format is Exact),
            !(self.requested_format is Closest),
            !(self.requested_format is NoPreference),
        ensures
            self.fulfills(all@, r),
    {
        let mut best: Option<usize> = None;
        let mut i: usize = 0;
        while i < all.len()
            invariant
                i <= all.len(),
                match best {
                    Some(b) => b < i && self.rank_candidate(all@, b as int) && (forall|j: int|
                        0 <= j < i && #[trigger] self.rank_candidate(all@, j) ==> triple_ge(
                            format_rank(self.requested_format, all@[b as int]),
                            format_rank(self.requested_format, all@[j]),
                        )) && (forall|j: int|
                        b < j < i && #[trigger] self.rank_candidate(all@, j) ==> !triple_ge(
                            format_rank(self.requested_format, all@[j]),
                            format_rank(self.requested_format, all@[b as int]),
                        )),
                    None => forall|j: int| 0 <= j < i ==> !#[trigger] self.rank_candidate(all@, j),
                },
            decreases all.len() - i,
        {
            let f = all[i];
            if self.accepts_format(f.format) && self.eligible(f) {
                match best {
                    Some(b) => {
                        if self.rank_ge(f, all[b]) {
                            best = Some(i);
                        }
                    },
                    None => {
                        best = Some(i);
                    },
                }
            }
            i += 1;
        }
        match best {
            Some(b) => {
                assert(self.is_rank_pick(all@, b as int));
                Some(all[b])
            },
            None => {
                assert forall|j: int| !#[trigger] self.rank_candidate(all@, j) by {
                    if 0 <= j < all.len() {
                    }
                }
                None
            },
        }
    }

    /// The `Closest` request.
    fn fulfill_closest(&self, all: &[CameraFormat], c: CameraFormat) -> (r: Option<CameraFormat>)
        requires
            self.requested_format == RequestedFormatType::Closest(c),
        ensures
            self.fulfills(all@, r),
    {
        // Stage 1: the first candidate at the smallest resolution distance.
        let mut best: Option<usize> = None;
        let mut best_dist: u128 = 0;
        let mut i: usize = 0;
        while i < all.len()
            invariant
                i <= all.len(),
                match best {
                    Some(b) => b < i && self.near_candidate(all@, c, b as int) && best_dist
                        == resolution_distance(all@[b as int].resolution, c.resolution) && (forall|
                        j: int,
                    |
                        0 <= j < i && #[trigger] self.near_candidate(all@, c, j)
                            ==> resolution_distance(all@[b as int].resolution, c.resolution)
                            <= resolution_distance(all@[j].resolution, c.resolution)) && (forall|
                        j: int,
                    |
                        0 <= j < b && #[trigger] self.near_candidate(all@, c, j)
                            ==> resolution_distance(all@[b as int].resolution, c.resolution)
                            < resolution_distance(all@[j].resolution, c.resolution)),
                    None => forall|j: int|
                        0 <= j < i ==> !#[trigger] self.near_candidate(all@, c, j),
                },
            decreases all.len() - i,
        {
            let f = all[i];
            if f.format == c.format && self.accepts_format(f.format) {
                let d = squared_distance(f.resolution, c.resolution);
                match best {
                    Some(_) => {
                        if d < best_dist {
                            best = Some(i);
                            best_dist = d;
                        }
                    },
                    None => {
                        best = Some(i);
                        best_dist = d;
                    },
                }
            }
            i += 1;
        }
        let b = match best {
            Some(b) => b,
            None => {
                assert forall|j: int| !#[trigger] self.near_candidate(all@, c, j) by {
                    if 0 <= j < all.len() {
                    }
                }
                return None;
            },
        };
        assert(self.is_nearest_resolution(all@, c, b as int));
        let res = all[b].resolution;
        // Stage 2: at that resolution, the first frame rate nearest to the requested one.
        let mut pick: usize = b;
        let mut pick_dist: u32 = rate_gap(all[b].frame_rate, c.frame_rate);
        let mut k: usize = 0;
        while k < all.len()
            invariant
                k <= all.len(),
                b < all.len(),
                res == all@[b as int].resolution,
                self.near_candidate(all@, c, b as int),
                pick < all.len(),
                self.near_candidate(all@, c, pick as int) && all@[pick as int].resolution == res,
                pick_dist == rate_distance(all@[pick as int].frame_rate, c.frame_rate),
                pick < k || pick == b,
                forall|j: int|
                    0 <= j < k && #[trigger] self.near_candidate(all@, c, j) && all@[j].resolution
                        == res ==> pick_dist <= rate_distance(all@[j].frame_rate, c.frame_rate),
                forall|j: int|
                    0 <= j < k && j < pick && #[trigger] self.near_candidate(all@, c, j)
                        && all@[j].resolution == res ==> pick_dist < rate_distance(
                        all@[j].frame_rate,
                        c.frame_rate,
                    ),
            decreases all.len() - k,
        {
            let f = all[k];
            if f.format == c.format && self.accepts_format(f.format) && f.resolution == res {
                let d = rate_gap(f.frame_rate, c.frame_rate);
                if d < pick_dist || (d == pick_dist && k < pick) {
                    pick = k;
                    pick_dist = d;
                }
            }
            k += 1;
        }
        assert(self.is_nearest_rate(all@, c, res, pick as int));
        Some(CameraFormat::new(res, c.format, all[pick].frame_rate))
    }
}

/// Squared distance between two resolutions.
fn squared_distance(a: Resolution, b: Resolution) -> (r: u128)
    ensures
        r == resolution_distance(a, b),
{
    let dx: u64 = if a.width_x >= b.width_x {
        (a.width_x - b.width_x) as u64
    } else {
        (b.width_x - a.width_x) as u64
    };
    let dy: u64 = if a.height_y >= b.height_y {
        (a.height_y - b.height_y) as u64
    } else {
        (b.height_y - a.height_y) as u64
    };
    proof {
        assert(dx * dx == (a.width_x - b.width_x) * (a.width_x - b.width_x)) by (nonlinear_arith)
            requires
                dx == a.width_x - b.width_x || dx == b.width_x - a.width_x,
        ;
        assert(dy * dy == (a.height_y - b.height_y) * (a.height_y - b.height_y)) by (nonlinear_arith)
            requires
                dy == a.height_y - b.height_y || dy == b.height_y - a.height_y,
        ;
        assert(dx * dx <= 0xffff_ffff_ffff_ffff_ffff_ffff_ffff_ffffu128 / 4) by (nonlinear_arith)
            requires
                dx < 0x1_0000_0000,
        ;
        assert(dy * dy <= 0xffff_ffff_ffff_ffff_ffff_ffff_ffff_ffffu128 / 4) by (nonlinear_arith)
            requires
                dy < 0x1_0000_0000,
        ;
    }
    (dx as u128) * (dx as u128) + (dy as u128) * (dy as u128)
}

/// Absolute difference of two frame rates.
fn rate_gap(a: u32, b: u32) -> (r: u32)
    ensures
        r == rate_distance(a, b),
{
    if a >= b {
        a - b
    } else {
        b - a
    }
}


// ──────────────────────────────────────────────
// Camera controls
// ──────────────────────────────────────────────

/// The camera controls the library knows by name; `Other` carries a
/// platform-specific control id.
#[derive(Clone, Copy, Debug, Hash, PartialEq, Eq, PartialOrd, Ord, Structural)]
pub enum KnownCameraControl {
    Brightness,
    Contrast,
    Hue,
    Saturation,
    Sharpness,
    Gamma,
    WhiteBalance,
    BacklightComp,
    Gain,
    Pan,
    Tilt,
    Zoom,
    Exposure,
    Iris,
    Focus,
    Facing,
    Other(u128),
}

/// The name of a named control.
pub open spec fn known_control_name(c: KnownCameraControl) -> Seq<char> {
    match c {
        KnownCameraControl::Brightness => "Brightness"@,
        KnownCameraControl::Contrast => "Contrast"@,
        KnownCameraControl::Hue => "Hue"@,
        KnownCameraControl::Saturation => "Saturation"@,
        KnownCameraControl::Sharpness => "Sharpness"@,
        KnownCameraControl::Gamma => "Gamma"@,
        KnownCameraControl::WhiteBalance => "WhiteBalance"@,
        KnownCameraControl::BacklightComp => "BacklightComp"@,
        KnownCameraControl::Gain => "Gain"@,
        KnownCameraControl::Pan => "Pan"@,
        KnownCameraControl::Tilt => "Tilt"@,
        KnownCameraControl::Zoom => "Zoom"@,
        KnownCameraControl::Exposure => "Exposure"@,
        KnownCameraControl::Iris => "Iris"@,
        KnownCameraControl::Focus => "Focus"@,
        KnownCameraControl::Facing => "Facing"@,
        KnownCameraControl::Other(id) => "Other("@ + decimal(id as nat) + ")"@,
    }
}

impl KnownCameraControl {
    /// The control's name, `Other(<id>)` for a platform-specific control.
    pub fn to_string(&self) -> (r: String)
        ensures
            r@ == known_control_name(*self),
    {
        match self {
            KnownCameraControl::Brightness => String::from_str("Brightness"),
            KnownCameraControl::Contrast => String::from_str("Contrast"),
            KnownCameraControl::Hue => String::from_str("Hue"),
            KnownCameraControl::Saturation => String::from_str("Saturation"),
            KnownCameraControl::Sharpness => String::from_str("Sharpness"),
            KnownCameraControl::Gamma => String::from_str("Gamma"),
            KnownCameraControl::WhiteBalance => String::from_str("WhiteBalance"),
            KnownCameraControl::BacklightComp => String::from_str("BacklightComp"),
            KnownCameraControl::Gain => String::from_str("Gain"),
            KnownCameraControl::Pan => String::from_str("Pan"),
            KnownCameraControl::Tilt => String::from_str("Tilt"),
            KnownCameraControl::Zoom => String::from_str("Zoom"),
            KnownCameraControl::Exposure => String::from_str("Exposure"),
            KnownCameraControl::Iris => String::from_str("Iris"),
            KnownCameraControl::Focus => String::from_str("Focus"),
            KnownCameraControl::Facing => String::from_str("Facing"),
            KnownCameraControl::Other(id) => {
                let s = joined(String::from_str("Other("), decimal_string(*id).as_str());
                joined(s, ")")
            },
        }
    }
}

/// The named camera controls, in declaration order.
pub fn all_known_camera_controls() -> (r: Vec<KnownCameraControl>)
    ensures
        r.len() == 16,
        forall|i: int, j: int| 0 <= i < j < r.len() ==> r[i] != r[j],
        forall|i: int| 0 <= i < r.len() ==> !(r[i] is Other),
{
    vec![
        KnownCameraControl::Brightness,
        KnownCameraControl::Contrast,
        KnownCameraControl::Hue,
        KnownCameraControl::Saturation,
        KnownCameraControl::Sharpness,
        KnownCameraControl::Gamma,
        KnownCameraControl::WhiteBalance,
        KnownCameraControl::BacklightComp,
        KnownCameraControl::Gain,
        KnownCameraControl::Pan,
        KnownCameraControl::Tilt,
        KnownCameraControl::Zoom,
        KnownCameraControl::Exposure,
        KnownCameraControl::Iris,
        KnownCameraControl::Focus,
        KnownCameraControl::Facing,
    ]
}

/// How a control behaves.
#[derive(Clone, Copy, Debug, Hash, PartialEq, Eq, PartialOrd, Ord, Structural)]
pub enum KnownCameraControlFlag {
    Automatic,
    Manual,
    Continuous,
    ReadOnly,
    WriteOnly,
    Volatile,
    Disabled,
}

// An IEEE 754 binary64 value is held by its bit pattern (`f64::to_bits`).

/// The sign bit of a binary64 bit pattern.
pub open spec fn f64_sign(b: u64) -> bool {
    b >= 0x8000_0000_0000_0000
}

/// The pattern without its sign bit (the magnitude, ordered as the absolute value).
pub open spec fn f64_magnitude(b: u64) -> int {
    (b % 0x8000_0000_0000_0000) as int
}

/// The biased exponent field.
pub open spec fn f64_exponent(b: u64) -> int {
    f64_magnitude(b) / 0x10_0000_0000_0000
}

/// Not a number: exponent all ones, fraction non-zero.
pub open spec fn f64_is_nan(b: u64) -> bool {
    f64_exponent(b) == 0x7ff && f64_magnitude(b) % 0x10_0000_0000_0000 != 0
}

/// Finite: exponent not all ones.
pub open spec fn f64_is_finite(b: u64) -> bool {
    f64_exponent(b) != 0x7ff
}

/// Zero of either sign.
pub open spec fn f64_is_zero(b: u64) -> bool {
    f64_magnitude(b) == 0
}

/// An integer that orders non-NaN binary64 values as their numeric order
/// (both zeros map to 0).
pub open spec fn f64_order_key(b: u64) -> int {
    if f64_sign(b) {
        -f64_magnitude(b)
    } else {
        f64_magnitude(b)
    }
}

/// `a >= b` on binary64 values: false when either is NaN.
pub open spec fn f64_ge(a: u64, b: u64) -> bool {
    !f64_is_nan(a) && !f64_is_nan(b) && f64_order_key(a) >= f64_order_key(b)
}

fn magnitude_of(b: u64) -> (r: u64)
    ensures
        r == f64_magnitude(b),
{
    b % 0x8000_0000_0000_0000
}

fn is_nan_bits(b: u64) -> (r: bool)
    ensures
        r == f64_is_nan(b),
{
    let m = magnitude_of(b);
    m / 0x10_0000_0000_0000 == 0x7ff && m % 0x10_0000_0000_0000 != 0
}

fn is_finite_bits(b: u64) -> (r: bool)
    ensures
        r == f64_is_finite(b),
{
    magnitude_of(b) / 0x10_0000_0000_0000 != 0x7ff
}

fn ge_bits(a: u64, b: u64) -> (r: bool)
    ensures
        r == f64_ge(a, b),
{
    if is_nan_bits(a) || is_nan_bits(b) {
        return false;
    }
    let ma = magnitude_of(a);
    let mb = magnitude_of(b);
    let sa = a >= 0x8000_0000_0000_0000;
    let sb = b >= 0x8000_0000_0000_0000;
    if !sa && !sb {
        ma >= mb
    } else if sa && sb {
        ma <= mb
    } else if !sa && sb {
        true
    } else {
        ma == 0 && mb == 0
    }
}

/// A value to set a control to. Floating-point values are binary64 bit patterns.
#[derive(Clone, Debug, PartialEq)]
pub enum ControlValueSetter {
    NoValue,
    Integer(i64),
    Float(u64),
    Boolean(bool),
    String(String),
    Bytes(Vec<u8>),
    KeyValue(i128, i128),
    Point(u64, u64),
    EnumValue(i64),
    RGB(u64, u64, u64),
}

impl ControlValueSetter {
    /// `Some(())` for `NoValue`.
    pub fn as_none(&self) -> (r: Option<()>)
        ensures
            r is Some <==> *self is NoValue,
    {
        match self {
            ControlValueSetter::NoValue => Some(()),
            _ => None,
        }
    }

    /// The integer, for `Integer`.
    pub fn as_integer(&self) -> (r: Option<&i64>)
        ensures
            r == (match *self {
                ControlValueSetter::Integer(i) => Some(&i),
                _ => None::<&i64>,
            }),
    {
        match self {
            ControlValueSetter::Integer(i) => Some(i),
            _ => None,
        }
    }

    /// The float bit pattern, for `Float`.
    pub fn as_float(&self) -> (r: Option<&u64>)
        ensures
            r == (match *self {
                ControlValueSetter::Float(f) => Some(&f),
                _ => None::<&u64>,
            }),
    {
        match self {
            ControlValueSetter::Float(f) => Some(f),
            _ => None,
        }
    }

    /// The flag, for `Boolean`.
    pub fn as_boolean(&self) -> (r: Option<&bool>)
        ensures
            r == (match *self {
                ControlValueSetter::Boolean(b) => Some(&b),
                _ => None::<&bool>,
            }),
    {
        match self {
            ControlValueSetter::Boolean(b) => Some(b),
            _ => None,
        }
    }

    /// The text, for `String`.
    pub fn as_str(&self) -> (r: Option<&str>)
        ensures
            r is Some <==> *self is String,
            r matches Some(t) ==> (*self matches ControlValueSetter::String(s) && t@ == s@),
    {
        match self {
            ControlValueSetter::String(s) => Some(s.as_str()),
            _ => None,
        }
    }

    /// The bytes, for `Bytes`.
    pub fn as_bytes(&self) -> (r: Option<&[u8]>)
        ensures
            r is Some <==> *self is Bytes,
            r matches Some(t) ==> (*self matches ControlValueSetter::Bytes(v) && t@ == v@),
    {
        match self {
            ControlValueSetter::Bytes(v) => Some(v.as_slice()),
            _ => None,
        }
    }

    /// The key and value, for `KeyValue`.
    pub fn as_key_value(&self) -> (r: Option<(&i128, &i128)>)
        ensures
            r == (match *self {
                ControlValueSetter::KeyValue(k, v) => Some((&k, &v)),
                _ => None::<(&i128, &i128)>,
            }),
    {
        match self {
            ControlValueSetter::KeyValue(k, v) => Some((k, v)),
            _ => None,
        }
    }

    /// The coordinates' bit patterns, for `Point`.
    pub fn as_point(&self) -> (r: Option<(&u64, &u64)>)
        ensures
            r == (match *self {
                ControlValueSetter::Point(x, y) => Some((&x, &y)),
                _ => None::<(&u64, &u64)>,
            }),
    {
        match self {
            ControlValueSetter::Point(x, y) => Some((x, y)),
            _ => None,
        }
    }

    /// The enum value, for `EnumValue`.
    pub fn as_enum(&self) -> (r: Option<&i64>)
        ensures
            r == (match *self {
                ControlValueSetter::EnumValue(e) => Some(&e),
                _ => None::<&i64>,
            }),
    {
        match self {
            ControlValueSetter::EnumValue(e) => Some(e),
            _ => None,
        }
    }

    /// The channels' bit patterns, for `RGB`.
    pub fn as_rgb(&self) -> (r: Option<(&u64, &u64, &u64)>)
        ensures
            r == (match *self {
                ControlValueSetter::RGB(x, y, z) => Some((&x, &y, &z)),
                _ => None::<(&u64, &u64, &u64)>,
            }),
    {
        match self {
            ControlValueSetter::RGB(x, y, z) => Some((x, y, z)),
            _ => None,
        }
    }
}


/// What a control accepts, its current value and its default. Floating-point
/// values are binary64 bit patterns.
#[derive(Debug, PartialEq)]
pub enum ControlValueDescription {
    NoValue,
    Integer { value: i64, default: i64, step: i64 },
    IntegerRange { min: i64, max: i64, value: i64, step: i64, default: i64 },
    Float { value: u64, default: u64, step: u64 },
    FloatRange { min: u64, max: u64, value: u64, step: u64, default: u64 },
    Boolean { value: bool, default: bool },
    String { value: String, default: Option<String> },
    Bytes { value: Vec<u8>, default: Vec<u8> },
    KeyValuePair { key: i128, value: i128, default: (i128, i128) },
    Point { value: (u64, u64), default: (u64, u64) },
    Enum { value: i64, possible: Vec<i64>, default: i64 },
    RGB { value: (u64, u64, u64), max: (u64, u64, u64), default: (u64, u64, u64) },
}

/// Two descriptions hold the same values (text and bytes by their contents).
pub open spec fn same_description(a: ControlValueDescription, b: ControlValueDescription) -> bool {
    match (a, b) {
        (
            ControlValueDescription::String { value: v1, default: d1 },
            ControlValueDescription::String { value: v2, default: d2 },
        ) => v1@ == v2@ && match (d1, d2) {
            (Some(x), Some(y)) => x@ == y@,
            (None, None) => true,
            _ => false,
        },
        (
            ControlValueDescription::Bytes { value: v1, default: d1 },
            ControlValueDescription::Bytes { value: v2, default: d2 },
        ) => v1@ == v2@ && d1@ == d2@,
        (
            ControlValueDescription::Enum { value: v1, possible: p1, default: e1 },
            ControlValueDescription::Enum { value: v2, possible: p2, default: e2 },
        ) => v1 == v2 && p1@ == p2@ && e1 == e2,
        _ => a == b,
    }
}

impl Clone for ControlValueDescription {
    /// A description holding the same values.
    fn clone(&self) -> (r: Self)
        ensures
            same_description(r, *self),
    {
        match self {
            ControlValueDescription::String { value, default } => {
                let d = match default {
                    Some(x) => Some(x.clone()),
                    None => None,
                };
                ControlValueDescription::String { value: value.clone(), default: d }
            },
            ControlValueDescription::Bytes { value, default } => {
                let v = value.clone();
                let d = default.clone();
                assert(v@ =~= value@);
                assert(d@ =~= default@);
                ControlValueDescription::Bytes { value: v, default: d }
            },
            ControlValueDescription::Enum { value, possible, default } => {
                let p = possible.clone();
                assert(p@ =~= possible@);
                ControlValueDescription::Enum { value: *value, possible: p, default: *default }
            },
            ControlValueDescription::NoValue => ControlValueDescription::NoValue,
            ControlValueDescription::Integer { value, default, step } => ControlValueDescription::Integer {
                value: *value,
                default: *default,
                step: *step,
            },
            ControlValueDescription::IntegerRange { min, max, value, step, default } =>
                ControlValueDescription::IntegerRange {
                min: *min,
                max: *max,
                value: *value,
                step: *step,
                default: *default,
            },
            ControlValueDescription::Float { value, default, step } => ControlValueDescription::Float {
                value: *value,
                default: *default,
                step: *step,
            },
            ControlValueDescription::FloatRange { min, max, value, step, default } =>
                ControlValueDescription::FloatRange {
                min: *min,
                max: *max,
                value: *value,
                step: *step,
                default: *default,
            },
            ControlValueDescription::Boolean { value, default } => ControlValueDescription::Boolean {
                value: *value,
                default: *default,
            },
            ControlValueDescription::KeyValuePair { key, value, default } =>
                ControlValueDescription::KeyValuePair { key: *key, value: *value, default: *default },
            ControlValueDescription::Point { value, default } => ControlValueDescription::Point {
                value: *value,
                default: *default,
            },
            ControlValueDescription::RGB { value, max, default } => ControlValueDescription::RGB {
                value: *value,
                max: *max,
                default: *default,
            },
        }
    }
}

/// The outcome of checking a setter against a description.
#[derive(Clone, Copy, Debug, PartialEq, Eq, Structural)]
pub enum SetterVerdict {
    /// The setter is acceptable.
    Accept,
    /// The setter is not acceptable.
    Reject,
    /// Acceptable exactly when, in binary64 arithmetic,
    /// `(candidate - default).abs() % step == 0.0` or `(candidate - current) % step == 0.0`.
    FloatStep { candidate: u64, default: u64, current: u64, step: u64 },
}

/// `|x|`.
pub open spec fn abs_int(x: int) -> int {
    if x < 0 {
        -x
    } else {
        x
    }
}

/// `i` lies a whole number of (non-zero) `step`s away from `base`.
pub open spec fn int_step_ok(i: i64, base: i64, step: i64) -> bool {
    abs_int(i + base) % abs_int(step as int) == 0
}

/// Accept when `b` holds.
pub open spec fn verdict_of(b: bool) -> SetterVerdict {
    if b {
        SetterVerdict::Accept
    } else {
        SetterVerdict::Reject
    }
}

/// What a setter is worth against a description. A zero step accepts any
/// setter; otherwise the setter must be of the description's kind, and ranges,
/// steps, enum members, finiteness (points) and lower bounds (RGB) are checked.
pub open spec fn setter_verdict(desc: ControlValueDescription, setter: ControlValueSetter) -> SetterVerdict {
    match desc {
        ControlValueDescription::NoValue => verdict_of(setter is NoValue),
        ControlValueDescription::Integer { value, default, step } => if step == 0 {
            SetterVerdict::Accept
        } else {
            match setter {
                ControlValueSetter::Integer(i) => verdict_of(
                    int_step_ok(i, default, step) || int_step_ok(i, value, step),
                ),
                _ => SetterVerdict::Reject,
            }
        },
        ControlValueDescription::IntegerRange { min, max, value, step, default } => if step == 0 {
            SetterVerdict::Accept
        } else {
            match setter {
                ControlValueSetter::Integer(i) => verdict_of(
                    (int_step_ok(i, default, step) || int_step_ok(i, value, step)) && min <= i
                        && i <= max,
                ),
                _ => SetterVerdict::Reject,
            }
        },
        ControlValueDescription::Float { value, default, step } => if f64_is_zero(step) {
            SetterVerdict::Accept
        } else {
            match setter {
                ControlValueSetter::Float(f) => SetterVerdict::FloatStep {
                    candidate: f,
                    default,
                    current: value,
                    step,
                },
                _ => SetterVerdict::Reject,
            }
        },
        ControlValueDescription::FloatRange { min, max, value, step, default } => if f64_is_zero(
            step,
        ) {
            SetterVerdict::Accept
        } else {
            match setter {
                ControlValueSetter::Float(f) => if f64_ge(f, min) && f64_ge(max, f) {
                    SetterVerdict::FloatStep { candidate: f, default, current: value, step }
                } else {
                    SetterVerdict::Reject
                },
                _ => SetterVerdict::Reject,
            }
        },
        ControlValueDescription::Boolean { .. } => verdict_of(setter is Boolean),
        ControlValueDescription::String { .. } => verdict_of(setter is String),
        ControlValueDescription::Bytes { .. } => verdict_of(setter is Bytes),
        ControlValueDescription::KeyValuePair { .. } => verdict_of(setter is KeyValue),
        ControlValueDescription::Point { .. } => match setter {
            ControlValueSetter::Point(x, y) => verdict_of(
                !f64_is_nan(x) && !f64_is_nan(y) && f64_is_finite(x) && f64_is_finite(y),
            ),
            _ => SetterVerdict::Reject,
        },
        ControlValueDescription::Enum { possible, .. } => match setter {
            ControlValueSetter::EnumValue(e) => verdict_of(possible@.contains(e)),
            _ => SetterVerdict::Reject,
        },
        ControlValueDescription::RGB { max, .. } => match setter {
            ControlValueSetter::RGB(r, g, b) => verdict_of(
                f64_ge(r, max.0) && f64_ge(g, max.1) && f64_ge(b, max.2),
            ),
            _ => SetterVerdict::Reject,
        },
    }
}

/// The setter that holds a description's current value.
pub open spec fn description_value(desc: ControlValueDescription) -> ControlValueSetter {
    match desc {
        ControlValueDescription::NoValue => ControlValueSetter::NoValue,
        ControlValueDescription::Integer { value, .. } => ControlValueSetter::Integer(value),
        ControlValueDescription::IntegerRange { value, .. } => ControlValueSetter::Integer(value),
        ControlValueDescription::Float { value, .. } => ControlValueSetter::Float(value),
        ControlValueDescription::FloatRange { value, .. } => ControlValueSetter::Float(value),
        ControlValueDescription::Boolean { value, .. } => ControlValueSetter::Boolean(value),
        ControlValueDescription::String { value, .. } => ControlValueSetter::String(value),
        ControlValueDescription::Bytes { value, .. } => ControlValueSetter::Bytes(value),
        ControlValueDescription::KeyValuePair { key, value, .. } => ControlValueSetter::KeyValue(
            key,
            value,
        ),
        ControlValueDescription::Point { value, .. } => ControlValueSetter::Point(value.0, value.1),
        ControlValueDescription::Enum { value, .. } => ControlValueSetter::EnumValue(value),
        ControlValueDescription::RGB { value, .. } => ControlValueSetter::RGB(
            value.0,
            value.1,
            value.2,
        ),
    }
}

/// Two setters hold the same value (text and bytes by their contents).
pub open spec fn same_setter(a: ControlValueSetter, b: ControlValueSetter) -> bool {
    match (a, b) {
        (ControlValueSetter::String(x), ControlValueSetter::String(y)) => x@ == y@,
        (ControlValueSetter::Bytes(x), ControlValueSetter::Bytes(y)) => x@ == y@,
        _ => a == b,
    }
}

fn int_step_ok_exec(i: i64, base: i64, step: i64) -> (r: bool)
    requires
        step != 0,
    ensures
        r == int_step_ok(i, base, step),
{
    let x: i128 = i as i128 + base as i128;
    let ux: u128 = if x < 0 {
        (-x) as u128
    } else {
        x as u128
    };
    let us: u128 = if step < 0 {
        (-(step as i128)) as u128
    } else {
        step as u128
    };
    ux % us == 0
}

impl ControlValueDescription {
    /// The setter holding the current value.
    pub fn value(&self) -> (r: ControlValueSetter)
        ensures
            same_setter(r, description_value(*self)),
    {
        match self {
            ControlValueDescription::NoValue => ControlValueSetter::NoValue,
            ControlValueDescription::Integer { value, .. } => ControlValueSetter::Integer(*value),
            ControlValueDescription::IntegerRange { value, .. } => ControlValueSetter::Integer(
                *value,
            ),
            ControlValueDescription::Float { value, .. } => ControlValueSetter::Float(*value),
            ControlValueDescription::FloatRange { value, .. } => ControlValueSetter::Float(*value),
            ControlValueDescription::Boolean { value, .. } => ControlValueSetter::Boolean(*value),
            ControlValueDescription::String { value, .. } => ControlValueSetter::String(
                value.clone(),
            ),
            ControlValueDescription::Bytes { value, .. } => {
                let v = value.clone();
                assert(v@ =~= value@);
                ControlValueSetter::Bytes(v)
            },
            ControlValueDescription::KeyValuePair { key, value, .. } => ControlValueSetter::KeyValue(
                *key,
                *value,
            ),
            ControlValueDescription::Point { value, .. } => ControlValueSetter::Point(
                value.0,
                value.1,
            ),
            ControlValueDescription::Enum { value, .. } => ControlValueSetter::EnumValue(*value),
            ControlValueDescription::RGB { value, .. } => ControlValueSetter::RGB(
                value.0,
                value.1,
                value.2,
            ),
        }
    }

    /// Check `setter` against this description; see [`setter_verdict`]. For a
    /// floating-point control with a non-zero step, the verdict carries the
    /// operands of its binary64 step test.
    pub fn setter_verdict(&self, setter: &ControlValueSetter) -> (r: SetterVerdict)
        ensures
            r == setter_verdict(*self, *setter),
    {
        match self {
            ControlValueDescription::NoValue => {
                if setter.as_none().is_some() {
                    SetterVerdict::Accept
                } else {
                    SetterVerdict::Reject
                }
            },
            ControlValueDescription::Integer { value, default, step } => {
                if *step == 0 {
                    return SetterVerdict::Accept;
                }
                match setter {
                    ControlValueSetter::Integer(i) => {
                        if int_step_ok_exec(*i, *default, *step) || int_step_ok_exec(
                            *i,
                            *value,
                            *step,
                        ) {
                            SetterVerdict::Accept
                        } else {
                            SetterVerdict::Reject
                        }
                    },
                    _ => SetterVerdict::Reject,
                }
            },
            ControlValueDescription::IntegerRange { min, max, value, step, default } => {
                if *step == 0 {
                    return SetterVerdict::Accept;
                }
                match setter {
                    ControlValueSetter::Integer(i) => {
                        if (int_step_ok_exec(*i, *default, *step) || int_step_ok_exec(
                            *i,
                            *value,
                            *step,
                        )) && *min <= *i && *i <= *max {
                            SetterVerdict::Accept
                        } else {
                            SetterVerdict::Reject
                        }
                    },
                    _ => SetterVerdict::Reject,
                }
            },
            ControlValueDescription::Float { value, default, step } => {
                if magnitude_of(*step) == 0 {
                    return SetterVerdict::Accept;
                }
                match setter {
                    ControlValueSetter::Float(f) => SetterVerdict::FloatStep {
                        candidate: *f,
                        default: *default,
                        current: *value,
                        step: *step,
                    },
                    _ => SetterVerdict::Reject,
                }
            },
            ControlValueDescription::FloatRange { min, max, value, step, default } => {
                if magnitude_of(*step) == 0 {
                    return SetterVerdict::Accept;
                }
                match setter {
                    ControlValueSetter::Float(f) => {
                        if ge_bits(*f, *min) && ge_bits(*max, *f) {
                            SetterVerdict::FloatStep {
                                candidate: *f,
                                default: *default,
                                current: *value,
                                step: *step,
                            }
                        } else {
                            SetterVerdict::Reject
                        }
                    },
                    _ => SetterVerdict::Reject,
                }
            },
            ControlValueDescription::Boolean { .. } => match setter {
                ControlValueSetter::Boolean(_) => SetterVerdict::Accept,
                _ => SetterVerdict::Reject,
            },
            ControlValueDescription::String { .. } => match setter {
                ControlValueSetter::String(_) => SetterVerdict::Accept,
                _ => SetterVerdict::Reject,
            },
            ControlValueDescription::Bytes { .. } => match setter {
                ControlValueSetter::Bytes(_) => SetterVerdict::Accept,
                _ => SetterVerdict::Reject,
            },
            ControlValueDescription::KeyValuePair { .. } => match setter {
                ControlValueSetter::KeyValue(_, _) => SetterVerdict::Accept,
                _ => SetterVerdict::Reject,
            },
            ControlValueDescription::Point { .. } => match setter {
                ControlValueSetter::Point(x, y) => {
                    if !is_nan_bits(*x) && !is_nan_bits(*y) && is_finite_bits(*x) && is_finite_bits(
                        *y,
                    ) {
                        SetterVerdict::Accept
                    } else {
                        SetterVerdict::Reject
                    }
                },
                _ => SetterVerdict::Reject,
            },
            ControlValueDescription::Enum { possible, .. } => match setter {
                ControlValueSetter::EnumValue(e) => {
                    let mut k: usize = 0;
                    while k < possible.len()
                        invariant
                            k <= possible.len(),
                            forall|j: int| 0 <= j < k ==> possible@[j] != *e,
                            setter_verdict(*self, *setter) == verdict_of(possible@.contains(*e)),
                        decreases possible.len() - k,
                    {
                        if possible[k] == *e {
                            assert(possible@[k as int] == *e);
                            return SetterVerdict::Accept;
                        }
                        k += 1;
                    }
                    SetterVerdict::Reject
                },
                _ => SetterVerdict::Reject,
            },
            ControlValueDescription::RGB { max, .. } => match setter {
                ControlValueSetter::RGB(r, g, b) => {
                    if ge_bits(*r, max.0) && ge_bits(*g, max.1) && ge_bits(*b, max.2) {
                        SetterVerdict::Accept
                    } else {
                        SetterVerdict::Reject
                    }
                },
                _ => SetterVerdict::Reject,
            },
        }
    }
}

/// A control of a camera: which control, its name, what it accepts, how it behaves.
#[derive(Clone, Debug, PartialEq)]
pub struct CameraControl {
    control: KnownCameraControl,
    name: String,
    description: ControlValueDescription,
    flag: Vec<KnownCameraControlFlag>,
    active: bool,
}

impl CameraControl {
    /// Which control.
    pub closed spec fn spec_control(&self) -> KnownCameraControl {
        self.control
    }

    /// Its name.
    pub closed spec fn spec_name(&self) -> Seq<char> {
        self.name@
    }

    /// What it accepts and holds.
    pub closed spec fn spec_description(&self) -> ControlValueDescription {
        self.description
    }

    /// How it behaves.
    pub closed spec fn spec_flags(&self) -> Seq<KnownCameraControlFlag> {
        self.flag@
    }

    /// Whether it is active.
    pub closed spec fn spec_active(&self) -> bool {
        self.active
    }

    /// A control from its parts.
    pub fn new(
        control: KnownCameraControl,
        name: String,
        description: ControlValueDescription,
        flag: Vec<KnownCameraControlFlag>,
        active: bool,
    ) -> (r: Self)
        ensures
            r.spec_control() == control,
            r.spec_name() == name@,
            r.spec_description() == description,
            r.spec_flags() == flag@,
            r.spec_active() == active,
    {
        CameraControl { control, name, description, flag, active }
    }

    /// Its name.
    pub fn name(&self) -> (r: &str)
        ensures
            r@ == self.spec_name(),
    {
        self.name.as_str()
    }

    /// What it accepts and holds.
    pub fn description(&self) -> (r: &ControlValueDescription)
        ensures
            *r == self.spec_description(),
    {
        &self.description
    }

    /// The setter holding its current value.
    pub fn value(&self) -> (r: ControlValueSetter)
        ensures
            same_setter(r, description_value(self.spec_description())),
    {
        self.description.value()
    }

    /// Which control.
    pub fn control(&self) -> (r: KnownCameraControl)
        ensures
            r == self.spec_control(),
    {
        self.control
    }

    /// How it behaves.
    pub fn flag(&self) -> (r: &[KnownCameraControlFlag])
        ensures
            r@ == self.spec_flags(),
    {
        self.flag.as_slice()
    }

    /// Whether it is active.
    pub fn active(&self) -> (r: bool)
        ensures
            r == self.spec_active(),
    {
        self.active
    }

    /// Mark it active or not; nothing else changes.
    pub fn set_active(&mut self, active: bool)
        ensures
            final(self).spec_active() == active,
            final(self).spec_control() == old(self).spec_control(),
            final(self).spec_name() == old(self).spec_name(),
            final(self).spec_description() == old(self).spec_description(),
            final(self).spec_flags() == old(self).spec_flags(),
    {
        self.active = active;
    }
}


/// A camera index printed as text and read back is the same number.
pub proof fn lemma_camera_index_text_roundtrip(n: u32)
    ensures
        parse_u32_spec(camera_index_text(CameraIndex::Index(n))) == Some(n),
{
    crate::text::lemma_decimal_parse_roundtrip(n);
}

/// Whether a description's step is zero (integer or floating-point).
pub open spec fn has_zero_step(desc: ControlValueDescription) -> bool {
    match desc {
        ControlValueDescription::Integer { step, .. } => step == 0,
        ControlValueDescription::IntegerRange { step, .. } => step == 0,
        ControlValueDescription::Float { step, .. } => f64_is_zero(step),
        ControlValueDescription::FloatRange { step, .. } => f64_is_zero(step),
        _ => false,
    }
}

/// A numeric description with a zero step accepts every setter, whatever its kind.
pub proof fn lemma_zero_step_accepts_all(desc: ControlValueDescription, setter: ControlValueSetter)
    requires
        has_zero_step(desc),
    ensures
        setter_verdict(desc, setter) == SetterVerdict::Accept,
{
}

/// A setter of another kind than its description is rejected, unless the
/// description is numeric with a zero step.
pub proof fn lemma_mismatched_kind_rejected(desc: ControlValueDescription, setter: ControlValueSetter)
    requires
        !has_zero_step(desc),
        !setter_kind_matches(desc, setter),
    ensures
        setter_verdict(desc, setter) == SetterVerdict::Reject,
{
}

/// The setter kind a description takes.
pub open spec fn setter_kind_matches(desc: ControlValueDescription, setter: ControlValueSetter) -> bool {
    match desc {
        ControlValueDescription::NoValue => setter is NoValue,
        ControlValueDescription::Integer { .. } => setter is Integer,
        ControlValueDescription::IntegerRange { .. } => setter is Integer,
        ControlValueDescription::Float { .. } => setter is Float,
        ControlValueDescription::FloatRange { .. } => setter is Float,
        ControlValueDescription::Boolean { .. } => setter is Boolean,
        ControlValueDescription::String { .. } => setter is String,
        ControlValueDescription::Bytes { .. } => setter is Bytes,
        ControlValueDescription::KeyValuePair { .. } => setter is KeyValue,
        ControlValueDescription::Point { .. } => setter is Point,
        ControlValueDescription::Enum { .. } => setter is EnumValue,
        ControlValueDescription::RGB { .. } => setter is RGB,
    }
}


/// A format that a request picks is one whose pixel format the request
/// accepts, and, unless the request names an exact format, one of the offered
/// formats.
pub proof fn lemma_fulfilled_format_acceptable(
    req: RequestedFormat,
    all: Seq<CameraFormat>,
    f: CameraFormat,
)
    requires
        req.fulfills(all, Some(f)),
    ensures
        req.accepts(f),
        !(req.request_kind() is Exact) ==> all.contains(f),
{
    match req.request_kind() {
        RequestedFormatType::Exact(_) => {},
        RequestedFormatType::NoPreference => {
            let i = choose|i: int|
                0 <= i < all.len() && req.accepts(all[i]) && f == all[i] && (forall|j: int|
                    0 <= j < i ==> !req.accepts(#[trigger] all[j]));
            assert(all[i] == f);
        },
        RequestedFormatType::Closest(c) => {
            let (i, j) = choose|i: int, j: int|
                req.is_nearest_resolution(all, c, i) && req.is_nearest_rate(
                    all,
                    c,
                    all[i].resolution,
                    j,
                ) && f == (CameraFormat {
                    resolution: all[i].resolution,
                    format: c.format,
                    frame_rate: all[j].frame_rate,
                });
            assert(all[j] == f);
        },
        _ => {
            let i = choose|i: int| req.is_rank_pick(all, i) && f == all[i];
            assert(all[i] == f);
        },
    }
}

/// A request picks at most one format out of a list: `fulfill` is a function
/// of the request and the list.
pub proof fn lemma_fulfill_unique(
    req: RequestedFormat,
    all: Seq<CameraFormat>,
    r1: Option<CameraFormat>,
    r2: Option<CameraFormat>,
)
    requires
        req.fulfills(all, r1),
        req.fulfills(all, r2),
    ensures
        r1 == r2,
{
    match req.request_kind() {
        RequestedFormatType::Exact(_) => {},
        RequestedFormatType::NoPreference => {
            if r1 is Some && r2 is Some {
                let i1 = choose|i: int|
                    0 <= i < all.len() && req.accepts(all[i]) && r1->Some_0 == all[i] && (forall|
                        j: int,
                    | 0 <= j < i ==> !req.accepts(#[trigger] all[j]));
                let i2 = choose|i: int|
                    0 <= i < all.len() && req.accepts(all[i]) && r2->Some_0 == all[i] && (forall|
                        j: int,
                    | 0 <= j < i ==> !req.accepts(#[trigger] all[j]));
                if i1 < i2 {
                    assert(!req.accepts(all[i1]));
                } else if i2 < i1 {
                    assert(!req.accepts(all[i2]));
                }
            } else if r1 is Some {
                let i1 = choose|i: int|
                    0 <= i < all.len() && req.accepts(all[i]) && r1->Some_0 == all[i] && (forall|
                        j: int,
                    | 0 <= j < i ==> !req.accepts(#[trigger] all[j]));
                assert(!req.accepts(all[i1]));
            } else if r2 is Some {
                let i2 = choose|i: int|
                    0 <= i < all.len() && req.accepts(all[i]) && r2->Some_0 == all[i] && (forall|
                        j: int,
                    | 0 <= j < i ==> !req.accepts(#[trigger] all[j]));
                assert(!req.accepts(all[i2]));
            }
        },
        RequestedFormatType::Closest(c) => {
            if r1 is Some && r2 is Some {
                let (a1, b1) = choose|i: int, j: int|
                    req.is_nearest_resolution(all, c, i) && req.is_nearest_rate(
                        all,
                        c,
                        all[i].resolution,
                        j,
                    ) && r1->Some_0 == (CameraFormat {
                        resolution: all[i].resolution,
                        format: c.format,
                        frame_rate: all[j].frame_rate,
                    });
                let (a2, b2) = choose|i: int, j: int|
                    req.is_nearest_resolution(all, c, i) && req.is_nearest_rate(
                        all,
                        c,
                        all[i].resolution,
                        j,
                    ) && r2->Some_0 == (CameraFormat {
                        resolution: all[i].resolution,
                        format: c.format,
                        frame_rate: all[j].frame_rate,
                    });
                assert(req.near_candidate(all, c, a1) && req.near_candidate(all, c, a2));
                if a1 < a2 {
                    assert(false);
                } else if a2 < a1 {
                    assert(false);
                }
                assert(req.near_candidate(all, c, b1) && req.near_candidate(all, c, b2));
                if b1 < b2 {
                    assert(false);
                } else if b2 < b1 {
                    assert(false);
                }
            } else if r1 is Some {
                let (a1, b1) = choose|i: int, j: int|
                    req.is_nearest_resolution(all, c, i) && req.is_nearest_rate(
                        all,
                        c,
                        all[i].resolution,
                        j,
                    ) && r1->Some_0 == (CameraFormat {
                        resolution: all[i].resolution,
                        format: c.format,
                        frame_rate: all[j].frame_rate,
                    });
                assert(req.near_candidate(all, c, a1));
            } else if r2 is Some {
                let (a2, b2) = choose|i: int, j: int|
                    req.is_nearest_resolution(all, c, i) && req.is_nearest_rate(
                        all,
                        c,
                        all[i].resolution,
                        j,
                    ) && r2->Some_0 == (CameraFormat {
                        resolution: all[i].resolution,
                        format: c.format,
                        frame_rate: all[j].frame_rate,
                    });
                assert(req.near_candidate(all, c, a2));
            }
        },
        _ => {
            if r1 is Some && r2 is Some {
                let i1 = choose|i: int| req.is_rank_pick(all, i) && r1->Some_0 == all[i];
                let i2 = choose|i: int| req.is_rank_pick(all, i) && r2->Some_0 == all[i];
                assert(req.rank_candidate(all, i1) && req.rank_candidate(all, i2));
                if i1 < i2 {
                    assert(false);
                } else if i2 < i1 {
                    assert(false);
                }
            } else if r1 is Some {
                let i1 = choose|i: int| req.is_rank_pick(all, i) && r1->Some_0 == all[i];
                assert(req.rank_candidate(all, i1));
            } else if r2 is Some {
                let i2 = choose|i: int| req.is_rank_pick(all, i) && r2->Some_0 == all[i];
                assert(req.rank_candidate(all, i2));
            }
        },
    }
}

} // verus!

verus! {

/// A "highest resolution" request for `res` only ever picks an offered format
/// of an accepted pixel format at exactly `res` (width and height), and among
/// those the one with the highest frame rate; it picks nothing only when no
/// accepted format at `res` is offered.
pub proof fn lemma_highest_resolution_is_exact(
    req: RequestedFormat,
    all: Seq<CameraFormat>,
    res: Resolution,
    r: Option<CameraFormat>,
)
    requires
        req.request_kind() == RequestedFormatType::HighestResolution(res),
        req.fulfills(all, r),
    ensures
        r matches Some(f) ==> {
            &&& f.resolution.width_x == res.width_x
            &&& f.resolution.height_y == res.height_y
            &&& all.contains(f)
            &&& req.decoders().contains(f.format)
            &&& forall|g: CameraFormat|
                all.contains(g) && req.decoders().contains(g.format) && g.resolution.width_x
                    == res.width_x && g.resolution.height_y == res.height_y ==> g.frame_rate
                    <= f.frame_rate
        },
        r is None ==> forall|g: CameraFormat|
            all.contains(g) && req.decoders().contains(g.format) ==> !(g.resolution.width_x
                == res.width_x && g.resolution.height_y == res.height_y),
{
    match r {
        Some(f) => {
            let i = choose|i: int| req.is_rank_pick(all, i) && f == all[i];
            assert(all[i] == f);
            assert forall|g: CameraFormat|
                all.contains(g) && req.decoders().contains(g.format) && g.resolution.width_x
                    == res.width_x && g.resolution.height_y == res.height_y implies g.frame_rate
                <= f.frame_rate by {
                let j = choose|j: int| 0 <= j < all.len() && all[j] == g;
                assert(req.rank_candidate(all, j));
            }
        },
        None => {
            assert forall|g: CameraFormat|
                all.contains(g) && req.decoders().contains(g.format) implies !(
            g.resolution.width_x == res.width_x && g.resolution.height_y == res.height_y) by {
                let j = choose|j: int| 0 <= j < all.len() && all[j] == g;
                if g.resolution.width_x == res.width_x && g.resolution.height_y == res.height_y {
                    assert(g.resolution == res);
                    assert(req.rank_candidate(all, j));
                }
            }
        },
    }
}

/// A "highest frame rate" request for `fps` only ever picks an offered format
/// of an accepted pixel format running at exactly `fps`.
pub proof fn lemma_highest_frame_rate_is_exact(
    req: RequestedFormat,
    all: Seq<CameraFormat>,
    fps: u32,
    f: CameraFormat,
)
    requires
        req.request_kind() == RequestedFormatType::HighestFrameRate(fps),
        req.fulfills(all, Some(f)),
    ensures
        f.frame_rate == fps,
        all.contains(f),
        req.decoders().contains(f.format),
{
    let i = choose|i: int| req.is_rank_pick(all, i) && f == all[i];
    assert(all[i] == f);
}

/// A "closest" request picks a resolution that is offered in the requested
/// pixel format and lies nearest to the requested one by Euclidean distance,
/// over width and height together; so when the requested resolution itself is
/// offered in that pixel format, it is the one picked.
pub proof fn lemma_closest_is_euclidean_nearest(
    req: RequestedFormat,
    all: Seq<CameraFormat>,
    c: CameraFormat,
    f: CameraFormat,
)
    requires
        req.request_kind() == RequestedFormatType::Closest(c),
        req.fulfills(all, Some(f)),
    ensures
        f.format == c.format,
        exists|i: int|
            0 <= i < all.len() && all[i].resolution == f.resolution && all[i].format == c.format,
        forall|g: CameraFormat|
            all.contains(g) && g.format == c.format && req.decoders().contains(g.format) ==> ({
                let fw = f.resolution.width_x - c.resolution.width_x;
                let fh = f.resolution.height_y - c.resolution.height_y;
                let gw = g.resolution.width_x - c.resolution.width_x;
                let gh = g.resolution.height_y - c.resolution.height_y;
                fw * fw + fh * fh <= gw * gw + gh * gh
            }),
        (exists|g: CameraFormat|
            all.contains(g) && g.format == c.format && req.decoders().contains(g.format)
                && g.resolution == c.resolution) ==> f.resolution == c.resolution,
{
    let (i, j) = choose|i: int, j: int|
        req.is_nearest_resolution(all, c, i) && req.is_nearest_rate(all, c, all[i].resolution, j)
            && f == (CameraFormat {
            resolution: all[i].resolution,
            format: c.format,
            frame_rate: all[j].frame_rate,
        });
    assert forall|g: CameraFormat|
        all.contains(g) && g.format == c.format && req.decoders().contains(g.format) implies ({
        let fw = f.resolution.width_x - c.resolution.width_x;
        let fh = f.resolution.height_y - c.resolution.height_y;
        let gw = g.resolution.width_x - c.resolution.width_x;
        let gh = g.resolution.height_y - c.resolution.height_y;
        fw * fw + fh * fh <= gw * gw + gh * gh
    }) by {
        let k = choose|k: int| 0 <= k < all.len() && all[k] == g;
        assert(req.near_candidate(all, c, k));
    }
    if exists|g: CameraFormat|
        all.contains(g) && g.format == c.format && req.decoders().contains(g.format)
            && g.resolution == c.resolution {
        let g = choose|g: CameraFormat|
            all.contains(g) && g.format == c.format && req.decoders().contains(g.format)
                && g.resolution == c.resolution;
        let k = choose|k: int| 0 <= k < all.len() && all[k] == g;
        assert(req.near_candidate(all, c, k));
        let fw = f.resolution.width_x - c.resolution.width_x;
        let fh = f.resolution.height_y - c.resolution.height_y;
        assert(fw * fw + fh * fh <= 0);
        assert(fw == 0 && fh == 0) by (nonlinear_arith)
            requires
                fw * fw + fh * fh <= 0,
        ;
    }
}

/// A point setter is accepted exactly when both of its coordinates are
/// finite (neither infinite nor NaN), whatever the point described; so the
/// verdict does not change when the coordinates are swapped.
pub proof fn lemma_point_setter_needs_finite_coordinates(
    value: (u64, u64),
    default: (u64, u64),
    x: u64,
    y: u64,
)
    ensures
        setter_verdict(
            ControlValueDescription::Point { value, default },
            ControlValueSetter::Point(x, y),
        ) == (if f64_is_finite(x) && f64_is_finite(y) {
            SetterVerdict::Accept
        } else {
            SetterVerdict::Reject
        }),
        setter_verdict(
            ControlValueDescription::Point { value, default },
            ControlValueSetter::Point(x, y),
        ) == setter_verdict(
            ControlValueDescription::Point { value, default },
            ControlValueSetter::Point(y, x),
        ),
{
}

} // verus!
