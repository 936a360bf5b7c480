use nokhwa::types::{
    color_frame_formats, frame_formats, CameraControl, CameraFormat, CameraIndex, CameraInfo,
    ControlValueDescription, ControlValueSetter, FrameFormat, KnownCameraControl,
    KnownCameraControlFlag, RequestedFormat, RequestedFormatType, Resolution, SetterVerdict,
};

/// Evaluate a verdict, applying the binary64 step test where it carries one.
fn float_step_ok(v: SetterVerdict) -> bool {
    match v {
        SetterVerdict::Accept => true,
        SetterVerdict::Reject => false,
        SetterVerdict::FloatStep { candidate, default, current, step } => {
            let (c, d, v, s) = (
                f64::from_bits(candidate),
                f64::from_bits(default),
                f64::from_bits(current),
                f64::from_bits(step),
            );
            (c - d).abs() % s == 0_f64 || (c - v) % s == 0_f64
        }
    }
}

#[test]
fn resolution_new() {
    let res = Resolution::new(1920, 1080);
    assert_eq!(res.width(), 1920);
    assert_eq!(res.height(), 1080);
    assert_eq!(res.x(), 1920);
    assert_eq!(res.y(), 1080);
    assert_eq!(res.width_x, 1920);
    assert_eq!(res.height_y, 1080);
}

#[test]
fn resolution_display() {
    let res = Resolution::new(640, 480);
    let display = res.to_string();
    assert!(display.contains("640"));
    assert!(display.contains("480"));
}

#[test]
fn resolution_ordering() {
    let low = Resolution::new(640, 480);
    let mid = Resolution::new(1280, 720);
    let high = Resolution::new(1920, 1080);
    assert!(low < mid);
    assert!(mid < high);
    assert!(low < high);
}

#[test]
fn resolution_equality() {
    let a = Resolution::new(640, 480);
    let b = Resolution::new(640, 480);
    let c = Resolution::new(1280, 720);
    assert_eq!(a, b);
    assert_ne!(a, c);
}

#[test]
fn frame_format_display_roundtrip() {
    for fmt in frame_formats().iter() {
        let s = fmt.to_string();
        let parsed: FrameFormat = s.parse().expect("should parse back");
        assert_eq!(*fmt, parsed);
    }
}

#[test]
fn frame_formats_non_empty() {
    assert!(!frame_formats().is_empty());
}

#[test]
fn color_frame_formats_subset_of_all() {
    let all = frame_formats();
    for fmt in color_frame_formats().iter() {
        assert!(all.contains(fmt), "{fmt:?} not in frame_formats()");
    }
}

#[test]
fn camera_format_new() {
    let res = Resolution::new(1920, 1080);
    let fmt = CameraFormat::new(res, FrameFormat::MJPEG, 30);
    assert_eq!(fmt.resolution(), res);
    assert_eq!(fmt.format(), FrameFormat::MJPEG);
    assert_eq!(fmt.frame_rate(), 30);
    assert_eq!(fmt.width(), 1920);
    assert_eq!(fmt.height(), 1080);
}

#[test]
fn camera_format_new_from() {
    let fmt = CameraFormat::new_from(640, 480, FrameFormat::YUYV, 15);
    assert_eq!(fmt.width(), 640);
    assert_eq!(fmt.height(), 480);
    assert_eq!(fmt.format(), FrameFormat::YUYV);
    assert_eq!(fmt.frame_rate(), 15);
}

#[test]
fn camera_format_default() {
    let fmt = CameraFormat::default();
    assert_eq!(fmt.width(), 640);
    assert_eq!(fmt.height(), 480);
    assert_eq!(fmt.frame_rate(), 30);
    assert_eq!(fmt.format(), FrameFormat::MJPEG);
}

#[test]
fn camera_format_setters() {
    let mut fmt = CameraFormat::default();
    fmt.set_resolution(Resolution::new(1280, 720));
    fmt.set_frame_rate(60);
    fmt.set_format(FrameFormat::NV12);
    assert_eq!(fmt.resolution(), Resolution::new(1280, 720));
    assert_eq!(fmt.frame_rate(), 60);
    assert_eq!(fmt.format(), FrameFormat::NV12);
}

#[test]
fn camera_format_display() {
    let fmt = CameraFormat::default();
    let display = fmt.to_string();
    assert!(!display.is_empty());
}

#[test]
fn types_tests_camera_index_from_u32() {
    let idx = CameraIndex::Index(0u32);
    assert!(idx.is_index());
    assert!(!idx.is_string());
    assert_eq!(idx.as_index().unwrap(), 0);
}

#[test]
fn camera_index_string() {
    let idx = CameraIndex::String("/dev/video0".to_string());
    assert!(idx.is_string());
    assert!(!idx.is_index());
    assert_eq!(idx.as_string(), "/dev/video0");
}

#[test]
fn camera_index_default_is_index_zero() {
    let idx = CameraIndex::default();
    assert!(idx.is_index());
    assert_eq!(idx.as_index().unwrap(), 0);
}

#[test]
fn camera_info_getters_setters() {
    let mut info = CameraInfo::new(
        "Test Camera",
        "A test camera",
        "misc info",
        CameraIndex::Index(0),
    );
    assert_eq!(info.human_name(), "Test Camera");
    assert_eq!(info.description(), "A test camera");
    assert_eq!(info.misc(), "misc info");
    assert_eq!(info.index(), &CameraIndex::Index(0));

    info.set_human_name("New Name");
    assert_eq!(info.human_name(), "New Name");

    info.set_description("New desc");
    assert_eq!(info.description(), "New desc");

    info.set_misc("New misc");
    assert_eq!(info.misc(), "New misc");

    info.set_index(CameraIndex::Index(1));
    assert_eq!(info.index(), &CameraIndex::Index(1));
}

#[test]
fn control_value_setter_accessors() {
    assert!(ControlValueSetter::NoValue.as_none().is_some());
    assert_eq!(ControlValueSetter::Integer(42).as_integer(), Some(&42));
    assert_eq!(ControlValueSetter::Float(2.72_f64.to_bits()).as_float(), Some(&2.72_f64.to_bits()));
    assert_eq!(ControlValueSetter::Boolean(true).as_boolean(), Some(&true));
    assert_eq!(
        ControlValueSetter::String("hello".into()).as_str(),
        Some("hello")
    );
    assert_eq!(
        ControlValueSetter::Bytes(vec![1, 2, 3]).as_bytes(),
        Some([1u8, 2, 3].as_slice())
    );
}

#[test]
fn control_value_setter_wrong_type_returns_none() {
    assert!(ControlValueSetter::Integer(42).as_float().is_none());
    assert!(ControlValueSetter::Float(2.72_f64.to_bits()).as_integer().is_none());
    assert!(ControlValueSetter::Boolean(true).as_str().is_none());
}

#[test]
fn camera_control_basic() {
    let control = CameraControl::new(
        KnownCameraControl::Brightness,
        "Brightness".to_string(),
        ControlValueDescription::Integer {
            value: 50,
            default: 50,
            step: 1,
        },
        vec![KnownCameraControlFlag::Manual],
        true,
    );
    assert_eq!(control.control(), KnownCameraControl::Brightness);
    assert_eq!(control.name(), "Brightness");
    assert!(control.active());
    assert_eq!(control.flag(), &[KnownCameraControlFlag::Manual]);
}

#[test]
fn control_value_description_verify_setter() {
    let desc = ControlValueDescription::IntegerRange {
        min: 0,
        max: 100,
        value: 50,
        step: 1,
        default: 50,
    };
    assert_eq!(desc.setter_verdict(&ControlValueSetter::Integer(75)), SetterVerdict::Accept);
    assert_eq!(desc.setter_verdict(&ControlValueSetter::Float(2.72_f64.to_bits())), SetterVerdict::Reject);
}

#[test]
fn closest_format_when_exact_resolution_unavailable() {
    let available = vec![
        CameraFormat::new_from(640, 480, FrameFormat::MJPEG, 30),
        CameraFormat::new_from(1920, 1080, FrameFormat::MJPEG, 30),
        CameraFormat::new_from(1920, 1080, FrameFormat::MJPEG, 60),
    ];

    let requested_fmt = CameraFormat::new_from(1280, 720, FrameFormat::MJPEG, 30);
    let req = RequestedFormat::with_formats(
        RequestedFormatType::Closest(requested_fmt),
        &[FrameFormat::MJPEG],
    );

    let result = req.fulfill(&available);
    assert!(
        result.is_some(),
        "Closest should return a format even when exact resolution is unavailable"
    );

    let result = result.unwrap();
    assert_eq!(result.resolution(), Resolution::new(640, 480));
    assert_eq!(result.format(), FrameFormat::MJPEG);
    assert_eq!(result.frame_rate(), 30);
}

#[test]
fn fulfill_absolute_highest_resolution() {
    let available = vec![
        CameraFormat::new_from(640, 480, FrameFormat::MJPEG, 30),
        CameraFormat::new_from(1280, 720, FrameFormat::MJPEG, 60),
        CameraFormat::new_from(1920, 1080, FrameFormat::MJPEG, 30),
        CameraFormat::new_from(1920, 1080, FrameFormat::MJPEG, 60),
    ];
    let req = RequestedFormat::with_formats(
        RequestedFormatType::AbsoluteHighestResolution,
        &[FrameFormat::MJPEG],
    );
    let result = req.fulfill(&available).unwrap();
    assert_eq!(result.resolution(), Resolution::new(1920, 1080));
    assert_eq!(result.frame_rate(), 60);
}

#[test]
fn fulfill_absolute_highest_framerate() {
    let available = vec![
        CameraFormat::new_from(640, 480, FrameFormat::MJPEG, 30),
        CameraFormat::new_from(640, 480, FrameFormat::MJPEG, 120),
        CameraFormat::new_from(1920, 1080, FrameFormat::MJPEG, 120),
    ];
    let req = RequestedFormat::with_formats(
        RequestedFormatType::AbsoluteHighestFrameRate,
        &[FrameFormat::MJPEG],
    );
    let result = req.fulfill(&available).unwrap();
    assert_eq!(result.frame_rate(), 120);
    assert_eq!(result.resolution(), Resolution::new(1920, 1080));
}

#[test]
fn fulfill_highest_resolution_at_given_resolution() {
    let available = vec![
        CameraFormat::new_from(1280, 720, FrameFormat::MJPEG, 30),
        CameraFormat::new_from(1280, 720, FrameFormat::MJPEG, 60),
        CameraFormat::new_from(1920, 1080, FrameFormat::MJPEG, 30),
    ];
    let req = RequestedFormat::with_formats(
        RequestedFormatType::HighestResolution(Resolution::new(1280, 720)),
        &[FrameFormat::MJPEG],
    );
    let result = req.fulfill(&available).unwrap();
    assert_eq!(result.resolution(), Resolution::new(1280, 720));
    assert_eq!(result.frame_rate(), 60);
}

#[test]
fn fulfill_highest_resolution_no_match() {
    let available = vec![CameraFormat::new_from(640, 480, FrameFormat::MJPEG, 30)];
    let req = RequestedFormat::with_formats(
        RequestedFormatType::HighestResolution(Resolution::new(1920, 1080)),
        &[FrameFormat::MJPEG],
    );
    assert!(req.fulfill(&available).is_none());
}

#[test]
fn fulfill_highest_framerate_at_given_fps() {
    let available = vec![
        CameraFormat::new_from(640, 480, FrameFormat::MJPEG, 30),
        CameraFormat::new_from(1280, 720, FrameFormat::MJPEG, 30),
        CameraFormat::new_from(1920, 1080, FrameFormat::MJPEG, 60),
    ];
    let req = RequestedFormat::with_formats(
        RequestedFormatType::HighestFrameRate(30),
        &[FrameFormat::MJPEG],
    );
    let result = req.fulfill(&available).unwrap();
    assert_eq!(result.frame_rate(), 30);
    assert_eq!(result.resolution(), Resolution::new(1280, 720));
}

#[test]
fn fulfill_exact_match() {
    let target = CameraFormat::new_from(1280, 720, FrameFormat::MJPEG, 30);
    let available = vec![
        CameraFormat::new_from(640, 480, FrameFormat::MJPEG, 30),
        target,
    ];
    let req =
        RequestedFormat::with_formats(RequestedFormatType::Exact(target), &[FrameFormat::MJPEG]);
    let result = req.fulfill(&available).unwrap();
    assert_eq!(result, target);
}

#[test]
fn fulfill_exact_wrong_decoder() {
    let target = CameraFormat::new_from(1280, 720, FrameFormat::NV12, 30);
    let available = vec![target];
    let req =
        RequestedFormat::with_formats(RequestedFormatType::Exact(target), &[FrameFormat::MJPEG]);
    assert!(req.fulfill(&available).is_none());
}

#[test]
fn fulfill_none_returns_first_compatible() {
    let available = vec![
        CameraFormat::new_from(640, 480, FrameFormat::NV12, 30),
        CameraFormat::new_from(640, 480, FrameFormat::MJPEG, 30),
    ];
    let req = RequestedFormat::with_formats(RequestedFormatType::NoPreference, &[FrameFormat::MJPEG]);
    let result = req.fulfill(&available).unwrap();
    assert_eq!(result.format(), FrameFormat::MJPEG);
}

#[test]
fn fulfill_none_no_compatible_format() {
    let available = vec![
        CameraFormat::new_from(640, 480, FrameFormat::NV12, 30),
        CameraFormat::new_from(640, 480, FrameFormat::YUYV, 30),
    ];
    let req = RequestedFormat::with_formats(RequestedFormatType::NoPreference, &[FrameFormat::GRAY]);
    assert!(req.fulfill(&available).is_none());
}

#[test]
fn fulfill_empty_format_list() {
    let req = RequestedFormat::with_formats(
        RequestedFormatType::AbsoluteHighestResolution,
        &[FrameFormat::MJPEG],
    );
    assert!(req.fulfill(&[]).is_none());
}

#[test]
fn fulfill_closest_picks_nearest_framerate() {
    let available = vec![
        CameraFormat::new_from(1280, 720, FrameFormat::MJPEG, 15),
        CameraFormat::new_from(1280, 720, FrameFormat::MJPEG, 30),
        CameraFormat::new_from(1280, 720, FrameFormat::MJPEG, 60),
    ];
    let requested = CameraFormat::new_from(1280, 720, FrameFormat::MJPEG, 25);
    let req = RequestedFormat::with_formats(
        RequestedFormatType::Closest(requested),
        &[FrameFormat::MJPEG],
    );
    let result = req.fulfill(&available).unwrap();
    assert_eq!(result.resolution(), Resolution::new(1280, 720));
    assert_eq!(result.frame_rate(), 30); // 30 is closest to 25
}

#[test]
fn fulfill_decoder_filter_applies_across_variants() {
    let available = vec![
        CameraFormat::new_from(1920, 1080, FrameFormat::NV12, 60),
        CameraFormat::new_from(640, 480, FrameFormat::YUYV, 30),
    ];
    let req = RequestedFormat::with_formats(
        RequestedFormatType::AbsoluteHighestResolution,
        &[FrameFormat::YUYV],
    );
    let result = req.fulfill(&available).unwrap();
    assert_eq!(result.format(), FrameFormat::YUYV);
    assert_eq!(result.resolution(), Resolution::new(640, 480));
}

#[test]
fn verify_setter_none() {
    let desc = ControlValueDescription::NoValue;
    assert_eq!(desc.setter_verdict(&ControlValueSetter::NoValue), SetterVerdict::Accept);
    assert_eq!(desc.setter_verdict(&ControlValueSetter::Integer(0)), SetterVerdict::Reject);
}

#[test]
fn verify_setter_integer_range_in_bounds() {
    let desc = ControlValueDescription::IntegerRange {
        min: 0,
        max: 100,
        value: 50,
        step: 1,
        default: 50,
    };
    assert_eq!(desc.setter_verdict(&ControlValueSetter::Integer(0)), SetterVerdict::Accept);
    assert_eq!(desc.setter_verdict(&ControlValueSetter::Integer(100)), SetterVerdict::Accept);
}

#[test]
fn verify_setter_integer_range_out_of_bounds() {
    let desc = ControlValueDescription::IntegerRange {
        min: 0,
        max: 100,
        value: 50,
        step: 1,
        default: 50,
    };
    assert_eq!(desc.setter_verdict(&ControlValueSetter::Integer(-1)), SetterVerdict::Reject);
    assert_eq!(desc.setter_verdict(&ControlValueSetter::Integer(101)), SetterVerdict::Reject);
}

#[test]
fn verify_setter_integer_range_zero_step_always_valid() {
    let desc = ControlValueDescription::IntegerRange {
        min: 0,
        max: 100,
        value: 50,
        step: 0,
        default: 50,
    };
    assert_eq!(desc.setter_verdict(&ControlValueSetter::Integer(42)), SetterVerdict::Accept);
    assert_eq!(desc.setter_verdict(&ControlValueSetter::Float(2.72_f64.to_bits())), SetterVerdict::Accept);
}

#[test]
fn verify_setter_boolean() {
    let desc = ControlValueDescription::Boolean {
        value: true,
        default: false,
    };
    assert_eq!(desc.setter_verdict(&ControlValueSetter::Boolean(true)), SetterVerdict::Accept);
    assert_eq!(desc.setter_verdict(&ControlValueSetter::Boolean(false)), SetterVerdict::Accept);
    assert_eq!(desc.setter_verdict(&ControlValueSetter::Integer(1)), SetterVerdict::Reject);
}

#[test]
fn verify_setter_string() {
    let desc = ControlValueDescription::String {
        value: "current".to_string(),
        default: Some("default".to_string()),
    };
    assert_eq!(desc.setter_verdict(&ControlValueSetter::String("anything".into())), SetterVerdict::Accept);
    assert_eq!(desc.setter_verdict(&ControlValueSetter::Integer(0)), SetterVerdict::Reject);
}

#[test]
fn verify_setter_bytes() {
    let desc = ControlValueDescription::Bytes {
        value: vec![1, 2, 3],
        default: vec![0],
    };
    assert_eq!(desc.setter_verdict(&ControlValueSetter::Bytes(vec![4, 5])), SetterVerdict::Accept);
    assert_eq!(desc.setter_verdict(&ControlValueSetter::NoValue), SetterVerdict::Reject);
}

#[test]
fn verify_setter_point_rejects_nan() {
    let desc = ControlValueDescription::Point {
        value: (0.0_f64.to_bits(), 0.0_f64.to_bits()),
        default: (0.0_f64.to_bits(), 0.0_f64.to_bits()),
    };
    assert_eq!(desc.setter_verdict(&ControlValueSetter::Point(1.0_f64.to_bits(), 2.0_f64.to_bits())), SetterVerdict::Accept);
    assert_eq!(desc.setter_verdict(&ControlValueSetter::Point(f64::NAN.to_bits(), 0.0_f64.to_bits())), SetterVerdict::Reject);
    assert_eq!(desc.setter_verdict(&ControlValueSetter::Point(0.0_f64.to_bits(), f64::NAN.to_bits())), SetterVerdict::Reject);
    assert_eq!(desc.setter_verdict(&ControlValueSetter::Point(f64::INFINITY.to_bits(), 0.0_f64.to_bits())), SetterVerdict::Reject);
}

#[test]
fn verify_setter_enum_checks_possible_values() {
    let desc = ControlValueDescription::Enum {
        value: 1,
        possible: vec![1, 2, 3],
        default: 1,
    };
    assert_eq!(desc.setter_verdict(&ControlValueSetter::EnumValue(1)), SetterVerdict::Accept);
    assert_eq!(desc.setter_verdict(&ControlValueSetter::EnumValue(3)), SetterVerdict::Accept);
    assert_eq!(desc.setter_verdict(&ControlValueSetter::EnumValue(99)), SetterVerdict::Reject);
    assert_eq!(desc.setter_verdict(&ControlValueSetter::Integer(1)), SetterVerdict::Reject);
}

#[test]
fn verify_setter_float_range_in_bounds() {
    let desc_zero_step = ControlValueDescription::FloatRange {
        min: 0.0_f64.to_bits(),
        max: 1.0_f64.to_bits(),
        value: 0.5_f64.to_bits(),
        step: 0.0_f64.to_bits(),
        default: 0.5_f64.to_bits(),
    };
    assert_eq!(desc_zero_step.setter_verdict(&ControlValueSetter::Float(0.75_f64.to_bits())), SetterVerdict::Accept);
    assert_eq!(desc_zero_step.setter_verdict(&ControlValueSetter::Float(999.0_f64.to_bits())), SetterVerdict::Accept);

    let desc_with_step = ControlValueDescription::FloatRange {
        min: 0.0_f64.to_bits(),
        max: 1.0_f64.to_bits(),
        value: 0.5_f64.to_bits(),
        step: 0.5_f64.to_bits(),
        default: 0.0_f64.to_bits(),
    };
    let verdict = desc_with_step.setter_verdict(&ControlValueSetter::Float(0.5_f64.to_bits()));
    assert!(matches!(verdict, SetterVerdict::FloatStep { .. }));
    assert!(float_step_ok(verdict));
    assert_eq!(desc_with_step.setter_verdict(&ControlValueSetter::Float(2.0_f64.to_bits())), SetterVerdict::Reject);
    assert_eq!(desc_with_step.setter_verdict(&ControlValueSetter::Integer(1)), SetterVerdict::Reject);
}

#[test]
fn verify_setter_float_range_wrong_type() {
    let desc = ControlValueDescription::FloatRange {
        min: 0.0_f64.to_bits(),
        max: 1.0_f64.to_bits(),
        value: 0.5_f64.to_bits(),
        step: 0.1_f64.to_bits(),
        default: 0.5_f64.to_bits(),
    };
    assert_eq!(desc.setter_verdict(&ControlValueSetter::Integer(1)), SetterVerdict::Reject);
}

#[test]
fn verify_setter_key_value_pair() {
    let desc = ControlValueDescription::KeyValuePair {
        key: 1,
        value: 2,
        default: (0, 0),
    };
    assert_eq!(desc.setter_verdict(&ControlValueSetter::KeyValue(10, 20)), SetterVerdict::Accept);
    assert_eq!(desc.setter_verdict(&ControlValueSetter::Integer(1)), SetterVerdict::Reject);
}

#[test]
fn verify_setter_integer() {
    let desc = ControlValueDescription::Integer {
        value: 50,
        default: 50,
        step: 1,
    };
    assert_eq!(desc.setter_verdict(&ControlValueSetter::Integer(51)), SetterVerdict::Accept);
    assert_eq!(desc.setter_verdict(&ControlValueSetter::Float(1.0_f64.to_bits())), SetterVerdict::Reject);
}

#[test]
fn verify_setter_integer_zero_step() {
    let desc = ControlValueDescription::Integer {
        value: 50,
        default: 50,
        step: 0,
    };
    assert_eq!(desc.setter_verdict(&ControlValueSetter::Integer(99)), SetterVerdict::Accept);
    assert_eq!(desc.setter_verdict(&ControlValueSetter::Float(1.0_f64.to_bits())), SetterVerdict::Accept);
}

#[test]
fn verify_setter_float() {
    let desc_zero_step = ControlValueDescription::Float {
        value: 0.5_f64.to_bits(),
        default: 0.5_f64.to_bits(),
        step: 0.0_f64.to_bits(),
    };
    assert_eq!(desc_zero_step.setter_verdict(&ControlValueSetter::Float(0.75_f64.to_bits())), SetterVerdict::Accept);
    assert_eq!(desc_zero_step.setter_verdict(&ControlValueSetter::Integer(1)), SetterVerdict::Accept);

    let desc_with_step = ControlValueDescription::Float {
        value: 0.5_f64.to_bits(),
        default: 0.5_f64.to_bits(),
        step: 0.1_f64.to_bits(),
    };
    assert_eq!(desc_with_step.setter_verdict(&ControlValueSetter::Integer(1)), SetterVerdict::Reject);
}

#[test]
fn verify_setter_rgb() {
    let desc = ControlValueDescription::RGB {
        value: (0.5_f64.to_bits(), 0.5_f64.to_bits(), 0.5_f64.to_bits()),
        max: (1.0_f64.to_bits(), 1.0_f64.to_bits(), 1.0_f64.to_bits()),
        default: (0.0_f64.to_bits(), 0.0_f64.to_bits(), 0.0_f64.to_bits()),
    };
    assert_eq!(desc.setter_verdict(&ControlValueSetter::RGB(1.0_f64.to_bits(), 1.0_f64.to_bits(), 1.0_f64.to_bits())), SetterVerdict::Accept);
    assert_eq!(desc.setter_verdict(&ControlValueSetter::RGB(2.0_f64.to_bits(), 2.0_f64.to_bits(), 2.0_f64.to_bits())), SetterVerdict::Accept);
    assert_eq!(desc.setter_verdict(&ControlValueSetter::RGB(0.5_f64.to_bits(), 0.5_f64.to_bits(), 0.5_f64.to_bits())), SetterVerdict::Reject);
    assert_eq!(desc.setter_verdict(&ControlValueSetter::Integer(1)), SetterVerdict::Reject);
}

#[test]
fn frame_format_parse_invalid_returns_error() {
    assert!("INVALID".parse::<FrameFormat>().is_err());
    assert!("".parse::<FrameFormat>().is_err());
    assert!("mjpeg".parse::<FrameFormat>().is_err()); // case-sensitive
}

#[test]
fn frame_format_rawbgr_display_parse() {
    let fmt = FrameFormat::RAWBGR;
    let s = fmt.to_string();
    assert_eq!(s, "RAWBGR");
    let parsed: FrameFormat = s.parse().unwrap();
    assert_eq!(parsed, FrameFormat::RAWBGR);
}

#[test]
fn camera_index_as_index_returns_err_for_string() {
    let idx = CameraIndex::String("test".to_string());
    assert!(idx.as_index().is_err());
}

#[test]
fn camera_index_display() {
    let idx = CameraIndex::Index(5);
    let s = idx.to_string();
    assert!(s.contains('5'));
}

#[test]
fn control_value_setter_key_value() {
    let setter = ControlValueSetter::KeyValue(10, 20);
    assert_eq!(setter.as_key_value(), Some((&10, &20)));
}

#[test]
fn control_value_setter_point() {
    let setter = ControlValueSetter::Point(1.5_f64.to_bits(), 2.5_f64.to_bits());
    assert_eq!(setter.as_point(), Some((&1.5_f64.to_bits(), &2.5_f64.to_bits())));
}

#[test]
fn control_value_setter_enum_value() {
    let setter = ControlValueSetter::EnumValue(42);
    assert_eq!(setter.as_enum(), Some(&42));
}

#[test]
fn control_value_setter_rgb() {
    let setter = ControlValueSetter::RGB(0.1_f64.to_bits(), 0.2_f64.to_bits(), 0.3_f64.to_bits());
    let (r, g, b) = setter.as_rgb().unwrap();
    assert!((f64::from_bits(*r) - 0.1).abs() < f64::EPSILON);
    assert!((f64::from_bits(*g) - 0.2).abs() < f64::EPSILON);
    assert!((f64::from_bits(*b) - 0.3).abs() < f64::EPSILON);
}
