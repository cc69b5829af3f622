use bevy_gstreamer::error::BevyGstError;
use bevy_gstreamer::text::{decimal_string, same_text};
use bevy_gstreamer::types::{CameraFormat, CameraIndex, CameraInfo, FrameFormat, Resolution};

const ALL_FORMATS: [FrameFormat; 5] = [
    FrameFormat::MJPEG,
    FrameFormat::YUYV,
    FrameFormat::NV12,
    FrameFormat::GRAY,
    FrameFormat::RAWRGB,
];

#[test]
fn frame_format_names() {
    assert_eq!(FrameFormat::MJPEG.to_string(), "MJPG");
    assert_eq!(FrameFormat::YUYV.to_string(), "YUYV");
    assert_eq!(FrameFormat::NV12.to_string(), "NV12");
    assert_eq!(FrameFormat::GRAY.to_string(), "GRAY");
    assert_eq!(FrameFormat::RAWRGB.to_string(), "RAWRGB");
}

#[test]
fn frame_format_name_round_trip() {
    for format in ALL_FORMATS {
        assert_eq!(FrameFormat::from_str(&format.to_string()).unwrap(), format);
    }
}

#[test]
fn frame_format_parses_through_the_trait() {
    for format in ALL_FORMATS {
        assert_eq!(format.to_string().parse::<FrameFormat>().unwrap(), format);
    }
    let parsed: Result<FrameFormat, BevyGstError> = "YUYV".parse();
    assert_eq!(parsed.unwrap(), FrameFormat::YUYV);
    match "MJPEG".parse::<FrameFormat>() {
        Err(BevyGstError::StructureError { structure, error }) => {
            assert_eq!(structure, "FrameFormat");
            assert_eq!(error, "No match for MJPEG");
        }
        other => panic!("expected a structure error, got {:?}", other),
    }
    assert_eq!(
        <FrameFormat as std::str::FromStr>::from_str("GRAY").unwrap(),
        FrameFormat::GRAY
    );
}

#[test]
fn frame_format_other_text_is_refused_and_quoted() {
    for text in ["", "MJPEG", "mjpg", "YUYV ", " YUYV", "RAWRG", "RAWRGBA", "H264", "GRÄY"] {
        match FrameFormat::from_str(text) {
            Err(BevyGstError::StructureError { structure, error }) => {
                assert_eq!(structure, "FrameFormat");
                assert_eq!(error, format!("No match for {}", text));
            }
            other => panic!("expected a structure error for {:?}, got {:?}", text, other),
        }
    }
}

#[test]
fn resolution_holds_width_and_height() {
    let r = Resolution::new(1920, 1080);
    assert_eq!(r.width_x, 1920);
    assert_eq!(r.height_y, 1080);
    assert_eq!(r, Resolution { width_x: 1920, height_y: 1080 });
    assert_ne!(r, Resolution::new(1080, 1920));
    assert!(Resolution::new(640, 480) < Resolution::new(640, 481));
    assert!(Resolution::new(640, 480) < Resolution::new(641, 0));
}

#[test]
fn camera_format_default_is_vga_mjpeg_30() {
    let f = CameraFormat::default();
    assert_eq!(f.width(), 640);
    assert_eq!(f.height(), 480);
    assert_eq!(f.resolution(), Resolution::new(640, 480));
    assert_eq!(f.format(), FrameFormat::MJPEG);
    assert_eq!(f.frame_rate(), 30);
}

#[test]
fn camera_format_constructors_agree() {
    let a = CameraFormat::new(Resolution::new(1280, 720), FrameFormat::YUYV, 60);
    let b = CameraFormat::new_from(1280, 720, FrameFormat::YUYV, 60);
    assert_eq!(a, b);
    assert_eq!(a.width(), 1280);
    assert_eq!(a.height(), 720);
    assert_eq!(a.resolution(), Resolution::new(1280, 720));
    assert_eq!(a.format(), FrameFormat::YUYV);
    assert_eq!(a.frame_rate(), 60);
    assert_ne!(a, CameraFormat::new_from(1280, 720, FrameFormat::YUYV, 30));
}

#[test]
fn camera_format_takes_extreme_values() {
    let f = CameraFormat::new_from(u32::MAX, 0, FrameFormat::RAWRGB, u32::MAX);
    assert_eq!(f.width(), u32::MAX);
    assert_eq!(f.height(), 0);
    assert_eq!(f.frame_rate(), u32::MAX);
}

#[test]
fn camera_info_keeps_its_index() {
    let info = CameraInfo::new("Integrated Camera", "Video/Source", "", 3);
    assert_eq!(info.index(), 3);
    assert_eq!(info, CameraInfo::new("Integrated Camera", "Video/Source", "", 3));
    assert_ne!(info, CameraInfo::new("Integrated Camera", "Video/Source", "x", 3));
    assert_ne!(info, CameraInfo::new("Integrated Camera", "Video/Source", "", 4));
}

#[test]
fn camera_index_by_number_or_name() {
    assert_eq!(CameraIndex::Index(2), CameraIndex::Index(2));
    assert_ne!(CameraIndex::Index(2), CameraIndex::String("2".to_string()));
    assert!(CameraIndex::Index(u32::MAX) < CameraIndex::String(String::new()));
}

#[test]
fn error_messages() {
    assert_eq!(
        BevyGstError::InitializeError("no plugins".to_string()).to_string(),
        "Could not initialize gstreamer: no plugins"
    );
    assert_eq!(BevyGstError::GeneralError("oops".to_string()).to_string(), "Error: oops");
    assert_eq!(
        BevyGstError::StructureError {
            structure: "FrameFormat".to_string(),
            error: "No match for H264".to_string()
        }
        .to_string(),
        "Could not generate required structure FrameFormat: No match for H264"
    );
    assert_eq!(
        BevyGstError::OpenDeviceError("0".to_string(), "No device".to_string()).to_string(),
        "Could not open device 0: No device"
    );
    assert_eq!(
        BevyGstError::ReadFrameError("Stream is ended!".to_string()).to_string(),
        "Could not capture frame: Stream is ended!"
    );
    assert_eq!(
        BevyGstError::ProcessFrameError {
            src: FrameFormat::MJPEG,
            destination: "RGB888".to_string(),
            error: "bad".to_string()
        }
        .to_string(),
        "Could not process frame MJPG to RGB888: bad"
    );
    assert_eq!(
        BevyGstError::OpenStreamError("busy".to_string()).to_string(),
        "Could not open device stream: busy"
    );
    assert_eq!(
        BevyGstError::StreamShutdownError("busy".to_string()).to_string(),
        "Could not stop device stream: busy"
    );
    assert_eq!(
        BevyGstError::GetPropertyError {
            property: "Framerates".to_string(),
            error: "none".to_string()
        }
        .to_string(),
        "Could not get device property Framerates: none"
    );
    assert_eq!(
        BevyGstError::NotImplementedError("NV12".to_string()).to_string(),
        "This operation is not implemented yet: NV12"
    );
    assert_eq!(BevyGstError::GeneralError(String::new()).to_string(), "Error: ");
}

#[test]
fn decimal_numerals() {
    assert_eq!(decimal_string(0), "0");
    assert_eq!(decimal_string(7), "7");
    assert_eq!(decimal_string(10), "10");
    assert_eq!(decimal_string(1234567890), "1234567890");
    assert_eq!(decimal_string(u64::MAX as u128), "18446744073709551615");
    assert_eq!(decimal_string(u128::MAX), "340282366920938463463374607431768211455");
}

#[test]
fn text_comparison() {
    assert!(same_text("", ""));
    assert!(same_text("YUYV", "YUYV"));
    assert!(!same_text("YUYV", "YUY2"));
    assert!(!same_text("YUYV", "YUYVV"));
    assert!(!same_text("", "a"));
    assert!(same_text("héllo", "héllo"));
    assert!(!same_text("héllo", "hèllo"));
}
