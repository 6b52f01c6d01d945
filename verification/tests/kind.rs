use realsense_rust::kind::camera_info::CAMERA_INFO_COUNT;
use realsense_rust::kind::exception::EXCEPTION_COUNT;
use realsense_rust::kind::format::FORMAT_COUNT;
use realsense_rust::kind::frame_metadata::FRAME_METADATA_COUNT;
use realsense_rust::kind::option::OPTION_COUNT;
use realsense_rust::kind::stream_kind::STREAM_KIND_COUNT;
use realsense_rust::kind::timestamp_domain::TIMESTAMP_DOMAIN_COUNT;
use realsense_rust::kind::Rs2CameraInfo;
use realsense_rust::kind::Rs2Exception;
use realsense_rust::kind::Rs2Extension;
use realsense_rust::kind::Rs2Format;
use realsense_rust::kind::Rs2FrameMetadata;
use realsense_rust::kind::Rs2Option;
use realsense_rust::kind::Rs2StreamKind;
use realsense_rust::kind::Rs2TimestampDomain;

#[test]
fn frame_metadata_all_variants_exist() {
    for i in 0..FRAME_METADATA_COUNT {
        assert!(
            Rs2FrameMetadata::from_i32(i).is_some(),
            "Rs2FrameMetadata variant for ordinal {} does not exist.",
            i,
        );
    }
}

#[test]
fn timestamp_domain_all_variants_exist() {
    for i in 0..TIMESTAMP_DOMAIN_COUNT {
        assert!(
            Rs2TimestampDomain::from_i32(i).is_some(),
            "Rs2TimestampDomain variant for ordinal {} does not exist.",
            i,
        );
    }
}

#[test]
fn exception_all_variants_exist() {
    for i in 0..EXCEPTION_COUNT {
        assert!(Rs2Exception::from_i32(i).is_some());
    }
    assert!(Rs2Exception::from_i32(EXCEPTION_COUNT).is_none());
}

#[test]
fn stream_kind_all_variants_exist() {
    for i in 0..STREAM_KIND_COUNT {
        assert!(Rs2StreamKind::from_i32(i).is_some());
    }
    assert!(Rs2StreamKind::from_i32(STREAM_KIND_COUNT).is_none());
}

#[test]
fn format_all_variants_exist() {
    for i in 0..FORMAT_COUNT {
        assert!(Rs2Format::from_i32(i).is_some());
    }
    assert!(Rs2Format::from_i32(FORMAT_COUNT).is_none());
}

#[test]
fn camera_info_all_variants_exist() {
    for i in 0..CAMERA_INFO_COUNT {
        assert!(Rs2CameraInfo::from_i32(i).is_some());
    }
    assert!(Rs2CameraInfo::from_i32(CAMERA_INFO_COUNT).is_none());
}

#[test]
fn option_covered_codes_exist() {
    for i in 0..OPTION_COUNT {
        assert!(Rs2Option::from_i32(i).is_some());
    }
    assert!(Rs2Option::from_i32(OPTION_COUNT).is_none());
}

#[test]
fn codes_round_trip() {
    for i in 0..FRAME_METADATA_COUNT {
        let v = Rs2FrameMetadata::from_i32(i).unwrap();
        assert_eq!(v.to_i32(), i);
    }
    for i in 0..TIMESTAMP_DOMAIN_COUNT {
        let v = Rs2TimestampDomain::from_i32(i).unwrap();
        assert_eq!(v.to_i32(), i);
    }
    for i in 0..FORMAT_COUNT {
        let v = Rs2Format::from_i32(i).unwrap();
        assert_eq!(v.to_i32(), i);
    }
}

#[test]
fn well_known_codes() {
    assert_eq!(Rs2Option::DepthUnits.to_i32(), 28);
    assert_eq!(Rs2Option::BacklightCompensation.to_i32(), 0);
    assert_eq!(Rs2Format::Z16.to_i32(), 1);
    assert_eq!(Rs2Format::Bgr8.to_i32(), 6);
    assert_eq!(Rs2StreamKind::Depth.to_i32(), 1);
    assert_eq!(Rs2StreamKind::Confidence.to_i32(), 9);
    assert_eq!(Rs2CameraInfo::SerialNumber.to_i32(), 1);
    assert_eq!(Rs2Extension::DepthFrame.to_i32(), 12);
    assert_eq!(Rs2Extension::Points.to_i32(), 11);
    assert_eq!(Rs2FrameMetadata::Crc.to_i32(), 42);
}

#[test]
fn timestamp_domain_names() {
    assert_eq!(Rs2TimestampDomain::HardwareClock.as_str(), "Hardware Clock");
    assert_eq!(Rs2TimestampDomain::SystemTime.as_str(), "System Time");
    assert_eq!(Rs2TimestampDomain::GlobalTime.as_str(), "Global Time");
}
