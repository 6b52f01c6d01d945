use realsense_rust::error::Error;
use realsense_rust::frame::pixel::PixelFormat;
use realsense_rust::frame::points::PointsFrame;
use realsense_rust::frame::ColorFrame;
use realsense_rust::frame::ConfidenceFrame;
use realsense_rust::frame::DepthFrame;
use realsense_rust::frame::DisparityFrame;
use realsense_rust::frame::FisheyeFrame;
use realsense_rust::frame::FrameConstructionError;
use realsense_rust::frame::InfraredFrame;
use realsense_rust::handle::NativeHandle;
use realsense_rust::kind::Rs2Exception;
use realsense_rust::kind::Rs2Format;
use realsense_rust::kind::Rs2FrameMetadata;
use realsense_rust::kind::Rs2Option;
use realsense_rust::kind::Rs2StreamKind;
use realsense_rust::kind::Rs2TimestampDomain;
use realsense_rust::native::ImageFrameReply;
use realsense_rust::native::MetadataEntry;
use realsense_rust::native::OptionEntry;
use realsense_rust::native::PointsFrameReply;
use realsense_rust::native::ProfileRecord;
use realsense_rust::native::SensorItem;
use realsense_rust::native::SensorRecord;
use realsense_rust::native::StreamData;
use realsense_rust::native::TextureCoordinate;
use realsense_rust::native::Vertex;

fn handle(addr: u64) -> NativeHandle {
    NativeHandle::new(addr).unwrap()
}

fn native_error(message: &str) -> Error {
    Error::new(Rs2Exception::Backend, String::from(message))
}

fn depth_profile() -> ProfileRecord {
    ProfileRecord {
        handle: handle(0x71),
        data: Ok(StreamData {
            stream: Rs2StreamKind::Depth.to_i32(),
            format: Rs2Format::Z16.to_i32(),
            index: 0,
            unique_id: 3,
            framerate: 30,
        }),
    }
}

fn depth_reply(width: i32, height: i32, data: Vec<u8>) -> ImageFrameReply {
    let stride = width * 2;
    ImageFrameReply {
        width: Ok(width),
        height: Ok(height),
        bits_per_pixel: Ok(16),
        stride: Ok(stride),
        timestamp: Ok(1234.5f64.to_bits()),
        timestamp_domain: Ok(Rs2TimestampDomain::HardwareClock.to_i32()),
        frame_number: Ok(81),
        profile: Ok(depth_profile()),
        data_size: Ok(width * height * 2),
        data: Ok(data),
        metadata: vec![MetadataEntry {
            key: Rs2FrameMetadata::FrameCounter,
            value: Ok(81),
        }],
    }
}

fn points_reply(count: i32) -> PointsFrameReply {
    let vertex = Vertex {
        x: 0.5f32.to_bits(),
        y: 0.25f32.to_bits(),
        z: 2.0f32.to_bits(),
    };
    let coordinate = TextureCoordinate {
        u: 0.125f32.to_bits(),
        v: 0.75f32.to_bits(),
    };
    PointsFrameReply {
        timestamp: Ok(99.0f64.to_bits()),
        timestamp_domain: Ok(Rs2TimestampDomain::SystemTime.to_i32()),
        frame_number: Ok(7),
        profile: Ok(ProfileRecord {
            handle: handle(0x72),
            data: Ok(StreamData {
                stream: Rs2StreamKind::Any.to_i32(),
                format: Rs2Format::Xyz32F.to_i32(),
                index: 0,
                unique_id: 9,
                framerate: 30,
            }),
        }),
        points_count: Ok(count),
        vertices: Ok(vec![vertex; count as usize]),
        texture: Ok(vec![coordinate; count as usize]),
        metadata: vec![],
    }
}

#[test]
fn image_frame_has_correct_kind() {
    assert_eq!(ColorFrame::kind(), Rs2StreamKind::Color);
    assert_eq!(DepthFrame::kind(), Rs2StreamKind::Depth);
    assert_eq!(DisparityFrame::kind(), Rs2StreamKind::Any);
    assert_eq!(InfraredFrame::kind(), Rs2StreamKind::Infrared);
    assert_eq!(FisheyeFrame::kind(), Rs2StreamKind::Fisheye);
    assert_eq!(ConfidenceFrame::kind(), Rs2StreamKind::Confidence);
}

#[test]
fn points_frame_has_correct_kind() {
    assert_eq!(PointsFrame::kind(), Rs2StreamKind::Any);
}

#[test]
fn depth_image_scenario() {
    // A 640x480 depth image at 16 bits per pixel.
    let mut data = vec![0u8; 640 * 480 * 2];
    // Pixel (100, 10), little endian: depth value 0x0403.
    let offset = 10 * 1280 + 100 * 2;
    data[offset] = 0x03;
    data[offset + 1] = 0x04;
    let frame = DepthFrame::try_create(handle(0x81), depth_reply(640, 480, data)).unwrap();
    assert_eq!(frame.width(), 640);
    assert_eq!(frame.height(), 480);
    assert_eq!(frame.bits_per_pixel(), 16);
    assert_eq!(frame.stride(), 1280);
    assert_eq!(frame.get_data_size(), 640 * 480 * 16 / 8);
    assert_eq!(frame.get_data_size(), 614400);
    // A column beyond the width is absent rather than read out of bounds.
    assert_eq!(frame.get(700, 10), None);
    assert_eq!(frame.get(100, 10), Some(PixelFormat::Z16 { depth: 0x0403 }));
    assert_eq!(frame.get_unchecked(100, 10), PixelFormat::Z16 { depth: 0x0403 });
}

#[test]
fn frame_metadata_is_advisory() {
    let frame = DepthFrame::try_create(handle(0x81), depth_reply(2, 2, vec![0u8; 8])).unwrap();
    assert!(frame.supports_metadata(Rs2FrameMetadata::FrameCounter));
    assert_eq!(frame.metadata(Rs2FrameMetadata::FrameCounter), Some(81));
    assert!(!frame.supports_metadata(Rs2FrameMetadata::GainLevel));
    assert_eq!(frame.metadata(Rs2FrameMetadata::GainLevel), None);
}

#[test]
fn frame_timing_fields_are_populated() {
    let frame = DepthFrame::try_create(handle(0x81), depth_reply(2, 2, vec![0u8; 8])).unwrap();
    assert_eq!(f64::from_bits(frame.timestamp()), 1234.5);
    assert_eq!(frame.timestamp_domain(), Rs2TimestampDomain::HardwareClock);
    assert_eq!(frame.frame_number(), 81);
    assert_eq!(frame.stream_profile().kind(), Rs2StreamKind::Depth);
    assert_eq!(frame.stream_profile().format(), Rs2Format::Z16);
    assert!(frame.has_correct_kind());
}

#[test]
fn construction_aborts_on_the_first_failure() {
    let mut reply = depth_reply(2, 2, vec![0u8; 8]);
    reply.width = Err(native_error("no width"));
    match DepthFrame::try_create(handle(0x81), reply) {
        Err(FrameConstructionError::CouldNotGetWidth(kind, message)) => {
            assert_eq!(kind, Rs2Exception::Backend);
            assert_eq!(message, "no width");
        }
        _ => panic!("expected the width construction error"),
    }
    // A failure of the last query aborts just the same: no partial frame.
    let mut reply = depth_reply(2, 2, vec![0u8; 8]);
    reply.data = Err(native_error("no data"));
    assert!(matches!(
        DepthFrame::try_create(handle(0x81), reply),
        Err(FrameConstructionError::CouldNotGetData(_, _))
    ));
    // An earlier failure wins over a later one.
    let mut reply = depth_reply(2, 2, vec![0u8; 8]);
    reply.height = Err(native_error("no height"));
    reply.data = Err(native_error("no data"));
    assert!(matches!(
        DepthFrame::try_create(handle(0x81), reply),
        Err(FrameConstructionError::CouldNotGetHeight(_, _))
    ));
}

#[test]
fn pixel_iteration_is_row_major() {
    // A 2x2 color frame with RGB8 pixels.
    let reply = ImageFrameReply {
        width: Ok(2),
        height: Ok(2),
        bits_per_pixel: Ok(24),
        stride: Ok(6),
        timestamp: Ok(0.0f64.to_bits()),
        timestamp_domain: Ok(Rs2TimestampDomain::GlobalTime.to_i32()),
        frame_number: Ok(1),
        profile: Ok(ProfileRecord {
            handle: handle(0x73),
            data: Ok(StreamData {
                stream: Rs2StreamKind::Color.to_i32(),
                format: Rs2Format::Rgb8.to_i32(),
                index: 0,
                unique_id: 4,
                framerate: 60,
            }),
        }),
        data_size: Ok(12),
        data: Ok(vec![
            1, 2, 3, 4, 5, 6, //
            7, 8, 9, 10, 11, 12,
        ]),
        metadata: vec![],
    };
    let frame = ColorFrame::try_create(handle(0x82), reply).unwrap();
    let mut iter = frame.iter();
    let mut seen: Vec<PixelFormat> = Vec::new();
    while let Some(pixel) = iter.next() {
        seen.push(pixel);
    }
    assert_eq!(
        seen,
        vec![
            PixelFormat::Rgb8 { r: 1, g: 2, b: 3 },
            PixelFormat::Rgb8 { r: 4, g: 5, b: 6 },
            PixelFormat::Rgb8 { r: 7, g: 8, b: 9 },
            PixelFormat::Rgb8 { r: 10, g: 11, b: 12 },
        ]
    );
}

#[test]
fn points_frame_scenario() {
    let frame = PointsFrame::try_create(handle(0x83), points_reply(100)).unwrap();
    assert_eq!(frame.points_count(), 100);
    assert_eq!(frame.vertices().len(), 100);
    assert_eq!(frame.texture_coordinates().len(), 100);
    assert_eq!(f32::from_bits(frame.vertices()[42].z), 2.0);
    assert_eq!(f32::from_bits(frame.texture_coordinates()[42].v), 0.75);
}

#[test]
fn points_construction_aborts_on_the_first_failure() {
    let mut reply = points_reply(3);
    reply.points_count = Err(native_error("no count"));
    assert!(matches!(
        PointsFrame::try_create(handle(0x83), reply),
        Err(FrameConstructionError::CouldNotGetPointCount(_, _))
    ));
}

#[test]
fn ownership_transfer_prevents_the_release() {
    // The release-call counter of the test double.
    let mut released: Vec<u64> = Vec::new();
    let frame = DepthFrame::try_create(handle(0x84), depth_reply(2, 2, vec![0u8; 8])).unwrap();
    let raw = frame.get_owned_raw();
    assert_eq!(raw.addr(), 0x84);
    // The wrapper is gone and told us of no release: the new owner of the
    // raw handle is responsible now.
    assert!(released.is_empty());
    // Without a transfer, ending the frame's life does release.
    let frame = DepthFrame::try_create(handle(0x85), depth_reply(2, 2, vec![0u8; 8])).unwrap();
    if let Some(h) = frame.dispose() {
        released.push(h.addr());
    }
    assert_eq!(released, vec![0x85]);
}

#[test]
fn frame_sensor_is_borrowed() {
    let frame = DepthFrame::try_create(handle(0x86), depth_reply(2, 2, vec![0u8; 8])).unwrap();
    let item = SensorItem {
        handle: handle(0x32),
        record: SensorRecord {
            extendable: vec![],
            options: vec![OptionEntry {
                key: Rs2Option::DepthUnits,
                value: Ok(0.001f32.to_bits()),
                read_only: false,
                range: Err(native_error("no range")),
                set_reply: Ok(()),
            }],
            infos: vec![],
            roi: Err(native_error("no roi")),
            roi_set_reply: Ok(()),
        },
    };
    let sensor = frame.sensor(Ok(item)).unwrap();
    // A sensor that came from a frame is borrowed: this layer never
    // releases it.
    assert!(sensor.dispose().is_none());
    let r = frame.sensor(Err(native_error("sensor gone")));
    assert!(r.is_err());
}

#[test]
fn depth_units_reads_the_originating_sensor() {
    let frame = DepthFrame::try_create(handle(0x86), depth_reply(2, 2, vec![0u8; 8])).unwrap();
    let item = SensorItem {
        handle: handle(0x32),
        record: SensorRecord {
            extendable: vec![],
            options: vec![OptionEntry {
                key: Rs2Option::DepthUnits,
                value: Ok(0.001f32.to_bits()),
                read_only: false,
                range: Err(native_error("no range")),
                set_reply: Ok(()),
            }],
            infos: vec![],
            roi: Err(native_error("no roi")),
            roi_set_reply: Ok(()),
        },
    };
    let units = frame.depth_units(Ok(item)).unwrap();
    assert_eq!(f32::from_bits(units), 0.001);
    // A sensor without the option yields the unknown-category failure.
    let bare = SensorItem {
        handle: handle(0x33),
        record: SensorRecord {
            extendable: vec![],
            options: vec![],
            infos: vec![],
            roi: Err(native_error("no roi")),
            roi_set_reply: Ok(()),
        },
    };
    let e = frame.depth_units(Ok(bare)).unwrap_err();
    assert_eq!(e.exception(), Rs2Exception::Unknown);
}

#[test]
fn distance_and_baseline_follow_the_native_answer() {
    let frame = DepthFrame::try_create(handle(0x86), depth_reply(2, 2, vec![0u8; 8])).unwrap();
    let d = frame.distance(1, 1, Ok(1.5f32.to_bits())).unwrap();
    assert_eq!(f32::from_bits(d), 1.5);
    assert!(frame.distance(1, 1, Err(native_error("bad pixel"))).is_err());
}

#[test]
fn metadata_read_failure_is_swallowed() {
    let mut reply = depth_reply(2, 2, vec![0u8; 8]);
    reply.metadata = vec![MetadataEntry {
        key: Rs2FrameMetadata::ActualFps,
        value: Err(native_error("metadata read failed")),
    }];
    let frame = DepthFrame::try_create(handle(0x81), reply).unwrap();
    // The key is reported supported, but the advisory read yields nothing.
    assert!(frame.supports_metadata(Rs2FrameMetadata::ActualFps));
    assert_eq!(frame.metadata(Rs2FrameMetadata::ActualFps), None);
}

#[test]
fn points_ownership_transfer_prevents_the_release() {
    let mut released: Vec<u64> = Vec::new();
    let frame = PointsFrame::try_create(handle(0x87), points_reply(3)).unwrap();
    let raw = frame.get_owned_raw();
    assert_eq!(raw.addr(), 0x87);
    assert!(released.is_empty());
    let frame = PointsFrame::try_create(handle(0x88), points_reply(3)).unwrap();
    if let Some(h) = frame.dispose() {
        released.push(h.addr());
    }
    assert_eq!(released, vec![0x88]);
}

#[test]
fn disparity_baseline_follows_the_native_answer() {
    let mut reply = depth_reply(2, 2, vec![0u8; 8]);
    reply.profile = Ok(ProfileRecord {
        handle: handle(0x74),
        data: Ok(StreamData {
            stream: Rs2StreamKind::Any.to_i32(),
            format: Rs2Format::Disparity32.to_i32(),
            index: 0,
            unique_id: 5,
            framerate: 30,
        }),
    });
    reply.bits_per_pixel = Ok(32);
    reply.stride = Ok(2 * 4);
    reply.data_size = Ok(2 * 2 * 4);
    reply.data = Ok(vec![0u8; 16]);
    let frame = DisparityFrame::try_create(handle(0x89), reply).unwrap();
    let b = frame.baseline(Ok(0.05f32.to_bits())).unwrap();
    assert_eq!(f32::from_bits(b), 0.05);
    assert!(frame.baseline(Err(native_error("no baseline"))).is_err());
}
