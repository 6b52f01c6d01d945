use realsense_rust::base::Rs2Roi;
use realsense_rust::device::DeviceConstructionError;
use realsense_rust::error::Error;
use realsense_rust::handle::NativeHandle;
use realsense_rust::kind::OptionSetError;
use realsense_rust::kind::Rs2CameraInfo;
use realsense_rust::kind::Rs2Exception;
use realsense_rust::kind::Rs2Extension;
use realsense_rust::kind::Rs2Format;
use realsense_rust::kind::Rs2Option;
use realsense_rust::kind::Rs2OptionRange;
use realsense_rust::kind::Rs2StreamKind;
use realsense_rust::native::DeviceItem;
use realsense_rust::native::DeviceRecord;
use realsense_rust::native::InfoEntry;
use realsense_rust::native::OptionEntry;
use realsense_rust::native::ProfileRecord;
use realsense_rust::native::SensorItem;
use realsense_rust::native::SensorRecord;
use realsense_rust::native::StreamData;
use realsense_rust::native::StreamProfilesReply;
use realsense_rust::sensor::Sensor;
use realsense_rust::sensor::SensorConstructionError;
use realsense_rust::sensor::RoiSetError;

fn handle(addr: u64) -> NativeHandle {
    NativeHandle::new(addr).unwrap()
}

fn native_error(message: &str) -> Error {
    Error::new(Rs2Exception::InvalidValue, String::from(message))
}

fn option_entry(key: Rs2Option, value: f32, read_only: bool) -> OptionEntry {
    OptionEntry {
        key,
        value: Ok(value.to_bits()),
        read_only,
        range: Ok(Rs2OptionRange {
            min: 0.0f32.to_bits(),
            max: 1.0f32.to_bits(),
            step: 0.001f32.to_bits(),
            default: 0.001f32.to_bits(),
        }),
        set_reply: Ok(()),
    }
}

fn record_with_options(options: Vec<OptionEntry>) -> SensorRecord {
    SensorRecord {
        extendable: vec![Rs2Extension::DepthSensor, Rs2Extension::DepthStereoSensor],
        options,
        infos: vec![InfoEntry {
            key: Rs2CameraInfo::Name,
            value: Ok(String::from("Stereo Module")),
        }],
        roi: Ok(Rs2Roi {
            min_x: 0,
            min_y: 0,
            max_x: 848,
            max_y: 480,
        }),
        roi_set_reply: Ok(()),
    }
}

fn sensor_with_options(options: Vec<OptionEntry>) -> Sensor {
    Sensor::try_create(Ok(SensorItem {
        handle: handle(0x31),
        record: record_with_options(options),
    }))
    .unwrap()
}

#[test]
fn sensor_try_create_maps_the_native_failure() {
    let r = Sensor::try_create(Err(native_error("index out of range")));
    match r {
        Err(SensorConstructionError::CouldNotGetSensorFromList(kind, message)) => {
            assert_eq!(kind, Rs2Exception::InvalidValue);
            assert_eq!(message, "index out of range");
        }
        _ => panic!("expected the sensor-list construction error"),
    }
}

#[test]
fn advisory_option_queries_are_symmetric() {
    let sensor = sensor_with_options(vec![option_entry(Rs2Option::DepthUnits, 0.001, false)]);
    assert!(sensor.supports_option(Rs2Option::DepthUnits));
    assert_eq!(
        sensor.get_option(Rs2Option::DepthUnits),
        Some(0.001f32.to_bits())
    );
    assert!(sensor.get_option_range(Rs2Option::DepthUnits).is_some());
    // Every unsupported key is both unsupported and absent.
    assert!(!sensor.supports_option(Rs2Option::Gain));
    assert_eq!(sensor.get_option(Rs2Option::Gain), None);
    assert_eq!(sensor.get_option_range(Rs2Option::Gain), None);
    assert!(!sensor.is_option_read_only(Rs2Option::Gain));
}

#[test]
fn get_option_swallows_a_failed_read() {
    let mut entry = option_entry(Rs2Option::Gain, 16.0, false);
    entry.value = Err(native_error("read failed"));
    let sensor = sensor_with_options(vec![entry]);
    assert!(sensor.supports_option(Rs2Option::Gain));
    assert_eq!(sensor.get_option(Rs2Option::Gain), None);
}

#[test]
fn set_option_rejects_an_unsupported_key() {
    let mut sensor = sensor_with_options(vec![]);
    let r = sensor.set_option(Rs2Option::Gain, 8.0f32.to_bits());
    assert!(matches!(r, Err(OptionSetError::OptionNotSupported)));
}

#[test]
fn set_option_rejects_a_read_only_key_and_leaves_the_value() {
    let mut sensor = sensor_with_options(vec![option_entry(
        Rs2Option::AsicTemperature,
        41.0,
        true,
    )]);
    assert!(sensor.is_option_read_only(Rs2Option::AsicTemperature));
    let r = sensor.set_option(Rs2Option::AsicTemperature, 0.0f32.to_bits());
    assert!(matches!(r, Err(OptionSetError::OptionIsReadOnly)));
    // The option's value is unchanged afterwards.
    assert_eq!(
        sensor.get_option(Rs2Option::AsicTemperature),
        Some(41.0f32.to_bits())
    );
}

#[test]
fn set_option_maps_the_native_failure() {
    let mut entry = option_entry(Rs2Option::LaserPower, 150.0, false);
    entry.set_reply = Err(native_error("value out of range"));
    let mut sensor = sensor_with_options(vec![entry]);
    let r = sensor.set_option(Rs2Option::LaserPower, 100000.0f32.to_bits());
    match r {
        Err(OptionSetError::CouldNotSetOption(kind, message)) => {
            assert_eq!(kind, Rs2Exception::InvalidValue);
            assert_eq!(message, "value out of range");
        }
        _ => panic!("expected the could-not-set error"),
    }
    // The failed write leaves the old value in place.
    assert_eq!(
        sensor.get_option(Rs2Option::LaserPower),
        Some(150.0f32.to_bits())
    );
}

#[test]
fn set_option_writes_through_on_success() {
    let mut sensor = sensor_with_options(vec![option_entry(Rs2Option::LaserPower, 150.0, false)]);
    assert!(sensor.set_option(Rs2Option::LaserPower, 90.0f32.to_bits()).is_ok());
    assert_eq!(
        sensor.get_option(Rs2Option::LaserPower),
        Some(90.0f32.to_bits())
    );
}

#[test]
fn extension_picks_the_first_matching_allowlist_tag() {
    // The allowlist probes depth before depth-stereo, so a sensor
    // extendable to both answers with the plain depth tag.
    let sensor = sensor_with_options(vec![]);
    assert_eq!(sensor.extension(), Rs2Extension::DepthSensor);
}

#[test]
fn stream_profiles_keeps_only_fully_constructed_profiles() {
    let sensor = sensor_with_options(vec![]);
    let reply = StreamProfilesReply {
        query: Ok(()),
        count: Ok(3),
        elements: vec![
            Ok(ProfileRecord {
                handle: handle(0x51),
                data: Ok(StreamData {
                    stream: Rs2StreamKind::Depth.to_i32(),
                    format: Rs2Format::Z16.to_i32(),
                    index: 0,
                    unique_id: 12,
                    framerate: 30,
                }),
            }),
            Err(native_error("list shifted")),
            Ok(ProfileRecord {
                handle: handle(0x53),
                data: Err(native_error("data query failed")),
            }),
        ],
    };
    let profiles = sensor.stream_profiles(reply);
    assert_eq!(profiles.len(), 1);
    assert_eq!(profiles[0].kind(), Rs2StreamKind::Depth);
    assert_eq!(profiles[0].format(), Rs2Format::Z16);
    assert_eq!(profiles[0].unique_id(), 12);
    assert_eq!(profiles[0].framerate(), 30);
}

#[test]
fn stream_profiles_is_empty_when_the_list_query_fails() {
    let sensor = sensor_with_options(vec![]);
    let reply = StreamProfilesReply {
        query: Err(native_error("sensor disconnected")),
        count: Ok(0),
        elements: vec![],
    };
    assert!(sensor.stream_profiles(reply).is_empty());
}

#[test]
fn info_follows_the_advisory_policy() {
    let sensor = sensor_with_options(vec![]);
    assert!(sensor.supports_info(Rs2CameraInfo::Name));
    assert_eq!(
        sensor.info(Rs2CameraInfo::Name),
        Some(String::from("Stereo Module"))
    );
    assert!(!sensor.supports_info(Rs2CameraInfo::SerialNumber));
    assert_eq!(sensor.info(Rs2CameraInfo::SerialNumber), None);
}

#[test]
fn region_of_interest_round_trips() {
    let mut sensor = sensor_with_options(vec![]);
    assert_eq!(
        sensor.get_region_of_interest(),
        Some(Rs2Roi {
            min_x: 0,
            min_y: 0,
            max_x: 848,
            max_y: 480,
        })
    );
    let roi = Rs2Roi {
        min_x: 10,
        min_y: 20,
        max_x: 200,
        max_y: 100,
    };
    assert!(sensor.set_region_of_interest(roi).is_ok());
    assert_eq!(sensor.get_region_of_interest(), Some(roi));
}

#[test]
fn set_region_of_interest_maps_the_native_failure() {
    let mut record = record_with_options(vec![]);
    record.roi_set_reply = Err(native_error("stream just started"));
    let mut sensor = Sensor::try_create(Ok(SensorItem {
        handle: handle(0x31),
        record,
    }))
    .unwrap();
    let roi = Rs2Roi {
        min_x: 1,
        min_y: 1,
        max_x: 2,
        max_y: 2,
    };
    match sensor.set_region_of_interest(roi) {
        Err(RoiSetError::CouldNotSetRoi(kind, message)) => {
            assert_eq!(kind, Rs2Exception::InvalidValue);
            assert_eq!(message, "stream just started");
        }
        _ => panic!("expected the could-not-set-roi error"),
    }
}

#[test]
fn device_reconstruction_follows_the_native_answer() {
    let sensor = sensor_with_options(vec![]);
    let device = sensor
        .device(Ok(DeviceItem {
            handle: handle(0x61),
            record: DeviceRecord {
                infos: vec![],
                realtime_reply: Ok(()),
            },
        }))
        .unwrap();
    assert_eq!(device.dispose().unwrap().addr(), 0x61);
    let r = sensor.device(Err(native_error("device gone")));
    assert!(matches!(
        r,
        Err(DeviceConstructionError::CouldNotCreateDeviceFromSensor(_, _))
    ));
}

#[test]
fn get_option_range_swallows_a_failed_query() {
    let mut entry = option_entry(Rs2Option::Exposure, 33.0, false);
    entry.range = Err(native_error("range query failed"));
    let sensor = sensor_with_options(vec![entry]);
    assert!(sensor.supports_option(Rs2Option::Exposure));
    assert_eq!(sensor.get_option_range(Rs2Option::Exposure), None);
}

#[test]
fn option_range_reports_the_reported_bounds() {
    let sensor = sensor_with_options(vec![option_entry(Rs2Option::LaserPower, 150.0, false)]);
    let range = sensor.get_option_range(Rs2Option::LaserPower).unwrap();
    assert_eq!(f32::from_bits(range.min), 0.0);
    assert_eq!(f32::from_bits(range.max), 1.0);
    assert_eq!(f32::from_bits(range.step), 0.001);
    assert_eq!(f32::from_bits(range.default), 0.001);
}

#[test]
fn stream_profile_is_never_released() {
    let sensor = sensor_with_options(vec![]);
    let reply = StreamProfilesReply {
        query: Ok(()),
        count: Ok(1),
        elements: vec![Ok(ProfileRecord {
            handle: handle(0x51),
            data: Ok(StreamData {
                stream: Rs2StreamKind::Depth.to_i32(),
                format: Rs2Format::Z16.to_i32(),
                index: 0,
                unique_id: 12,
                framerate: 30,
            }),
        })],
    };
    let mut profiles = sensor.stream_profiles(reply);
    let profile = profiles.pop().unwrap();
    // Profiles are owned by the sensor or frame that exposed them: ending
    // one's life never asks for a native release.
    assert!(profile.dispose().is_none());
}
