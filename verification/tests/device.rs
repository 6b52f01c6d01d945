use realsense_rust::device::Device;
use realsense_rust::device::DeviceConstructionError;
use realsense_rust::error::Error;
use realsense_rust::handle::NativeHandle;
use realsense_rust::kind::Rs2CameraInfo;
use realsense_rust::kind::Rs2Exception;
use realsense_rust::native::DeviceItem;
use realsense_rust::native::DeviceRecord;
use realsense_rust::native::InfoEntry;
use realsense_rust::native::SensorItem;
use realsense_rust::native::SensorRecord;
use realsense_rust::native::SensorsReply;

fn handle(addr: u64) -> NativeHandle {
    NativeHandle::new(addr).unwrap()
}

fn native_error(message: &str) -> Error {
    Error::new(Rs2Exception::CameraDisconnected, String::from(message))
}

fn plain_sensor_record() -> SensorRecord {
    SensorRecord {
        extendable: vec![],
        options: vec![],
        infos: vec![],
        roi: Err(native_error("no roi")),
        roi_set_reply: Ok(()),
    }
}

fn device_record(infos: Vec<InfoEntry>) -> DeviceRecord {
    DeviceRecord {
        infos,
        realtime_reply: Ok(()),
    }
}

#[test]
fn device_try_create_wraps_the_reported_device() {
    let item = DeviceItem {
        handle: handle(0x10),
        record: device_record(vec![]),
    };
    let device = Device::try_create(Ok(item)).unwrap();
    let released = device.dispose().unwrap();
    assert_eq!(released.addr(), 0x10);
}

#[test]
fn device_try_create_maps_the_native_failure() {
    let r = Device::try_create(Err(native_error("stale list")));
    match r {
        Err(DeviceConstructionError::CouldNotGetDeviceFromDeviceList(kind, message)) => {
            assert_eq!(kind, Rs2Exception::CameraDisconnected);
            assert_eq!(message, "stale list");
        }
        _ => panic!("expected the device-list construction error"),
    }
}

#[test]
fn sensors_skips_failed_indices() {
    let device = Device::from_item(DeviceItem {
        handle: handle(0x10),
        record: device_record(vec![]),
    });
    let reply = SensorsReply {
        query: Ok(()),
        count: Ok(3),
        elements: vec![
            Ok(SensorItem {
                handle: handle(0x21),
                record: plain_sensor_record(),
            }),
            Err(native_error("sensor vanished")),
            Ok(SensorItem {
                handle: handle(0x23),
                record: plain_sensor_record(),
            }),
        ],
    };
    let sensors = device.sensors(reply);
    assert_eq!(sensors.len(), 2);
    let mut released: Vec<u64> = Vec::new();
    for sensor in sensors {
        if let Some(h) = sensor.dispose() {
            released.push(h.addr());
        }
    }
    assert_eq!(released, vec![0x21, 0x23]);
}

#[test]
fn sensors_is_empty_when_the_list_query_fails() {
    let device = Device::from_item(DeviceItem {
        handle: handle(0x10),
        record: device_record(vec![]),
    });
    let reply = SensorsReply {
        query: Err(native_error("device disconnected")),
        count: Ok(0),
        elements: vec![],
    };
    assert!(device.sensors(reply).is_empty());
}

#[test]
fn sensors_is_empty_when_the_count_fails() {
    let device = Device::from_item(DeviceItem {
        handle: handle(0x10),
        record: device_record(vec![]),
    });
    let reply = SensorsReply {
        query: Ok(()),
        count: Err(native_error("device disconnected")),
        elements: vec![],
    };
    assert!(device.sensors(reply).is_empty());
}

#[test]
fn info_is_advisory() {
    let infos = vec![
        InfoEntry {
            key: Rs2CameraInfo::SerialNumber,
            value: Ok(String::from("923322071456")),
        },
        InfoEntry {
            key: Rs2CameraInfo::PhysicalPort,
            value: Err(native_error("read failed")),
        },
    ];
    let device = Device::from_item(DeviceItem {
        handle: handle(0x10),
        record: device_record(infos),
    });
    assert!(device.supports_info(Rs2CameraInfo::SerialNumber));
    assert_eq!(
        device.info(Rs2CameraInfo::SerialNumber),
        Some(String::from("923322071456"))
    );
    // A key whose read fails is still reported as supported, but the
    // advisory read swallows the failure.
    assert!(device.supports_info(Rs2CameraInfo::PhysicalPort));
    assert_eq!(device.info(Rs2CameraInfo::PhysicalPort), None);
    // An unsupported key is both unsupported and absent.
    assert!(!device.supports_info(Rs2CameraInfo::Name));
    assert_eq!(device.info(Rs2CameraInfo::Name), None);
}

#[test]
fn set_real_time_reports_the_native_outcome() {
    let ok_device = Device::from_item(DeviceItem {
        handle: handle(0x10),
        record: device_record(vec![]),
    });
    assert!(ok_device.set_real_time(true));
    let failing = Device::from_item(DeviceItem {
        handle: handle(0x11),
        record: DeviceRecord {
            infos: vec![],
            realtime_reply: Err(native_error("not a playback device")),
        },
    });
    assert!(!failing.set_real_time(false));
}

#[test]
fn hardware_reset_consumes_the_device() {
    let device = Device::from_item(DeviceItem {
        handle: handle(0x42),
        record: device_record(vec![]),
    });
    let raw = device.hardware_reset();
    assert_eq!(raw.addr(), 0x42);
    // `device` is moved: the binding cannot be used past this point, which
    // is exactly the guarantee the consuming signature gives.
}
