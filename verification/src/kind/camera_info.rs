//! The camera-info keys a device or sensor can be asked about.

use vstd::prelude::*;

verus! {

/// How many camera-info codes the native table defines.
pub const CAMERA_INFO_COUNT: i32 = 14;

/// A key naming one piece of identifying information about a device or
/// sensor (its name, serial number, firmware version, and so on).
///
/// Info lookups are advisory: a device that does not carry a value for a key
/// simply reports the key as unsupported.
#[derive(Clone, Copy, Debug, PartialEq, Eq, Hash, Structural)]
pub enum Rs2CameraInfo {
    /// The device's friendly name.
    Name,
    /// The device's serial number.
    SerialNumber,
    /// The version of the firmware currently installed.
    FirmwareVersion,
    /// The latest firmware version recommended for the device.
    RecommendedFirmwareVersion,
    /// The unique identifier of the physical port the device is on.
    PhysicalPort,
    /// The vendor-specific debug operation code.
    DebugOpCode,
    /// Whether the device is in advanced mode.
    AdvancedMode,
    /// The product identifier as reported on the USB descriptor.
    ProductId,
    /// Whether the EEPROM is locked.
    CameraLocked,
    /// The designated USB specification (USB2/USB3).
    UsbTypeDescriptor,
    /// The product line of the device.
    ProductLine,
    /// The serial number of the ASIC.
    AsicSerialNumber,
    /// The identifier used for firmware updates.
    FirmwareUpdateId,
    /// The IP address of an ethernet-attached device.
    IpAddress,
}

impl Rs2CameraInfo {
    /// The native integer code of this variant.
    pub open spec fn code(self) -> i32 {
        match self {
            Rs2CameraInfo::Name => 0,
            Rs2CameraInfo::SerialNumber => 1,
            Rs2CameraInfo::FirmwareVersion => 2,
            Rs2CameraInfo::RecommendedFirmwareVersion => 3,
            Rs2CameraInfo::PhysicalPort => 4,
            Rs2CameraInfo::DebugOpCode => 5,
            Rs2CameraInfo::AdvancedMode => 6,
            Rs2CameraInfo::ProductId => 7,
            Rs2CameraInfo::CameraLocked => 8,
            Rs2CameraInfo::UsbTypeDescriptor => 9,
            Rs2CameraInfo::ProductLine => 10,
            Rs2CameraInfo::AsicSerialNumber => 11,
            Rs2CameraInfo::FirmwareUpdateId => 12,
            Rs2CameraInfo::IpAddress => 13,
        }
    }

    /// The variant the native code `i` names, if any.
    pub open spec fn spec_from_i32(i: i32) -> Option<Rs2CameraInfo> {
        if i == 0 {
            Some(Rs2CameraInfo::Name)
        } else if i == 1 {
            Some(Rs2CameraInfo::SerialNumber)
        } else if i == 2 {
            Some(Rs2CameraInfo::FirmwareVersion)
        } else if i == 3 {
            Some(Rs2CameraInfo::RecommendedFirmwareVersion)
        } else if i == 4 {
            Some(Rs2CameraInfo::PhysicalPort)
        } else if i == 5 {
            Some(Rs2CameraInfo::DebugOpCode)
        } else if i == 6 {
            Some(Rs2CameraInfo::AdvancedMode)
        } else if i == 7 {
            Some(Rs2CameraInfo::ProductId)
        } else if i == 8 {
            Some(Rs2CameraInfo::CameraLocked)
        } else if i == 9 {
            Some(Rs2CameraInfo::UsbTypeDescriptor)
        } else if i == 10 {
            Some(Rs2CameraInfo::ProductLine)
        } else if i == 11 {
            Some(Rs2CameraInfo::AsicSerialNumber)
        } else if i == 12 {
            Some(Rs2CameraInfo::FirmwareUpdateId)
        } else if i == 13 {
            Some(Rs2CameraInfo::IpAddress)
        } else {
            None
        }
    }

    /// Convert this variant to its native integer code.
    pub fn to_i32(self) -> (r: i32)
        ensures
            r == self.code(),
    {
        match self {
            Rs2CameraInfo::Name => 0,
            Rs2CameraInfo::SerialNumber => 1,
            Rs2CameraInfo::FirmwareVersion => 2,
            Rs2CameraInfo::RecommendedFirmwareVersion => 3,
            Rs2CameraInfo::PhysicalPort => 4,
            Rs2CameraInfo::DebugOpCode => 5,
            Rs2CameraInfo::AdvancedMode => 6,
            Rs2CameraInfo::ProductId => 7,
            Rs2CameraInfo::CameraLocked => 8,
            Rs2CameraInfo::UsbTypeDescriptor => 9,
            Rs2CameraInfo::ProductLine => 10,
            Rs2CameraInfo::AsicSerialNumber => 11,
            Rs2CameraInfo::FirmwareUpdateId => 12,
            Rs2CameraInfo::IpAddress => 13,
        }
    }

    /// Recover a variant from its native integer code.
    pub fn from_i32(i: i32) -> (r: Option<Rs2CameraInfo>)
        ensures
            r == Rs2CameraInfo::spec_from_i32(i),
    {
        match i {
            0 => Some(Rs2CameraInfo::Name),
            1 => Some(Rs2CameraInfo::SerialNumber),
            2 => Some(Rs2CameraInfo::FirmwareVersion),
            3 => Some(Rs2CameraInfo::RecommendedFirmwareVersion),
            4 => Some(Rs2CameraInfo::PhysicalPort),
            5 => Some(Rs2CameraInfo::DebugOpCode),
            6 => Some(Rs2CameraInfo::AdvancedMode),
            7 => Some(Rs2CameraInfo::ProductId),
            8 => Some(Rs2CameraInfo::CameraLocked),
            9 => Some(Rs2CameraInfo::UsbTypeDescriptor),
            10 => Some(Rs2CameraInfo::ProductLine),
            11 => Some(Rs2CameraInfo::AsicSerialNumber),
            12 => Some(Rs2CameraInfo::FirmwareUpdateId),
            13 => Some(Rs2CameraInfo::IpAddress),
            _ => None,
        }
    }
}

/// The camera-info table is a bijection on `0..CAMERA_INFO_COUNT`.
pub proof fn lemma_camera_info_codes_complete()
    ensures
        forall|i: i32|
            0 <= i < CAMERA_INFO_COUNT ==> {
                &&& #[trigger] Rs2CameraInfo::spec_from_i32(i) is Some
                &&& Rs2CameraInfo::spec_from_i32(i)->Some_0.code() == i
            },
        forall|k: Rs2CameraInfo| Rs2CameraInfo::spec_from_i32(#[trigger] k.code()) == Some(k),
{
}

} // verus!
