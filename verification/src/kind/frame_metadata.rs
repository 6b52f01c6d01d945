//! The per-frame metadata keys.

use vstd::prelude::*;

verus! {

/// How many frame-metadata codes the native table defines.
pub const FRAME_METADATA_COUNT: i32 = 43;

/// A key naming one piece of metadata attached to a captured frame.
///
/// Support is advisory: a frame that does not carry a value for a key simply
/// reports the key as unsupported.
#[derive(Clone, Copy, Debug, PartialEq, Eq, Hash, Structural)]
pub enum Rs2FrameMetadata {
    /// A sequential index managed per-stream, counting up from zero.
    FrameCounter,
    /// Device-clock timestamp when transmission of the frame began, in
    /// microseconds.
    FrameTimestamp,
    /// Device-computed timestamp for the middle of the exposure, in
    /// microseconds.
    SensorTimestamp,
    /// The exposure duration used for this frame, in microseconds.
    ActualExposure,
    /// The sensor's relative gain level during capture.
    GainLevel,
    /// Whether auto-exposure was on during capture (zero means off).
    AutoExposure,
    /// The white-balance color temperature during capture, in kelvins.
    WhiteBalance,
    /// Host-clock timestamp at which the frame arrived.
    TimeOfArrival,
    /// Device temperature during capture, in degrees Celsius.
    Temperature,
    /// UVC driver timestamp, in microseconds.
    BackendTimestamp,
    /// The actual frame rate of the stream at capture time.
    ActualFps,
    /// Relative laser power during capture, between 0 and 360.
    FrameLaserPower,
    /// Laser power mode at capture time (zero off, one on); superseded by
    /// [`Rs2FrameMetadata::FrameEmitterMode`].
    FrameLaserPowerMode,
    /// The exposure priority setting.
    ExposurePriority,
    /// Left edge of the auto-exposure region of interest.
    ExposureRoiLeft,
    /// Right edge of the auto-exposure region of interest.
    ExposureRoiRight,
    /// Top edge of the auto-exposure region of interest.
    ExposureRoiTop,
    /// Bottom edge of the auto-exposure region of interest.
    ExposureRoiBottom,
    /// Color-image brightness at capture time.
    Brightness,
    /// Color-image contrast at capture time.
    Contrast,
    /// Color-image saturation at capture time.
    Saturation,
    /// Color-image sharpness at capture time.
    Sharpness,
    /// Whether auto-white-balance was on during capture (zero means off).
    AutoWhiteBalanceTemperature,
    /// Whether backlight compensation was on for the color image.
    BacklightCompensation,
    /// Color-image hue at capture time.
    Hue,
    /// Color-image gamma at capture time.
    Gamma,
    /// Manual white balance of the color image at capture time.
    ManualWhiteBalance,
    /// Power-line frequency mode for anti-flickering.
    PowerLineFrequency,
    /// Whether low-light compensation was on for the color image.
    LowLightCompensation,
    /// The emitter mode at capture time.
    FrameEmitterMode,
    /// Relative LED power during capture, between 0 and 360.
    FrameLedPower,
    /// Transmitted payload size of the frame in bytes, metadata excluded.
    RawFrameSize,
    /// GPIO input data.
    GpioInputData,
    /// Sub-preset identifier.
    SequenceName,
    /// Sub-preset sequence identifier.
    SequenceIdentifier,
    /// Sub-preset sequence size.
    SequenceSize,
    /// The frame trigger type.
    Trigger,
    /// Preset identifier.
    Preset,
    /// Frame input width in pixels.
    InputWidth,
    /// Frame input height in pixels.
    InputHeight,
    /// Sub-preset information.
    SubPresetInfo,
    /// Firmware-controlled frame counter for calibration scenarios.
    CalibInfo,
    /// CRC checksum of the metadata.
    Crc,
}

impl Rs2FrameMetadata {
    /// The native integer code of this variant.
    pub open spec fn code(self) -> i32 {
        match self {
            Rs2FrameMetadata::FrameCounter => 0,
            Rs2FrameMetadata::FrameTimestamp => 1,
            Rs2FrameMetadata::SensorTimestamp => 2,
            Rs2FrameMetadata::ActualExposure => 3,
            Rs2FrameMetadata::GainLevel => 4,
            Rs2FrameMetadata::AutoExposure => 5,
            Rs2FrameMetadata::WhiteBalance => 6,
            Rs2FrameMetadata::TimeOfArrival => 7,
            Rs2FrameMetadata::Temperature => 8,
            Rs2FrameMetadata::BackendTimestamp => 9,
            Rs2FrameMetadata::ActualFps => 10,
            Rs2FrameMetadata::FrameLaserPower => 11,
            Rs2FrameMetadata::FrameLaserPowerMode => 12,
            Rs2FrameMetadata::ExposurePriority => 13,
            Rs2FrameMetadata::ExposureRoiLeft => 14,
            Rs2FrameMetadata::ExposureRoiRight => 15,
            Rs2FrameMetadata::ExposureRoiTop => 16,
            Rs2FrameMetadata::ExposureRoiBottom => 17,
            Rs2FrameMetadata::Brightness => 18,
            Rs2FrameMetadata::Contrast => 19,
            Rs2FrameMetadata::Saturation => 20,
            Rs2FrameMetadata::Sharpness => 21,
            Rs2FrameMetadata::AutoWhiteBalanceTemperature => 22,
            Rs2FrameMetadata::BacklightCompensation => 23,
            Rs2FrameMetadata::Hue => 24,
            Rs2FrameMetadata::Gamma => 25,
            Rs2FrameMetadata::ManualWhiteBalance => 26,
            Rs2FrameMetadata::PowerLineFrequency => 27,
            Rs2FrameMetadata::LowLightCompensation => 28,
            Rs2FrameMetadata::FrameEmitterMode => 29,
            Rs2FrameMetadata::FrameLedPower => 30,
            Rs2FrameMetadata::RawFrameSize => 31,
            Rs2FrameMetadata::GpioInputData => 32,
            Rs2FrameMetadata::SequenceName => 33,
            Rs2FrameMetadata::SequenceIdentifier => 34,
            Rs2FrameMetadata::SequenceSize => 35,
            Rs2FrameMetadata::Trigger => 36,
            Rs2FrameMetadata::Preset => 37,
            Rs2FrameMetadata::InputWidth => 38,
            Rs2FrameMetadata::InputHeight => 39,
            Rs2FrameMetadata::SubPresetInfo => 40,
            Rs2FrameMetadata::CalibInfo => 41,
            Rs2FrameMetadata::Crc => 42,
        }
    }

    /// The variant the native code `i` names, if any.
    pub open spec fn spec_from_i32(i: i32) -> Option<Rs2FrameMetadata> {
        if i == 0 {
            Some(Rs2FrameMetadata::FrameCounter)
        } else if i == 1 {
            Some(Rs2FrameMetadata::FrameTimestamp)
        } else if i == 2 {
            Some(Rs2FrameMetadata::SensorTimestamp)
        } else if i == 3 {
            Some(Rs2FrameMetadata::ActualExposure)
        } else if i == 4 {
            Some(Rs2FrameMetadata::GainLevel)
        } else if i == 5 {
            Some(Rs2FrameMetadata::AutoExposure)
        } else if i == 6 {
            Some(Rs2FrameMetadata::WhiteBalance)
        } else if i == 7 {
            Some(Rs2FrameMetadata::TimeOfArrival)
        } else if i == 8 {
            Some(Rs2FrameMetadata::Temperature)
        } else if i == 9 {
            Some(Rs2FrameMetadata::BackendTimestamp)
        } else if i == 10 {
            Some(Rs2FrameMetadata::ActualFps)
        } else if i == 11 {
            Some(Rs2FrameMetadata::FrameLaserPower)
        } else if i == 12 {
            Some(Rs2FrameMetadata::FrameLaserPowerMode)
        } else if i == 13 {
            Some(Rs2FrameMetadata::ExposurePriority)
        } else if i == 14 {
            Some(Rs2FrameMetadata::ExposureRoiLeft)
        } else if i == 15 {
            Some(Rs2FrameMetadata::ExposureRoiRight)
        } else if i == 16 {
            Some(Rs2FrameMetadata::ExposureRoiTop)
        } else if i == 17 {
            Some(Rs2FrameMetadata::ExposureRoiBottom)
        } else if i == 18 {
            Some(Rs2FrameMetadata::Brightness)
        } else if i == 19 {
            Some(Rs2FrameMetadata::Contrast)
        } else if i == 20 {
            Some(Rs2FrameMetadata::Saturation)
        } else if i == 21 {
            Some(Rs2FrameMetadata::Sharpness)
        } else if i == 22 {
            Some(Rs2FrameMetadata::AutoWhiteBalanceTemperature)
        } else if i == 23 {
            Some(Rs2FrameMetadata::BacklightCompensation)
        } else if i == 24 {
            Some(Rs2FrameMetadata::Hue)
        } else if i == 25 {
            Some(Rs2FrameMetadata::Gamma)
        } else if i == 26 {
            Some(Rs2FrameMetadata::ManualWhiteBalance)
        } else if i == 27 {
            Some(Rs2FrameMetadata::PowerLineFrequency)
        } else if i == 28 {
            Some(Rs2FrameMetadata::LowLightCompensation)
        } else if i == 29 {
            Some(Rs2FrameMetadata::FrameEmitterMode)
        } else if i == 30 {
            Some(Rs2FrameMetadata::FrameLedPower)
        } else if i == 31 {
            Some(Rs2FrameMetadata::RawFrameSize)
        } else if i == 32 {
            Some(Rs2FrameMetadata::GpioInputData)
        } else if i == 33 {
            Some(Rs2FrameMetadata::SequenceName)
        } else if i == 34 {
            Some(Rs2FrameMetadata::SequenceIdentifier)
        } else if i == 35 {
            Some(Rs2FrameMetadata::SequenceSize)
        } else if i == 36 {
            Some(Rs2FrameMetadata::Trigger)
        } else if i == 37 {
            Some(Rs2FrameMetadata::Preset)
        } else if i == 38 {
            Some(Rs2FrameMetadata::InputWidth)
        } else if i == 39 {
            Some(Rs2FrameMetadata::InputHeight)
        } else if i == 40 {
            Some(Rs2FrameMetadata::SubPresetInfo)
        } else if i == 41 {
            Some(Rs2FrameMetadata::CalibInfo)
        } else if i == 42 {
            Some(Rs2FrameMetadata::Crc)
        } else {
            None
        }
    }

    /// Convert this variant to its native integer code.
    pub fn to_i32(self) -> (r: i32)
        ensures
            r == self.code(),
    {
        match self {
            Rs2FrameMetadata::FrameCounter => 0,
            Rs2FrameMetadata::FrameTimestamp => 1,
            Rs2FrameMetadata::SensorTimestamp => 2,
            Rs2FrameMetadata::ActualExposure => 3,
            Rs2FrameMetadata::GainLevel => 4,
            Rs2FrameMetadata::AutoExposure => 5,
            Rs2FrameMetadata::WhiteBalance => 6,
            Rs2FrameMetadata::TimeOfArrival => 7,
            Rs2FrameMetadata::Temperature => 8,
            Rs2FrameMetadata::BackendTimestamp => 9,
            Rs2FrameMetadata::ActualFps => 10,
            Rs2FrameMetadata::FrameLaserPower => 11,
            Rs2FrameMetadata::FrameLaserPowerMode => 12,
            Rs2FrameMetadata::ExposurePriority => 13,
            Rs2FrameMetadata::ExposureRoiLeft => 14,
            Rs2FrameMetadata::ExposureRoiRight => 15,
            Rs2FrameMetadata::ExposureRoiTop => 16,
            Rs2FrameMetadata::ExposureRoiBottom => 17,
            Rs2FrameMetadata::Brightness => 18,
            Rs2FrameMetadata::Contrast => 19,
            Rs2FrameMetadata::Saturation => 20,
            Rs2FrameMetadata::Sharpness => 21,
            Rs2FrameMetadata::AutoWhiteBalanceTemperature => 22,
            Rs2FrameMetadata::BacklightCompensation => 23,
            Rs2FrameMetadata::Hue => 24,
            Rs2FrameMetadata::Gamma => 25,
            Rs2FrameMetadata::ManualWhiteBalance => 26,
            Rs2FrameMetadata::PowerLineFrequency => 27,
            Rs2FrameMetadata::LowLightCompensation => 28,
            Rs2FrameMetadata::FrameEmitterMode => 29,
            Rs2FrameMetadata::FrameLedPower => 30,
            Rs2FrameMetadata::RawFrameSize => 31,
            Rs2FrameMetadata::GpioInputData => 32,
            Rs2FrameMetadata::SequenceName => 33,
            Rs2FrameMetadata::SequenceIdentifier => 34,
            Rs2FrameMetadata::SequenceSize => 35,
            Rs2FrameMetadata::Trigger => 36,
            Rs2FrameMetadata::Preset => 37,
            Rs2FrameMetadata::InputWidth => 38,
            Rs2FrameMetadata::InputHeight => 39,
            Rs2FrameMetadata::SubPresetInfo => 40,
            Rs2FrameMetadata::CalibInfo => 41,
            Rs2FrameMetadata::Crc => 42,
        }
    }

    /// Recover a variant from its native integer code.
    pub fn from_i32(i: i32) -> (r: Option<Rs2FrameMetadata>)
        ensures
            r == Rs2FrameMetadata::spec_from_i32(i),
    {
        match i {
            0 => Some(Rs2FrameMetadata::FrameCounter),
            1 => Some(Rs2FrameMetadata::FrameTimestamp),
            2 => Some(Rs2FrameMetadata::SensorTimestamp),
            3 => Some(Rs2FrameMetadata::ActualExposure),
            4 => Some(Rs2FrameMetadata::GainLevel),
            5 => Some(Rs2FrameMetadata::AutoExposure),
            6 => Some(Rs2FrameMetadata::WhiteBalance),
            7 => Some(Rs2FrameMetadata::TimeOfArrival),
            8 => Some(Rs2FrameMetadata::Temperature),
            9 => Some(Rs2FrameMetadata::BackendTimestamp),
            10 => Some(Rs2FrameMetadata::ActualFps),
            11 => Some(Rs2FrameMetadata::FrameLaserPower),
            12 => Some(Rs2FrameMetadata::FrameLaserPowerMode),
            13 => Some(Rs2FrameMetadata::ExposurePriority),
            14 => Some(Rs2FrameMetadata::ExposureRoiLeft),
            15 => Some(Rs2FrameMetadata::ExposureRoiRight),
            16 => Some(Rs2FrameMetadata::ExposureRoiTop),
            17 => Some(Rs2FrameMetadata::ExposureRoiBottom),
            18 => Some(Rs2FrameMetadata::Brightness),
            19 => Some(Rs2FrameMetadata::Contrast),
            20 => Some(Rs2FrameMetadata::Saturation),
            21 => Some(Rs2FrameMetadata::Sharpness),
            22 => Some(Rs2FrameMetadata::AutoWhiteBalanceTemperature),
            23 => Some(Rs2FrameMetadata::BacklightCompensation),
            24 => Some(Rs2FrameMetadata::Hue),
            25 => Some(Rs2FrameMetadata::Gamma),
            26 => Some(Rs2FrameMetadata::ManualWhiteBalance),
            27 => Some(Rs2FrameMetadata::PowerLineFrequency),
            28 => Some(Rs2FrameMetadata::LowLightCompensation),
            29 => Some(Rs2FrameMetadata::FrameEmitterMode),
            30 => Some(Rs2FrameMetadata::FrameLedPower),
            31 => Some(Rs2FrameMetadata::RawFrameSize),
            32 => Some(Rs2FrameMetadata::GpioInputData),
            33 => Some(Rs2FrameMetadata::SequenceName),
            34 => Some(Rs2FrameMetadata::SequenceIdentifier),
            35 => Some(Rs2FrameMetadata::SequenceSize),
            36 => Some(Rs2FrameMetadata::Trigger),
            37 => Some(Rs2FrameMetadata::Preset),
            38 => Some(Rs2FrameMetadata::InputWidth),
            39 => Some(Rs2FrameMetadata::InputHeight),
            40 => Some(Rs2FrameMetadata::SubPresetInfo),
            41 => Some(Rs2FrameMetadata::CalibInfo),
            42 => Some(Rs2FrameMetadata::Crc),
            _ => None,
        }
    }
}

/// The frame-metadata table is a bijection on `0..FRAME_METADATA_COUNT`.
pub proof fn lemma_frame_metadata_codes_complete()
    ensures
        forall|i: i32|
            0 <= i < FRAME_METADATA_COUNT ==> {
                &&& #[trigger] Rs2FrameMetadata::spec_from_i32(i) is Some
                &&& Rs2FrameMetadata::spec_from_i32(i)->Some_0.code() == i
            },
        forall|k: Rs2FrameMetadata|
            Rs2FrameMetadata::spec_from_i32(#[trigger] k.code()) == Some(k),
{
}

} // verus!
