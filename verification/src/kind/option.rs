//! The tunable options a sensor exposes, and the errors of setting one.

use crate::base::F32Bits;
use crate::kind::exception::Rs2Exception;
use vstd::prelude::*;

verus! {

/// How many option codes this table covers; the native table continues
/// beyond it.
pub const OPTION_COUNT: i32 = 31;

/// A key naming one tunable setting of a sensor.
///
/// The native table is larger; this enum covers its first, commonly used
/// stretch. Codes are contiguous from zero in declaration order.
#[derive(Clone, Copy, Debug, PartialEq, Eq, Hash, Structural)]
pub enum Rs2Option {
    /// Enable or disable color-image backlight compensation.
    BacklightCompensation,
    /// The color-image brightness.
    Brightness,
    /// The color-image contrast.
    Contrast,
    /// Controls exposure time of the color camera.
    Exposure,
    /// The color-image gain.
    Gain,
    /// The color-image gamma.
    Gamma,
    /// The color-image hue.
    Hue,
    /// The color-image saturation.
    Saturation,
    /// The color-image sharpness.
    Sharpness,
    /// The color-image white balance, as a color temperature.
    WhiteBalance,
    /// Enable or disable auto-exposure.
    EnableAutoExposure,
    /// Enable or disable auto-white-balance.
    EnableAutoWhiteBalance,
    /// The power of the projector.
    VisualPreset,
    /// The manual laser power.
    LaserPower,
    /// The accuracy preset of a structured-light device.
    Accuracy,
    /// The motion-range tradeoff of a structured-light device.
    MotionRange,
    /// The filter option of a structured-light device.
    FilterOption,
    /// The confidence threshold of a structured-light device.
    ConfidenceThreshold,
    /// Whether the laser emitter is enabled.
    EmitterEnabled,
    /// The number of frames the user is allowed to keep per stream.
    FramesQueueSize,
    /// The total number of detected frame drops since the stream started.
    TotalFrameDrops,
    /// The auto-exposure strategy.
    AutoExposureMode,
    /// The power-line frequency used for anti-flickering.
    PowerLineFrequency,
    /// The current temperature of the ASIC.
    AsicTemperature,
    /// Whether error handling is enabled.
    ErrorPollingEnabled,
    /// The current temperature of the projector.
    ProjectorTemperature,
    /// Whether the output trigger is enabled.
    OutputTriggerEnabled,
    /// The current temperature of the motion module.
    MotionModuleTemperature,
    /// The number of metres a single depth unit stands for.
    DepthUnits,
    /// Whether automatic correction of motion data is enabled.
    EnableMotionCorrection,
    /// Whether auto-exposure may lower the frame rate to keep exposure.
    AutoExposurePriority,
}

impl Rs2Option {
    /// The native integer code of this variant.
    pub open spec fn code(self) -> i32 {
        match self {
            Rs2Option::BacklightCompensation => 0,
            Rs2Option::Brightness => 1,
            Rs2Option::Contrast => 2,
            Rs2Option::Exposure => 3,
            Rs2Option::Gain => 4,
            Rs2Option::Gamma => 5,
            Rs2Option::Hue => 6,
            Rs2Option::Saturation => 7,
            Rs2Option::Sharpness => 8,
            Rs2Option::WhiteBalance => 9,
            Rs2Option::EnableAutoExposure => 10,
            Rs2Option::EnableAutoWhiteBalance => 11,
            Rs2Option::VisualPreset => 12,
            Rs2Option::LaserPower => 13,
            Rs2Option::Accuracy => 14,
            Rs2Option::MotionRange => 15,
            Rs2Option::FilterOption => 16,
            Rs2Option::ConfidenceThreshold => 17,
            Rs2Option::EmitterEnabled => 18,
            Rs2Option::FramesQueueSize => 19,
            Rs2Option::TotalFrameDrops => 20,
            Rs2Option::AutoExposureMode => 21,
            Rs2Option::PowerLineFrequency => 22,
            Rs2Option::AsicTemperature => 23,
            Rs2Option::ErrorPollingEnabled => 24,
            Rs2Option::ProjectorTemperature => 25,
            Rs2Option::OutputTriggerEnabled => 26,
            Rs2Option::MotionModuleTemperature => 27,
            Rs2Option::DepthUnits => 28,
            Rs2Option::EnableMotionCorrection => 29,
            Rs2Option::AutoExposurePriority => 30,
        }
    }

    /// Convert this variant to its native integer code.
    pub fn to_i32(self) -> (r: i32)
        ensures
            r == self.code(),
    {
        match self {
            Rs2Option::BacklightCompensation => 0,
            Rs2Option::Brightness => 1,
            Rs2Option::Contrast => 2,
            Rs2Option::Exposure => 3,
            Rs2Option::Gain => 4,
            Rs2Option::Gamma => 5,
            Rs2Option::Hue => 6,
            Rs2Option::Saturation => 7,
            Rs2Option::Sharpness => 8,
            Rs2Option::WhiteBalance => 9,
            Rs2Option::EnableAutoExposure => 10,
            Rs2Option::EnableAutoWhiteBalance => 11,
            Rs2Option::VisualPreset => 12,
            Rs2Option::LaserPower => 13,
            Rs2Option::Accuracy => 14,
            Rs2Option::MotionRange => 15,
            Rs2Option::FilterOption => 16,
            Rs2Option::ConfidenceThreshold => 17,
            Rs2Option::EmitterEnabled => 18,
            Rs2Option::FramesQueueSize => 19,
            Rs2Option::TotalFrameDrops => 20,
            Rs2Option::AutoExposureMode => 21,
            Rs2Option::PowerLineFrequency => 22,
            Rs2Option::AsicTemperature => 23,
            Rs2Option::ErrorPollingEnabled => 24,
            Rs2Option::ProjectorTemperature => 25,
            Rs2Option::OutputTriggerEnabled => 26,
            Rs2Option::MotionModuleTemperature => 27,
            Rs2Option::DepthUnits => 28,
            Rs2Option::EnableMotionCorrection => 29,
            Rs2Option::AutoExposurePriority => 30,
        }
    }

    /// The variant the native code `i` names, if this table covers it.
    pub open spec fn spec_from_i32(i: i32) -> Option<Rs2Option> {
        if i == 0 {
            Some(Rs2Option::BacklightCompensation)
        } else if i == 1 {
            Some(Rs2Option::Brightness)
        } else if i == 2 {
            Some(Rs2Option::Contrast)
        } else if i == 3 {
            Some(Rs2Option::Exposure)
        } else if i == 4 {
            Some(Rs2Option::Gain)
        } else if i == 5 {
            Some(Rs2Option::Gamma)
        } else if i == 6 {
            Some(Rs2Option::Hue)
        } else if i == 7 {
            Some(Rs2Option::Saturation)
        } else if i == 8 {
            Some(Rs2Option::Sharpness)
        } else if i == 9 {
            Some(Rs2Option::WhiteBalance)
        } else if i == 10 {
            Some(Rs2Option::EnableAutoExposure)
        } else if i == 11 {
            Some(Rs2Option::EnableAutoWhiteBalance)
        } else if i == 12 {
            Some(Rs2Option::VisualPreset)
        } else if i == 13 {
            Some(Rs2Option::LaserPower)
        } else if i == 14 {
            Some(Rs2Option::Accuracy)
        } else if i == 15 {
            Some(Rs2Option::MotionRange)
        } else if i == 16 {
            Some(Rs2Option::FilterOption)
        } else if i == 17 {
            Some(Rs2Option::ConfidenceThreshold)
        } else if i == 18 {
            Some(Rs2Option::EmitterEnabled)
        } else if i == 19 {
            Some(Rs2Option::FramesQueueSize)
        } else if i == 20 {
            Some(Rs2Option::TotalFrameDrops)
        } else if i == 21 {
            Some(Rs2Option::AutoExposureMode)
        } else if i == 22 {
            Some(Rs2Option::PowerLineFrequency)
        } else if i == 23 {
            Some(Rs2Option::AsicTemperature)
        } else if i == 24 {
            Some(Rs2Option::ErrorPollingEnabled)
        } else if i == 25 {
            Some(Rs2Option::ProjectorTemperature)
        } else if i == 26 {
            Some(Rs2Option::OutputTriggerEnabled)
        } else if i == 27 {
            Some(Rs2Option::MotionModuleTemperature)
        } else if i == 28 {
            Some(Rs2Option::DepthUnits)
        } else if i == 29 {
            Some(Rs2Option::EnableMotionCorrection)
        } else if i == 30 {
            Some(Rs2Option::AutoExposurePriority)
        } else {
            None
        }
    }

    /// Recover a variant from its native integer code, where this table
    /// covers it.
    pub fn from_i32(i: i32) -> (r: Option<Rs2Option>)
        ensures
            r == Rs2Option::spec_from_i32(i),
    {
        match i {
            0 => Some(Rs2Option::BacklightCompensation),
            1 => Some(Rs2Option::Brightness),
            2 => Some(Rs2Option::Contrast),
            3 => Some(Rs2Option::Exposure),
            4 => Some(Rs2Option::Gain),
            5 => Some(Rs2Option::Gamma),
            6 => Some(Rs2Option::Hue),
            7 => Some(Rs2Option::Saturation),
            8 => Some(Rs2Option::Sharpness),
            9 => Some(Rs2Option::WhiteBalance),
            10 => Some(Rs2Option::EnableAutoExposure),
            11 => Some(Rs2Option::EnableAutoWhiteBalance),
            12 => Some(Rs2Option::VisualPreset),
            13 => Some(Rs2Option::LaserPower),
            14 => Some(Rs2Option::Accuracy),
            15 => Some(Rs2Option::MotionRange),
            16 => Some(Rs2Option::FilterOption),
            17 => Some(Rs2Option::ConfidenceThreshold),
            18 => Some(Rs2Option::EmitterEnabled),
            19 => Some(Rs2Option::FramesQueueSize),
            20 => Some(Rs2Option::TotalFrameDrops),
            21 => Some(Rs2Option::AutoExposureMode),
            22 => Some(Rs2Option::PowerLineFrequency),
            23 => Some(Rs2Option::AsicTemperature),
            24 => Some(Rs2Option::ErrorPollingEnabled),
            25 => Some(Rs2Option::ProjectorTemperature),
            26 => Some(Rs2Option::OutputTriggerEnabled),
            27 => Some(Rs2Option::MotionModuleTemperature),
            28 => Some(Rs2Option::DepthUnits),
            29 => Some(Rs2Option::EnableMotionCorrection),
            30 => Some(Rs2Option::AutoExposurePriority),
            _ => None,
        }
    }
}

/// The covered stretch of the option table is a bijection on
/// `0..OPTION_COUNT`.
pub proof fn lemma_option_codes_complete()
    ensures
        forall|i: i32|
            0 <= i < OPTION_COUNT ==> {
                &&& #[trigger] Rs2Option::spec_from_i32(i) is Some
                &&& Rs2Option::spec_from_i32(i)->Some_0.code() == i
            },
        forall|k: Rs2Option| Rs2Option::spec_from_i32(#[trigger] k.code()) == Some(k),
{
}

/// The valid range and default of one option, each value carried as an
/// IEEE-754 single-precision bit pattern.
#[derive(Clone, Copy, Debug, PartialEq, Eq, Structural)]
pub struct Rs2OptionRange {
    /// The smallest accepted value.
    pub min: F32Bits,
    /// The largest accepted value.
    pub max: F32Bits,
    /// The granularity of accepted values.
    pub step: F32Bits,
    /// The value the option starts at.
    pub default: F32Bits,
}

/// Why setting an option failed.
#[derive(Clone, Debug)]
pub enum OptionSetError {
    /// The sensor does not support the option at all.
    OptionNotSupported,
    /// The sensor supports the option but does not allow writing it.
    OptionIsReadOnly,
    /// The native set call itself failed; carries the native exception
    /// category and message.
    CouldNotSetOption(Rs2Exception, String),
}

} // verus!
