//! The kinds of data stream a sensor can produce.

use vstd::prelude::*;

verus! {

/// How many stream-kind codes the native table defines.
pub const STREAM_KIND_COUNT: i32 = 10;

/// The kind of data a stream carries.
#[derive(Clone, Copy, Debug, PartialEq, Eq, Hash, Structural)]
pub enum Rs2StreamKind {
    /// A wildcard matching any stream kind.
    Any,
    /// Native depth data.
    Depth,
    /// Color (or monochrome visible-light) data.
    Color,
    /// Infrared imager data.
    Infrared,
    /// Wide-angle fisheye imager data.
    Fisheye,
    /// Gyroscope motion data.
    Gyro,
    /// Accelerometer motion data.
    Accel,
    /// Signals from external GPIO pins.
    Gpio,
    /// Six-degrees-of-freedom pose data.
    Pose,
    /// A per-pixel confidence map.
    Confidence,
}

impl Rs2StreamKind {
    /// The native integer code of this variant.
    pub open spec fn code(self) -> i32 {
        match self {
            Rs2StreamKind::Any => 0,
            Rs2StreamKind::Depth => 1,
            Rs2StreamKind::Color => 2,
            Rs2StreamKind::Infrared => 3,
            Rs2StreamKind::Fisheye => 4,
            Rs2StreamKind::Gyro => 5,
            Rs2StreamKind::Accel => 6,
            Rs2StreamKind::Gpio => 7,
            Rs2StreamKind::Pose => 8,
            Rs2StreamKind::Confidence => 9,
        }
    }

    /// The variant the native code `i` names, if any.
    pub open spec fn spec_from_i32(i: i32) -> Option<Rs2StreamKind> {
        if i == 0 {
            Some(Rs2StreamKind::Any)
        } else if i == 1 {
            Some(Rs2StreamKind::Depth)
        } else if i == 2 {
            Some(Rs2StreamKind::Color)
        } else if i == 3 {
            Some(Rs2StreamKind::Infrared)
        } else if i == 4 {
            Some(Rs2StreamKind::Fisheye)
        } else if i == 5 {
            Some(Rs2StreamKind::Gyro)
        } else if i == 6 {
            Some(Rs2StreamKind::Accel)
        } else if i == 7 {
            Some(Rs2StreamKind::Gpio)
        } else if i == 8 {
            Some(Rs2StreamKind::Pose)
        } else if i == 9 {
            Some(Rs2StreamKind::Confidence)
        } else {
            None
        }
    }

    /// Convert this variant to its native integer code.
    pub fn to_i32(self) -> (r: i32)
        ensures
            r == self.code(),
    {
        match self {
            Rs2StreamKind::Any => 0,
            Rs2StreamKind::Depth => 1,
            Rs2StreamKind::Color => 2,
            Rs2StreamKind::Infrared => 3,
            Rs2StreamKind::Fisheye => 4,
            Rs2StreamKind::Gyro => 5,
            Rs2StreamKind::Accel => 6,
            Rs2StreamKind::Gpio => 7,
            Rs2StreamKind::Pose => 8,
            Rs2StreamKind::Confidence => 9,
        }
    }

    /// Recover a variant from its native integer code.
    pub fn from_i32(i: i32) -> (r: Option<Rs2StreamKind>)
        ensures
            r == Rs2StreamKind::spec_from_i32(i),
    {
        match i {
            0 => Some(Rs2StreamKind::Any),
            1 => Some(Rs2StreamKind::Depth),
            2 => Some(Rs2StreamKind::Color),
            3 => Some(Rs2StreamKind::Infrared),
            4 => Some(Rs2StreamKind::Fisheye),
            5 => Some(Rs2StreamKind::Gyro),
            6 => Some(Rs2StreamKind::Accel),
            7 => Some(Rs2StreamKind::Gpio),
            8 => Some(Rs2StreamKind::Pose),
            9 => Some(Rs2StreamKind::Confidence),
            _ => None,
        }
    }
}

/// The stream-kind table is a bijection on `0..STREAM_KIND_COUNT`.
pub proof fn lemma_stream_kind_codes_complete()
    ensures
        forall|i: i32|
            0 <= i < STREAM_KIND_COUNT ==> {
                &&& #[trigger] Rs2StreamKind::spec_from_i32(i) is Some
                &&& Rs2StreamKind::spec_from_i32(i)->Some_0.code() == i
            },
        forall|k: Rs2StreamKind| Rs2StreamKind::spec_from_i32(#[trigger] k.code()) == Some(k),
{
}

} // verus!
