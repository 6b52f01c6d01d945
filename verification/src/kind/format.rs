//! The pixel and data formats a stream can deliver.

use vstd::prelude::*;

verus! {

/// How many format codes the native table defines.
pub const FORMAT_COUNT: i32 = 27;

/// How a frame's buffer encodes its pixels or samples.
#[derive(Clone, Copy, Debug, PartialEq, Eq, Hash, Structural)]
pub enum Rs2Format {
    /// A wildcard matching any format.
    Any,
    /// 16-bit linear depth, scaled by the depth-units option.
    Z16,
    /// 16-bit disparity, scaled inversely with depth.
    Disparity16,
    /// 32-bit float triples: X, Y, Z coordinates in metres.
    Xyz32F,
    /// Standard YUV 4:2:2 pixels, Y-U-Y-V byte order.
    Yuyv,
    /// 8-bit red, green and blue channels.
    Rgb8,
    /// 8-bit blue, green and red channels.
    Bgr8,
    /// 8-bit red, green, blue and alpha channels.
    Rgba8,
    /// 8-bit blue, green, red and alpha channels.
    Bgra8,
    /// 8-bit per-pixel grayscale.
    Y8,
    /// 16-bit per-pixel grayscale.
    Y16,
    /// Four 10-bit luminance values packed into five bytes.
    Raw10,
    /// 16-bit raw imager data.
    Raw16,
    /// 8-bit raw imager data.
    Raw8,
    /// YUV 4:2:2 pixels, U-Y-V-Y byte order.
    Uyvy,
    /// Raw data from the motion sensor.
    MotionRaw,
    /// Motion data packed as 32-bit float triples.
    MotionXyz32F,
    /// Raw data from the external sensors on the device.
    GpioRaw,
    /// Pose data: translation, rotation, velocities and accelerations.
    SixDof,
    /// 32-bit float disparity.
    Disparity32,
    /// Four 10-bit luminance values packed into a 32-bit word.
    Y10BPack,
    /// 32-bit float depth in metres.
    Distance,
    /// A compressed MJPEG frame.
    Mjpeg,
    /// Two 8-bit luminance values per two pixels.
    Y8I,
    /// Two 12-bit luminance values packed into three bytes.
    Y12I,
    /// An infrared frame encoded as UYVY.
    Inf,
    /// 16-bit per-pixel frame grabber format.
    Fg,
}

impl Rs2Format {
    /// The native integer code of this variant.
    pub open spec fn code(self) -> i32 {
        match self {
            Rs2Format::Any => 0,
            Rs2Format::Z16 => 1,
            Rs2Format::Disparity16 => 2,
            Rs2Format::Xyz32F => 3,
            Rs2Format::Yuyv => 4,
            Rs2Format::Rgb8 => 5,
            Rs2Format::Bgr8 => 6,
            Rs2Format::Rgba8 => 7,
            Rs2Format::Bgra8 => 8,
            Rs2Format::Y8 => 9,
            Rs2Format::Y16 => 10,
            Rs2Format::Raw10 => 11,
            Rs2Format::Raw16 => 12,
            Rs2Format::Raw8 => 13,
            Rs2Format::Uyvy => 14,
            Rs2Format::MotionRaw => 15,
            Rs2Format::MotionXyz32F => 16,
            Rs2Format::GpioRaw => 17,
            Rs2Format::SixDof => 18,
            Rs2Format::Disparity32 => 19,
            Rs2Format::Y10BPack => 20,
            Rs2Format::Distance => 21,
            Rs2Format::Mjpeg => 22,
            Rs2Format::Y8I => 23,
            Rs2Format::Y12I => 24,
            Rs2Format::Inf => 25,
            Rs2Format::Fg => 26,
        }
    }

    /// The variant the native code `i` names, if any.
    pub open spec fn spec_from_i32(i: i32) -> Option<Rs2Format> {
        if i == 0 {
            Some(Rs2Format::Any)
        } else if i == 1 {
            Some(Rs2Format::Z16)
        } else if i == 2 {
            Some(Rs2Format::Disparity16)
        } else if i == 3 {
            Some(Rs2Format::Xyz32F)
        } else if i == 4 {
            Some(Rs2Format::Yuyv)
        } else if i == 5 {
            Some(Rs2Format::Rgb8)
        } else if i == 6 {
            Some(Rs2Format::Bgr8)
        } else if i == 7 {
            Some(Rs2Format::Rgba8)
        } else if i == 8 {
            Some(Rs2Format::Bgra8)
        } else if i == 9 {
            Some(Rs2Format::Y8)
        } else if i == 10 {
            Some(Rs2Format::Y16)
        } else if i == 11 {
            Some(Rs2Format::Raw10)
        } else if i == 12 {
            Some(Rs2Format::Raw16)
        } else if i == 13 {
            Some(Rs2Format::Raw8)
        } else if i == 14 {
            Some(Rs2Format::Uyvy)
        } else if i == 15 {
            Some(Rs2Format::MotionRaw)
        } else if i == 16 {
            Some(Rs2Format::MotionXyz32F)
        } else if i == 17 {
            Some(Rs2Format::GpioRaw)
        } else if i == 18 {
            Some(Rs2Format::SixDof)
        } else if i == 19 {
            Some(Rs2Format::Disparity32)
        } else if i == 20 {
            Some(Rs2Format::Y10BPack)
        } else if i == 21 {
            Some(Rs2Format::Distance)
        } else if i == 22 {
            Some(Rs2Format::Mjpeg)
        } else if i == 23 {
            Some(Rs2Format::Y8I)
        } else if i == 24 {
            Some(Rs2Format::Y12I)
        } else if i == 25 {
            Some(Rs2Format::Inf)
        } else if i == 26 {
            Some(Rs2Format::Fg)
        } else {
            None
        }
    }

    /// Convert this variant to its native integer code.
    pub fn to_i32(self) -> (r: i32)
        ensures
            r == self.code(),
    {
        match self {
            Rs2Format::Any => 0,
            Rs2Format::Z16 => 1,
            Rs2Format::Disparity16 => 2,
            Rs2Format::Xyz32F => 3,
            Rs2Format::Yuyv => 4,
            Rs2Format::Rgb8 => 5,
            Rs2Format::Bgr8 => 6,
            Rs2Format::Rgba8 => 7,
            Rs2Format::Bgra8 => 8,
            Rs2Format::Y8 => 9,
            Rs2Format::Y16 => 10,
            Rs2Format::Raw10 => 11,
            Rs2Format::Raw16 => 12,
            Rs2Format::Raw8 => 13,
            Rs2Format::Uyvy => 14,
            Rs2Format::MotionRaw => 15,
            Rs2Format::MotionXyz32F => 16,
            Rs2Format::GpioRaw => 17,
            Rs2Format::SixDof => 18,
            Rs2Format::Disparity32 => 19,
            Rs2Format::Y10BPack => 20,
            Rs2Format::Distance => 21,
            Rs2Format::Mjpeg => 22,
            Rs2Format::Y8I => 23,
            Rs2Format::Y12I => 24,
            Rs2Format::Inf => 25,
            Rs2Format::Fg => 26,
        }
    }

    /// Recover a variant from its native integer code.
    pub fn from_i32(i: i32) -> (r: Option<Rs2Format>)
        ensures
            r == Rs2Format::spec_from_i32(i),
    {
        match i {
            0 => Some(Rs2Format::Any),
            1 => Some(Rs2Format::Z16),
            2 => Some(Rs2Format::Disparity16),
            3 => Some(Rs2Format::Xyz32F),
            4 => Some(Rs2Format::Yuyv),
            5 => Some(Rs2Format::Rgb8),
            6 => Some(Rs2Format::Bgr8),
            7 => Some(Rs2Format::Rgba8),
            8 => Some(Rs2Format::Bgra8),
            9 => Some(Rs2Format::Y8),
            10 => Some(Rs2Format::Y16),
            11 => Some(Rs2Format::Raw10),
            12 => Some(Rs2Format::Raw16),
            13 => Some(Rs2Format::Raw8),
            14 => Some(Rs2Format::Uyvy),
            15 => Some(Rs2Format::MotionRaw),
            16 => Some(Rs2Format::MotionXyz32F),
            17 => Some(Rs2Format::GpioRaw),
            18 => Some(Rs2Format::SixDof),
            19 => Some(Rs2Format::Disparity32),
            20 => Some(Rs2Format::Y10BPack),
            21 => Some(Rs2Format::Distance),
            22 => Some(Rs2Format::Mjpeg),
            23 => Some(Rs2Format::Y8I),
            24 => Some(Rs2Format::Y12I),
            25 => Some(Rs2Format::Inf),
            26 => Some(Rs2Format::Fg),
            _ => None,
        }
    }
}

/// The format table is a bijection on `0..FORMAT_COUNT`.
pub proof fn lemma_format_codes_complete()
    ensures
        forall|i: i32|
            0 <= i < FORMAT_COUNT ==> {
                &&& #[trigger] Rs2Format::spec_from_i32(i) is Some
                &&& Rs2Format::spec_from_i32(i)->Some_0.code() == i
            },
        forall|f: Rs2Format| Rs2Format::spec_from_i32(#[trigger] f.code()) == Some(f),
{
}

} // verus!
