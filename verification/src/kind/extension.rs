//! The extension tags this layer itself queries.
//!
//! The native library's extension table is much larger; this enum covers the
//! closed allowlist of sensor extensions that [`crate::sensor::Sensor`] probes
//! plus the frame extensions the frame family identifies itself by. Codes are
//! the native table's; they are sparse because the table is shared with many
//! other object kinds.

use vstd::prelude::*;

verus! {

/// An extension tag: a capability a native object can report itself
/// extendable to.
#[derive(Clone, Copy, Debug, PartialEq, Eq, Hash, Structural)]
pub enum Rs2Extension {
    /// A sensor that produces depth data.
    DepthSensor,
    /// A video frame.
    VideoFrame,
    /// A point-cloud frame.
    Points,
    /// A depth frame.
    DepthFrame,
    /// A stereo sensor that produces depth data.
    DepthStereoSensor,
    /// A disparity frame.
    DisparityFrame,
    /// A software-defined (synthetic) sensor.
    SoftwareSensor,
    /// A sensor that produces pose data.
    PoseSensor,
    /// The depth sensor of an L500-series device.
    L500DepthSensor,
    /// A tracking-module sensor.
    Tm2Sensor,
    /// A sensor carrying calibration data.
    CalibratedSensor,
    /// A sensor that produces color data.
    ColorSensor,
    /// A sensor that produces motion data.
    MotionSensor,
    /// A wide-angle fisheye sensor.
    FisheyeSensor,
    /// A sensor that can report its maximum usable range.
    MaxUsableRangeSensor,
    /// A sensor exposing debug streams.
    DebugStreamSensor,
}

impl Rs2Extension {
    /// The native integer code of this variant.
    pub open spec fn code(self) -> i32 {
        match self {
            Rs2Extension::DepthSensor => 7,
            Rs2Extension::VideoFrame => 8,
            Rs2Extension::Points => 11,
            Rs2Extension::DepthFrame => 12,
            Rs2Extension::DepthStereoSensor => 17,
            Rs2Extension::DisparityFrame => 18,
            Rs2Extension::SoftwareSensor => 24,
            Rs2Extension::PoseSensor => 34,
            Rs2Extension::L500DepthSensor => 39,
            Rs2Extension::Tm2Sensor => 40,
            Rs2Extension::CalibratedSensor => 50,
            Rs2Extension::ColorSensor => 42,
            Rs2Extension::MotionSensor => 43,
            Rs2Extension::FisheyeSensor => 44,
            Rs2Extension::MaxUsableRangeSensor => 53,
            Rs2Extension::DebugStreamSensor => 54,
        }
    }

    /// Convert this variant to its native integer code.
    pub fn to_i32(self) -> (r: i32)
        ensures
            r == self.code(),
    {
        match self {
            Rs2Extension::DepthSensor => 7,
            Rs2Extension::VideoFrame => 8,
            Rs2Extension::Points => 11,
            Rs2Extension::DepthFrame => 12,
            Rs2Extension::DepthStereoSensor => 17,
            Rs2Extension::DisparityFrame => 18,
            Rs2Extension::SoftwareSensor => 24,
            Rs2Extension::PoseSensor => 34,
            Rs2Extension::L500DepthSensor => 39,
            Rs2Extension::Tm2Sensor => 40,
            Rs2Extension::CalibratedSensor => 50,
            Rs2Extension::ColorSensor => 42,
            Rs2Extension::MotionSensor => 43,
            Rs2Extension::FisheyeSensor => 44,
            Rs2Extension::MaxUsableRangeSensor => 53,
            Rs2Extension::DebugStreamSensor => 54,
        }
    }
}

/// The allowlist of sensor extensions, in the order
/// [`crate::sensor::Sensor::extension`] probes them.
pub open spec fn sensor_extension_list() -> Seq<Rs2Extension> {
    seq![
        Rs2Extension::ColorSensor,
        Rs2Extension::MotionSensor,
        Rs2Extension::FisheyeSensor,
        Rs2Extension::DepthSensor,
        Rs2Extension::DepthStereoSensor,
        Rs2Extension::SoftwareSensor,
        Rs2Extension::PoseSensor,
        Rs2Extension::L500DepthSensor,
        Rs2Extension::Tm2Sensor,
        Rs2Extension::CalibratedSensor,
        Rs2Extension::MaxUsableRangeSensor,
        Rs2Extension::DebugStreamSensor,
    ]
}

/// The allowlist of sensor extensions as a vector, in probe order.
pub fn sensor_extensions() -> (r: Vec<Rs2Extension>)
    ensures
        r@ == sensor_extension_list(),
{
    let mut r: Vec<Rs2Extension> = Vec::new();
    r.push(Rs2Extension::ColorSensor);
    r.push(Rs2Extension::MotionSensor);
    r.push(Rs2Extension::FisheyeSensor);
    r.push(Rs2Extension::DepthSensor);
    r.push(Rs2Extension::DepthStereoSensor);
    r.push(Rs2Extension::SoftwareSensor);
    r.push(Rs2Extension::PoseSensor);
    r.push(Rs2Extension::L500DepthSensor);
    r.push(Rs2Extension::Tm2Sensor);
    r.push(Rs2Extension::CalibratedSensor);
    r.push(Rs2Extension::MaxUsableRangeSensor);
    r.push(Rs2Extension::DebugStreamSensor);
    proof {
        assert(r@ =~= sensor_extension_list());
    }
    r
}

} // verus!
