//! The frame family: image frames and point-cloud frames.
//!
//! A frame wraps a frame handle, every piece of derived metadata queried up
//! front at construction, and the frame's data buffer. Construction is
//! single-shot: the per-field query results are consumed in a fixed order
//! and the first failure aborts the whole construction with a field-tagged
//! error — a partially populated frame never exists.

use crate::kind::Rs2Exception;
use vstd::prelude::*;

pub mod image;
pub mod pixel;
pub mod points;

pub use image::Color;
pub use image::ColorFrame;
pub use image::Confidence;
pub use image::ConfidenceFrame;
pub use image::Depth;
pub use image::DepthFrame;
pub use image::Disparity;
pub use image::DisparityFrame;
pub use image::Fisheye;
pub use image::FisheyeFrame;
pub use image::ImageFrame;
pub use image::Infrared;
pub use image::InfraredFrame;
pub use image::Iter;
pub use pixel::PixelFormat;
pub use points::PointsFrame;

verus! {

/// How many bits a byte holds, for the buffer-size bookkeeping of image
/// frames.
pub const BITS_PER_BYTE: usize = 8;

/// Which construction query failed, with the native exception category and
/// message. The first failing query aborts the whole construction.
#[derive(Clone, Debug)]
pub enum FrameConstructionError {
    /// The width could not be read.
    CouldNotGetWidth(Rs2Exception, String),
    /// The height could not be read.
    CouldNotGetHeight(Rs2Exception, String),
    /// The bits-per-pixel could not be read.
    CouldNotGetBitsPerPixel(Rs2Exception, String),
    /// The row stride could not be read.
    CouldNotGetStride(Rs2Exception, String),
    /// The capture timestamp could not be read.
    CouldNotGetTimestamp(Rs2Exception, String),
    /// The timestamp domain could not be read.
    CouldNotGetTimestampDomain(Rs2Exception, String),
    /// The frame number could not be read.
    CouldNotGetFrameNumber(Rs2Exception, String),
    /// The originating stream profile could not be read or constructed.
    CouldNotGetFrameStreamProfile(Rs2Exception, String),
    /// The size of the data buffer could not be read.
    CouldNotGetDataSize(Rs2Exception, String),
    /// The data buffer itself could not be read.
    CouldNotGetData(Rs2Exception, String),
    /// The number of points could not be read.
    CouldNotGetPointCount(Rs2Exception, String),
}

/// The per-pixel metric depth conversion failed; carries the native
/// exception category and message.
#[derive(Clone, Debug)]
pub enum DepthError {
    /// The native distance call failed.
    CouldNotGetDistance(Rs2Exception, String),
}

/// The stereo baseline could not be read; carries the native exception
/// category and message.
#[derive(Clone, Debug)]
pub struct DisparityError(pub Rs2Exception, pub String);

/// The frame's originating sensor could not be queried; carries the native
/// exception category and message.
#[derive(Clone, Debug)]
pub struct CouldNotGetFrameSensorError(pub Rs2Exception, pub String);

} // verus!
