//! Small shared value types.

use vstd::prelude::*;

verus! {

/// The bit pattern of an IEEE-754 single-precision value.
///
/// The SDK reports several quantities (option values, depth scales, vertex
/// and texture coordinates) as 32-bit floats. This layer never computes on
/// them, so it carries them as raw bit patterns; an embedder converts with
/// `f32::from_bits` / `f32::to_bits`.
pub type F32Bits = u32;

/// The bit pattern of an IEEE-754 double-precision value, used for frame
/// capture timestamps. See [`F32Bits`].
pub type F64Bits = u64;

/// A rectangular region of interest used to bias auto-exposure, in pixel
/// coordinates of the sensor's image.
#[derive(Clone, Copy, Debug, PartialEq, Eq, Structural)]
pub struct Rs2Roi {
    /// The left edge of the region.
    pub min_x: i32,
    /// The top edge of the region.
    pub min_y: i32,
    /// The right edge of the region.
    pub max_x: i32,
    /// The bottom edge of the region.
    pub max_y: i32,
}

} // verus!
