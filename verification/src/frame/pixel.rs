//! Decoding single pixels out of an image frame's byte buffer.

use crate::base::F32Bits;
use crate::kind::Rs2Format;
use vstd::prelude::*;

verus! {

/// One decoded pixel, owned: the channel values read out of the frame's
/// buffer at the pixel's position.
#[derive(Clone, Copy, Debug, PartialEq, Eq, Structural)]
pub enum PixelFormat {
    /// A 16-bit linear depth value.
    Z16 {
        /// The depth, in depth units.
        depth: u16,
    },
    /// A 32-bit float disparity value, as its IEEE-754 bit pattern.
    Disparity32 {
        /// The disparity bit pattern.
        disparity: F32Bits,
    },
    /// An 8-bit grayscale value.
    Y8 {
        /// The luminance.
        y: u8,
    },
    /// A 16-bit grayscale value.
    Y16 {
        /// The luminance.
        y: u16,
    },
    /// An 8-bit red, green, blue pixel.
    Rgb8 {
        /// The red channel.
        r: u8,
        /// The green channel.
        g: u8,
        /// The blue channel.
        b: u8,
    },
    /// An 8-bit blue, green, red pixel.
    Bgr8 {
        /// The blue channel.
        b: u8,
        /// The green channel.
        g: u8,
        /// The red channel.
        r: u8,
    },
    /// An 8-bit red, green, blue, alpha pixel.
    Rgba8 {
        /// The red channel.
        r: u8,
        /// The green channel.
        g: u8,
        /// The blue channel.
        b: u8,
        /// The alpha channel.
        a: u8,
    },
    /// An 8-bit blue, green, red, alpha pixel.
    Bgra8 {
        /// The blue channel.
        b: u8,
        /// The green channel.
        g: u8,
        /// The red channel.
        r: u8,
        /// The alpha channel.
        a: u8,
    },
}

/// The formats this decoder understands.
pub open spec fn format_supported(format: Rs2Format) -> bool {
    ||| format == Rs2Format::Z16
    ||| format == Rs2Format::Disparity32
    ||| format == Rs2Format::Y8
    ||| format == Rs2Format::Y16
    ||| format == Rs2Format::Rgb8
    ||| format == Rs2Format::Bgr8
    ||| format == Rs2Format::Rgba8
    ||| format == Rs2Format::Bgra8
}

/// How many bytes one pixel of a supported format occupies.
pub open spec fn spec_bytes_per_pixel(format: Rs2Format) -> int {
    match format {
        Rs2Format::Z16 => 2,
        Rs2Format::Disparity32 => 4,
        Rs2Format::Y8 => 1,
        Rs2Format::Y16 => 2,
        Rs2Format::Rgb8 => 3,
        Rs2Format::Bgr8 => 3,
        Rs2Format::Rgba8 => 4,
        Rs2Format::Bgra8 => 4,
        _ => 0,
    }
}

/// The little-endian 16-bit value at offset `o` of `data`.
pub open spec fn spec_u16_le(data: Seq<u8>, o: int) -> u16 {
    (data[o] as u16) | ((data[o + 1] as u16) << 8)
}

/// The little-endian 32-bit value at offset `o` of `data`.
pub open spec fn spec_u32_le(data: Seq<u8>, o: int) -> u32 {
    (data[o] as u32) | ((data[o + 1] as u32) << 8) | ((data[o + 2] as u32) << 16) | ((data[o
        + 3] as u32) << 24)
}

/// The pixel of a supported `format` at `(col, row)` of a buffer laid out
/// with the given row stride.
pub open spec fn spec_pixel_at(
    format: Rs2Format,
    data: Seq<u8>,
    stride: int,
    col: int,
    row: int,
) -> PixelFormat {
    let o = row * stride + col * spec_bytes_per_pixel(format);
    match format {
        Rs2Format::Z16 => PixelFormat::Z16 { depth: spec_u16_le(data, o) },
        Rs2Format::Disparity32 => PixelFormat::Disparity32 { disparity: spec_u32_le(data, o) },
        Rs2Format::Y8 => PixelFormat::Y8 { y: data[o] },
        Rs2Format::Y16 => PixelFormat::Y16 { y: spec_u16_le(data, o) },
        Rs2Format::Rgb8 => PixelFormat::Rgb8 { r: data[o], g: data[o + 1], b: data[o + 2] },
        Rs2Format::Bgr8 => PixelFormat::Bgr8 { b: data[o], g: data[o + 1], r: data[o + 2] },
        Rs2Format::Rgba8 => PixelFormat::Rgba8 {
            r: data[o],
            g: data[o + 1],
            b: data[o + 2],
            a: data[o + 3],
        },
        Rs2Format::Bgra8 => PixelFormat::Bgra8 {
            b: data[o],
            g: data[o + 1],
            r: data[o + 2],
            a: data[o + 3],
        },
        _ => PixelFormat::Y8 { y: 0 },
    }
}

/// Decode the pixel of a supported `format` at `(col, row)` of `data`,
/// read at offset `row * stride + col * bytes_per_pixel`.
pub fn get_pixel(format: Rs2Format, data: &Vec<u8>, stride: usize, col: usize, row: usize) -> (r:
    PixelFormat)
    requires
        format_supported(format),
        row * stride + (col + 1) * spec_bytes_per_pixel(format) <= data@.len(),
    ensures
        r == spec_pixel_at(format, data@, stride as int, col as int, row as int),
{
    let _n = data.len();
    let bytes: usize = match format {
        Rs2Format::Z16 => 2,
        Rs2Format::Disparity32 => 4,
        Rs2Format::Y8 => 1,
        Rs2Format::Y16 => 2,
        Rs2Format::Rgb8 => 3,
        Rs2Format::Bgr8 => 3,
        Rs2Format::Rgba8 => 4,
        Rs2Format::Bgra8 => 4,
        _ => 1,
    };
    proof {
        assert(bytes == spec_bytes_per_pixel(format));
        assert((col + 1) * (bytes as int) == col * (bytes as int) + (bytes as int))
            by (nonlinear_arith);
    }
    let o = row * stride + col * bytes;
    match format {
        Rs2Format::Z16 => PixelFormat::Z16 { depth: u16_le(data, o) },
        Rs2Format::Disparity32 => PixelFormat::Disparity32 { disparity: u32_le(data, o) },
        Rs2Format::Y8 => PixelFormat::Y8 { y: data[o] },
        Rs2Format::Y16 => PixelFormat::Y16 { y: u16_le(data, o) },
        Rs2Format::Rgb8 => PixelFormat::Rgb8 { r: data[o], g: data[o + 1], b: data[o + 2] },
        Rs2Format::Bgr8 => PixelFormat::Bgr8 { b: data[o], g: data[o + 1], r: data[o + 2] },
        Rs2Format::Rgba8 => PixelFormat::Rgba8 {
            r: data[o],
            g: data[o + 1],
            b: data[o + 2],
            a: data[o + 3],
        },
        Rs2Format::Bgra8 => PixelFormat::Bgra8 {
            b: data[o],
            g: data[o + 1],
            r: data[o + 2],
            a: data[o + 3],
        },
        _ => PixelFormat::Y8 { y: 0 },
    }
}

/// Read the little-endian 16-bit value at offset `o`.
fn u16_le(data: &Vec<u8>, o: usize) -> (r: u16)
    requires
        o + 2 <= data@.len(),
    ensures
        r == spec_u16_le(data@, o as int),
{
    let _n = data.len();
    (data[o] as u16) | ((data[o + 1] as u16) << 8)
}

/// Read the little-endian 32-bit value at offset `o`.
fn u32_le(data: &Vec<u8>, o: usize) -> (r: u32)
    requires
        o + 4 <= data@.len(),
    ensures
        r == spec_u32_le(data@, o as int),
{
    let _n = data.len();
    (data[o] as u32) | ((data[o + 1] as u32) << 8) | ((data[o + 2] as u32) << 16) | ((data[o
        + 3] as u32) << 24)
}

} // verus!
