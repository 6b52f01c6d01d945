//! Image frames: depth, disparity, color, infrared, fisheye, confidence.

use crate::base::F32Bits;
use crate::base::F64Bits;
use crate::error::Error;
use crate::frame::pixel::format_supported;
use crate::frame::pixel::get_pixel;
use crate::frame::pixel::spec_bytes_per_pixel;
use crate::frame::pixel::spec_pixel_at;
use crate::frame::pixel::PixelFormat;
use crate::frame::CouldNotGetFrameSensorError;
use crate::frame::DepthError;
use crate::frame::DisparityError;
use crate::frame::FrameConstructionError;
use crate::handle::HandleGuard;
use crate::handle::NativeHandle;
use crate::kind::Rs2Exception;
use crate::kind::Rs2Extension;
use crate::kind::Rs2Format;
use crate::kind::Rs2FrameMetadata;
use crate::kind::Rs2Option;
use crate::kind::Rs2StreamKind;
use crate::kind::Rs2TimestampDomain;
use crate::native::find_metadata;
use crate::native::spec_get_option;
use crate::native::spec_metadata;
use crate::native::spec_supports_metadata;
use crate::native::ImageFrameReply;
use crate::native::MetadataEntry;
use crate::native::SensorItem;
use crate::sensor::Sensor;
use crate::stream_profile::StreamConstructionError;
use crate::stream_profile::StreamProfile;
use core::marker::PhantomData;
use vstd::prelude::*;

verus! {

/// The marker of a depth frame.
#[derive(Debug)]
pub struct Depth;

/// The marker of a disparity frame.
#[derive(Debug)]
pub struct Disparity;

/// The marker of a color frame.
#[derive(Debug)]
pub struct Color;

/// The marker of an infrared frame.
#[derive(Debug)]
pub struct Infrared;

/// The marker of a fisheye frame.
#[derive(Debug)]
pub struct Fisheye;

/// The marker of a confidence frame.
#[derive(Debug)]
pub struct Confidence;

/// The error the fixed-order construction pass stops at, if any: the first
/// failing query, tagged with the field that could not be obtained.
pub open spec fn spec_image_failure(reply: ImageFrameReply) -> Option<FrameConstructionError> {
    match reply.width {
        Err(e) => Some(FrameConstructionError::CouldNotGetWidth(e.exception, e.message)),
        Ok(_) => match reply.height {
            Err(e) => Some(FrameConstructionError::CouldNotGetHeight(e.exception, e.message)),
            Ok(_) => match reply.bits_per_pixel {
                Err(e) => Some(
                    FrameConstructionError::CouldNotGetBitsPerPixel(e.exception, e.message),
                ),
                Ok(_) => match reply.stride {
                    Err(e) => Some(
                        FrameConstructionError::CouldNotGetStride(e.exception, e.message),
                    ),
                    Ok(_) => match reply.timestamp {
                        Err(e) => Some(
                            FrameConstructionError::CouldNotGetTimestamp(e.exception, e.message),
                        ),
                        Ok(_) => match reply.timestamp_domain {
                            Err(e) => Some(
                                FrameConstructionError::CouldNotGetTimestampDomain(
                                    e.exception,
                                    e.message,
                                ),
                            ),
                            Ok(_) => match reply.frame_number {
                                Err(e) => Some(
                                    FrameConstructionError::CouldNotGetFrameNumber(
                                        e.exception,
                                        e.message,
                                    ),
                                ),
                                Ok(_) => match reply.profile {
                                    Err(e) => Some(
                                        FrameConstructionError::CouldNotGetFrameStreamProfile(
                                            e.exception,
                                            e.message,
                                        ),
                                    ),
                                    Ok(rec) => match rec.data {
                                        Err(e) => Some(
                                            FrameConstructionError::CouldNotGetFrameStreamProfile(
                                                e.exception,
                                                e.message,
                                            ),
                                        ),
                                        Ok(_) => match reply.data_size {
                                            Err(e) => Some(
                                                FrameConstructionError::CouldNotGetDataSize(
                                                    e.exception,
                                                    e.message,
                                                ),
                                            ),
                                            Ok(_) => match reply.data {
                                                Err(e) => Some(
                                                    FrameConstructionError::CouldNotGetData(
                                                        e.exception,
                                                        e.message,
                                                    ),
                                                ),
                                                Ok(_) => None,
                                            },
                                        },
                                    },
                                },
                            },
                        },
                    },
                },
            },
        },
    }
}

/// An image frame of one category, holding its handle, all derived
/// metadata, and the pixel buffer. Every field is populated at
/// construction; no partially initialized frame exists.
pub struct ImageFrame<Kind> {
    guard: HandleGuard,
    width: usize,
    height: usize,
    stride: usize,
    bits_per_pixel: usize,
    timestamp: F64Bits,
    timestamp_domain: Rs2TimestampDomain,
    frame_number: u64,
    frame_stream_profile: StreamProfile,
    data_size_in_bytes: usize,
    data: Vec<u8>,
    metadata: Vec<MetadataEntry>,
    phantom: PhantomData<Kind>,
}

/// An image frame carrying depth data.
pub type DepthFrame = ImageFrame<Depth>;

/// An image frame carrying disparity data.
pub type DisparityFrame = ImageFrame<Disparity>;

/// An image frame carrying color data.
pub type ColorFrame = ImageFrame<Color>;

/// An image frame carrying infrared data.
pub type InfraredFrame = ImageFrame<Infrared>;

/// An image frame carrying fisheye imager data.
pub type FisheyeFrame = ImageFrame<Fisheye>;

/// An image frame carrying per-pixel confidence data.
pub type ConfidenceFrame = ImageFrame<Confidence>;

impl<K> ImageFrame<K> {
    /// The frame's handle.
    pub closed spec fn spec_handle(&self) -> NativeHandle {
        self.guard.spec_handle()
    }

    /// Whether this frame still releases its handle at the end of its
    /// life; true from construction until an ownership transfer.
    pub closed spec fn spec_owned(&self) -> bool {
        self.guard.spec_owned()
    }

    /// The frame's guard, for stating the release discipline.
    pub closed spec fn spec_guard(&self) -> HandleGuard {
        self.guard
    }

    /// The width in pixels.
    pub closed spec fn spec_width(&self) -> usize {
        self.width
    }

    /// The height in pixels.
    pub closed spec fn spec_height(&self) -> usize {
        self.height
    }

    /// The row stride in bytes.
    pub closed spec fn spec_stride(&self) -> usize {
        self.stride
    }

    /// The bits per pixel.
    pub closed spec fn spec_bits_per_pixel(&self) -> usize {
        self.bits_per_pixel
    }

    /// The capture timestamp's bit pattern.
    pub closed spec fn spec_timestamp(&self) -> F64Bits {
        self.timestamp
    }

    /// The clock the timestamp is expressed in.
    pub closed spec fn spec_timestamp_domain(&self) -> Rs2TimestampDomain {
        self.timestamp_domain
    }

    /// The per-stream frame number.
    pub closed spec fn spec_frame_number(&self) -> u64 {
        self.frame_number
    }

    /// The stream profile that produced the frame.
    pub closed spec fn spec_profile(&self) -> StreamProfile {
        self.frame_stream_profile
    }

    /// The size of the pixel buffer in bytes.
    pub closed spec fn spec_data_size(&self) -> usize {
        self.data_size_in_bytes
    }

    /// The pixel buffer.
    pub closed spec fn spec_data(&self) -> Seq<u8> {
        self.data@
    }

    /// The frame's metadata table.
    pub closed spec fn spec_metadata(&self) -> Seq<MetadataEntry> {
        self.metadata@
    }

    /// The internal consistency every constructed frame has: the buffer is
    /// exactly as large as the reported size, which is height times stride,
    /// with stride spanning a whole row of pixels.
    pub open spec fn wf(&self) -> bool {
        &&& self.spec_guard().wf()
        &&& self.spec_handle() == self.spec_guard().spec_handle()
        &&& self.spec_bits_per_pixel() % 8 == 0
        &&& self.spec_stride() as int == self.spec_width() as int * (
        self.spec_bits_per_pixel() as int / 8)
        &&& self.spec_data_size() as int == self.spec_height() as int * self.spec_stride() as int
        &&& self.spec_data().len() == self.spec_data_size()
        &&& self.spec_profile().wf()
    }

    /// Build a frame from a construction pass over `handle`.
    ///
    /// The per-field query results are consumed in the fixed query order
    /// and the first failure aborts the whole construction with the
    /// matching field tag: either every field of the frame is populated, or
    /// no frame exists at all. A constructed frame owns its handle.
    pub fn try_create(handle: NativeHandle, reply: ImageFrameReply) -> (r: Result<
        ImageFrame<K>,
        FrameConstructionError,
    >)
        requires
            handle.wf(),
            reply.wf(),
        ensures
            match r {
                Ok(f) => {
                    &&& spec_image_failure(reply) is None
                    &&& f.wf()
                    &&& f.spec_owned()
                    &&& f.spec_handle() == handle
                    &&& f.spec_width() as int == reply.width->Ok_0 as int
                    &&& f.spec_height() as int == reply.height->Ok_0 as int
                    &&& f.spec_bits_per_pixel() as int == reply.bits_per_pixel->Ok_0 as int
                    &&& f.spec_stride() as int == reply.stride->Ok_0 as int
                    &&& f.spec_timestamp() == reply.timestamp->Ok_0
                    &&& Some(f.spec_timestamp_domain()) == Rs2TimestampDomain::spec_from_i32(
                        reply.timestamp_domain->Ok_0,
                    )
                    &&& f.spec_frame_number() == reply.frame_number->Ok_0
                    &&& f.spec_profile().spec_handle() == reply.profile->Ok_0.handle
                    &&& Some(f.spec_profile().spec_kind()) == Rs2StreamKind::spec_from_i32(
                        reply.profile->Ok_0.data->Ok_0.stream,
                    )
                    &&& Some(f.spec_profile().spec_format()) == Rs2Format::spec_from_i32(
                        reply.profile->Ok_0.data->Ok_0.format,
                    )
                    &&& f.spec_data_size() as int == reply.data_size->Ok_0 as int
                    &&& f.spec_data() == reply.data->Ok_0@
                    &&& f.spec_metadata() == reply.metadata@
                },
                Err(e) => spec_image_failure(reply) == Some(e),
            },
    {
        let ImageFrameReply {
            width,
            height,
            bits_per_pixel,
            stride,
            timestamp,
            timestamp_domain,
            frame_number,
            profile,
            data_size,
            data,
            metadata,
        } = reply;
        let w = match width {
            Ok(v) => v,
            Err(e) => {
                return Err(FrameConstructionError::CouldNotGetWidth(e.exception, e.message));
            },
        };
        let h = match height {
            Ok(v) => v,
            Err(e) => {
                return Err(FrameConstructionError::CouldNotGetHeight(e.exception, e.message));
            },
        };
        let bpp = match bits_per_pixel {
            Ok(v) => v,
            Err(e) => {
                return Err(
                    FrameConstructionError::CouldNotGetBitsPerPixel(e.exception, e.message),
                );
            },
        };
        let stride_bytes = match stride {
            Ok(v) => v,
            Err(e) => {
                return Err(FrameConstructionError::CouldNotGetStride(e.exception, e.message));
            },
        };
        let ts = match timestamp {
            Ok(v) => v,
            Err(e) => {
                return Err(FrameConstructionError::CouldNotGetTimestamp(e.exception, e.message));
            },
        };
        let domain_code = match timestamp_domain {
            Ok(v) => v,
            Err(e) => {
                return Err(
                    FrameConstructionError::CouldNotGetTimestampDomain(e.exception, e.message),
                );
            },
        };
        let number = match frame_number {
            Ok(v) => v,
            Err(e) => {
                return Err(
                    FrameConstructionError::CouldNotGetFrameNumber(e.exception, e.message),
                );
            },
        };
        let profile_record = match profile {
            Ok(rec) => rec,
            Err(e) => {
                return Err(
                    FrameConstructionError::CouldNotGetFrameStreamProfile(e.exception, e.message),
                );
            },
        };
        let frame_stream_profile = match StreamProfile::try_create(profile_record) {
            Ok(p) => p,
            Err(StreamConstructionError::CouldNotRetrieveStreamData(exception, message)) => {
                return Err(
                    FrameConstructionError::CouldNotGetFrameStreamProfile(exception, message),
                );
            },
        };
        let size = match data_size {
            Ok(v) => v,
            Err(e) => {
                return Err(FrameConstructionError::CouldNotGetDataSize(e.exception, e.message));
            },
        };
        let bytes = match data {
            Ok(v) => v,
            Err(e) => {
                return Err(FrameConstructionError::CouldNotGetData(e.exception, e.message));
            },
        };
        let timestamp_domain = Rs2TimestampDomain::from_i32(domain_code).unwrap();
        Ok(
            ImageFrame {
                guard: HandleGuard::own(handle),
                width: w as usize,
                height: h as usize,
                stride: stride_bytes as usize,
                bits_per_pixel: bpp as usize,
                timestamp: ts,
                timestamp_domain,
                frame_number: number,
                frame_stream_profile,
                data_size_in_bytes: size as usize,
                data: bytes,
                metadata,
                phantom: PhantomData,
            },
        )
    }

    /// The width in pixels.
    pub fn width(&self) -> (r: usize)
        ensures
            r == self.spec_width(),
    {
        self.width
    }

    /// The height in pixels.
    pub fn height(&self) -> (r: usize)
        ensures
            r == self.spec_height(),
    {
        self.height
    }

    /// The row stride in bytes.
    pub fn stride(&self) -> (r: usize)
        ensures
            r == self.spec_stride(),
    {
        self.stride
    }

    /// The bits per pixel.
    pub fn bits_per_pixel(&self) -> (r: usize)
        ensures
            r == self.spec_bits_per_pixel(),
    {
        self.bits_per_pixel
    }

    /// The size of the pixel buffer in bytes.
    pub fn get_data_size(&self) -> (r: usize)
        ensures
            r == self.spec_data_size(),
    {
        self.data_size_in_bytes
    }

    /// The raw pixel buffer.
    pub fn get_data(&self) -> (r: &Vec<u8>)
        ensures
            r@ == self.spec_data(),
    {
        &self.data
    }

    /// The capture timestamp, as an IEEE-754 double-precision bit pattern.
    pub fn timestamp(&self) -> (r: F64Bits)
        ensures
            r == self.spec_timestamp(),
    {
        self.timestamp
    }

    /// The clock the capture timestamp is expressed in.
    pub fn timestamp_domain(&self) -> (r: Rs2TimestampDomain)
        ensures
            r == self.spec_timestamp_domain(),
    {
        self.timestamp_domain
    }

    /// The monotonically increasing per-stream frame number.
    pub fn frame_number(&self) -> (r: u64)
        ensures
            r == self.spec_frame_number(),
    {
        self.frame_number
    }

    /// The stream profile that produced this frame.
    pub fn stream_profile(&self) -> (r: &StreamProfile)
        ensures
            *r == self.spec_profile(),
    {
        &self.frame_stream_profile
    }

    /// The frame's originating sensor, from the answer of the fresh native
    /// query; the sensor is borrowed, since its handle belongs to the
    /// frame and device graph.
    pub fn sensor(&self, reply: Result<SensorItem, Error>) -> (r: Result<
        Sensor,
        CouldNotGetFrameSensorError,
    >)
        requires
            reply matches Ok(it) ==> it.wf(),
        ensures
            match r {
                Ok(s) => {
                    &&& reply matches Ok(it)
                    &&& s.wf()
                    &&& !s.spec_owned()
                    &&& s.spec_handle() == it.handle
                    &&& s.spec_record() == it.record
                },
                Err(e) => {
                    &&& reply matches Err(ne)
                    &&& e == CouldNotGetFrameSensorError(ne.exception, ne.message)
                },
            },
    {
        match reply {
            Ok(it) => Ok(Sensor::from_item(it)),
            Err(e) => Err(CouldNotGetFrameSensorError(e.exception, e.message)),
        }
    }

    /// The frame's value for the metadata key, or `None` where the key is
    /// unsupported or the native read failed. Metadata queries are
    /// advisory and never an error.
    pub fn metadata(&self, metadata_kind: Rs2FrameMetadata) -> (r: Option<i64>)
        ensures
            r == spec_metadata(self.spec_metadata(), metadata_kind),
    {
        match find_metadata(&self.metadata, metadata_kind) {
            Some(i) => match &self.metadata[i].value {
                Ok(v) => Some(*v),
                Err(_) => None,
            },
            None => None,
        }
    }

    /// Whether the frame has a value for the metadata key.
    pub fn supports_metadata(&self, metadata_kind: Rs2FrameMetadata) -> (r: bool)
        ensures
            r == spec_supports_metadata(self.spec_metadata(), metadata_kind),
    {
        find_metadata(&self.metadata, metadata_kind).is_some()
    }

    /// Take the bare handle out for a downstream consumer that manages its
    /// own lifetime. The transfer clears the frame's release duty before
    /// the frame is taken apart, so no native release is due from it.
    pub fn get_owned_raw(self) -> (r: NativeHandle)
        requires
            self.wf(),
        ensures
            r == self.spec_handle(),
    {
        let ImageFrame { guard, .. } = self;
        let mut guard = guard;
        let handle = guard.transfer_out();
        let released = guard.into_release();
        proof {
            assert(released is None);
        }
        handle
    }

    /// End the frame's life: returns the handle the embedder must release
    /// natively, unless ownership was transferred out first.
    pub fn dispose(self) -> (r: Option<NativeHandle>)
        requires
            self.wf(),
        ensures
            self.spec_owned() ==> r == Some(self.spec_handle()),
            !self.spec_owned() ==> r is None,
    {
        let ImageFrame { guard, .. } = self;
        guard.into_release()
    }

    /// Whether this frame's buffer can be decoded pixel by pixel: the
    /// format is one the decoder understands and matches the reported
    /// pixel width.
    pub open spec fn decodable(&self) -> bool {
        &&& format_supported(self.spec_profile().spec_format())
        &&& 8 * spec_bytes_per_pixel(self.spec_profile().spec_format())
            == self.spec_bits_per_pixel() as int
    }

    /// The pixel at `(col, row)`, without a bounds check: the caller must
    /// stay inside the frame.
    pub fn get_unchecked(&self, col: usize, row: usize) -> (r: PixelFormat)
        requires
            self.wf(),
            self.decodable(),
            col < self.spec_width(),
            row < self.spec_height(),
        ensures
            r == spec_pixel_at(
                self.spec_profile().spec_format(),
                self.spec_data(),
                self.spec_stride() as int,
                col as int,
                row as int,
            ),
    {
        proof {
            lemma_pixel_in_bounds(self, col as int, row as int);
        }
        get_pixel(self.frame_stream_profile.format(), &self.data, self.stride, col, row)
    }

    /// The pixel at `(col, row)`, or `None` where the position lies
    /// outside the frame.
    pub fn get(&self, col: usize, row: usize) -> (r: Option<PixelFormat>)
        requires
            self.wf(),
            self.decodable(),
        ensures
            (col >= self.spec_width() || row >= self.spec_height()) ==> r is None,
            (col < self.spec_width() && row < self.spec_height()) ==> r == Some(
                spec_pixel_at(
                    self.spec_profile().spec_format(),
                    self.spec_data(),
                    self.spec_stride() as int,
                    col as int,
                    row as int,
                ),
            ),
    {
        if col >= self.width || row >= self.height {
            None
        } else {
            Some(self.get_unchecked(col, row))
        }
    }

    /// A row-major iterator over every pixel of the frame.
    pub fn iter<'a>(&'a self) -> (r: Iter<'a, K>)
        ensures
            r.spec_frame() == *self,
            r.spec_column() == 0,
            r.spec_row() == 0,
    {
        Iter { frame: self, column: 0, row: 0 }
    }
}

/// Every constructed image frame's buffer size equals
/// `width * height * bits_per_pixel / 8`: construction is atomic, and no
/// frame with inconsistent geometry exists.
pub proof fn lemma_image_frame_consistent<K>(f: &ImageFrame<K>)
    requires
        f.wf(),
    ensures
        f.spec_data_size() as int == f.spec_width() as int * f.spec_height() as int * (
        f.spec_bits_per_pixel() as int / 8),
        f.spec_data().len() == f.spec_data_size(),
{
    let w = f.spec_width() as int;
    let h = f.spec_height() as int;
    let b = f.spec_bits_per_pixel() as int / 8;
    assert(h * (w * b) == w * h * b) by (nonlinear_arith);
}

/// A pixel position inside the frame reads inside the buffer.
proof fn lemma_pixel_in_bounds<K>(f: &ImageFrame<K>, col: int, row: int)
    requires
        f.wf(),
        f.decodable(),
        0 <= col < f.spec_width(),
        0 <= row < f.spec_height(),
    ensures
        row * (f.spec_stride() as int) + (col + 1) * spec_bytes_per_pixel(
            f.spec_profile().spec_format(),
        ) <= f.spec_data().len(),
{
    let stride = f.spec_stride() as int;
    let b = spec_bytes_per_pixel(f.spec_profile().spec_format());
    let w = f.spec_width() as int;
    let h = f.spec_height() as int;
    assert((col + 1) * b <= w * b) by (nonlinear_arith)
        requires
            col + 1 <= w,
            b >= 0,
    ;
    assert(8 * b == f.spec_bits_per_pixel() as int);
    assert(stride == w * (f.spec_bits_per_pixel() as int / 8));
    assert(w * (f.spec_bits_per_pixel() as int / 8) == w * b);
    assert(row * stride + stride <= h * stride) by (nonlinear_arith)
        requires
            row + 1 <= h,
            stride >= 0,
    ;
}

impl ImageFrame<Depth> {
    /// The extension tag a depth frame identifies itself by.
    pub fn extension() -> (r: Rs2Extension)
        ensures
            r == Rs2Extension::DepthFrame,
    {
        Rs2Extension::DepthFrame
    }

    /// The stream kind a depth frame belongs to.
    pub fn kind() -> (r: Rs2StreamKind)
        ensures
            r == Rs2StreamKind::Depth,
    {
        Rs2StreamKind::Depth
    }

    /// Whether this frame's profile reports the kind the category expects.
    pub fn has_correct_kind(&self) -> (r: bool)
        ensures
            r == (self.spec_profile().spec_kind() == Rs2StreamKind::Depth),
    {
        self.frame_stream_profile.kind() == Rs2StreamKind::Depth
    }

    /// The metric depth at `(col, row)`, from the answer of the native
    /// per-pixel conversion call, as an IEEE-754 bit pattern.
    ///
    /// Each call converts one pixel natively and is expensive; reading the
    /// depth-units option once and applying it to the raw buffer is the
    /// economical path.
    pub fn distance(&self, col: usize, row: usize, reply: Result<F32Bits, Error>) -> (r: Result<
        F32Bits,
        DepthError,
    >)
        ensures
            match reply {
                Ok(v) => r == Result::<F32Bits, DepthError>::Ok(v),
                Err(ne) => r == Result::<F32Bits, DepthError>::Err(
                    DepthError::CouldNotGetDistance(ne.exception, ne.message),
                ),
            },
    {
        let _ = (col, row);
        match reply {
            Ok(v) => Ok(v),
            Err(e) => Err(DepthError::CouldNotGetDistance(e.exception, e.message)),
        }
    }

    /// The number of metres one depth unit stands for, read from the
    /// frame's originating sensor (queried fresh, from `sensor_reply`).
    ///
    /// Fails where the sensor query failed, or — with the
    /// [`Rs2Exception::Unknown`] category — where the sensor does not
    /// support the depth-units option.
    pub fn depth_units(&self, sensor_reply: Result<SensorItem, Error>) -> (r: Result<
        F32Bits,
        Error,
    >)
        requires
            sensor_reply matches Ok(it) ==> it.wf(),
        ensures
            match sensor_reply {
                Ok(it) => match spec_get_option(it.record.options@, Rs2Option::DepthUnits) {
                    Some(v) => r == Result::<F32Bits, Error>::Ok(v),
                    None => r matches Err(e) && e.exception == Rs2Exception::Unknown,
                },
                Err(ne) => r == Result::<F32Bits, Error>::Err(ne),
            },
    {
        depth_units_of(sensor_reply)
    }
}

impl ImageFrame<Disparity> {
    /// The extension tag a disparity frame identifies itself by.
    pub fn extension() -> (r: Rs2Extension)
        ensures
            r == Rs2Extension::DisparityFrame,
    {
        Rs2Extension::DisparityFrame
    }

    /// The stream kind a disparity frame belongs to: disparity streams
    /// carry no dedicated kind of their own.
    pub fn kind() -> (r: Rs2StreamKind)
        ensures
            r == Rs2StreamKind::Any,
    {
        Rs2StreamKind::Any
    }

    /// Whether this frame's profile reports the kind the category expects.
    pub fn has_correct_kind(&self) -> (r: bool)
        ensures
            r == (self.spec_profile().spec_kind() == Rs2StreamKind::Any),
    {
        self.frame_stream_profile.kind() == Rs2StreamKind::Any
    }

    /// The metric depth at `(col, row)`, from the answer of the native
    /// per-pixel conversion call, as an IEEE-754 bit pattern. As with
    /// depth frames, the bulk path through the raw buffer is cheaper.
    pub fn distance(&self, col: usize, row: usize, reply: Result<F32Bits, Error>) -> (r: Result<
        F32Bits,
        DepthError,
    >)
        ensures
            match reply {
                Ok(v) => r == Result::<F32Bits, DepthError>::Ok(v),
                Err(ne) => r == Result::<F32Bits, DepthError>::Err(
                    DepthError::CouldNotGetDistance(ne.exception, ne.message),
                ),
            },
    {
        let _ = (col, row);
        match reply {
            Ok(v) => Ok(v),
            Err(e) => Err(DepthError::CouldNotGetDistance(e.exception, e.message)),
        }
    }

    /// The number of metres one depth unit stands for, read from the
    /// frame's originating sensor (queried fresh, from `sensor_reply`).
    pub fn depth_units(&self, sensor_reply: Result<SensorItem, Error>) -> (r: Result<
        F32Bits,
        Error,
    >)
        requires
            sensor_reply matches Ok(it) ==> it.wf(),
        ensures
            match sensor_reply {
                Ok(it) => match spec_get_option(it.record.options@, Rs2Option::DepthUnits) {
                    Some(v) => r == Result::<F32Bits, Error>::Ok(v),
                    None => r matches Err(e) && e.exception == Rs2Exception::Unknown,
                },
                Err(ne) => r == Result::<F32Bits, Error>::Err(ne),
            },
    {
        depth_units_of(sensor_reply)
    }

    /// The stereo baseline used when this disparity frame was built, from
    /// the answer of the native call, as an IEEE-754 bit pattern.
    pub fn baseline(&self, reply: Result<F32Bits, Error>) -> (r: Result<F32Bits, DisparityError>)
        ensures
            match reply {
                Ok(v) => r == Result::<F32Bits, DisparityError>::Ok(v),
                Err(ne) => r == Result::<F32Bits, DisparityError>::Err(
                    DisparityError(ne.exception, ne.message),
                ),
            },
    {
        match reply {
            Ok(v) => Ok(v),
            Err(e) => Err(DisparityError(e.exception, e.message)),
        }
    }
}

impl ImageFrame<Color> {
    /// The extension tag a color frame identifies itself by.
    pub fn extension() -> (r: Rs2Extension)
        ensures
            r == Rs2Extension::VideoFrame,
    {
        Rs2Extension::VideoFrame
    }

    /// The stream kind a color frame belongs to.
    pub fn kind() -> (r: Rs2StreamKind)
        ensures
            r == Rs2StreamKind::Color,
    {
        Rs2StreamKind::Color
    }

    /// Whether this frame's profile reports the kind the category expects.
    pub fn has_correct_kind(&self) -> (r: bool)
        ensures
            r == (self.spec_profile().spec_kind() == Rs2StreamKind::Color),
    {
        self.frame_stream_profile.kind() == Rs2StreamKind::Color
    }
}

impl ImageFrame<Infrared> {
    /// The extension tag an infrared frame identifies itself by.
    pub fn extension() -> (r: Rs2Extension)
        ensures
            r == Rs2Extension::VideoFrame,
    {
        Rs2Extension::VideoFrame
    }

    /// The stream kind an infrared frame belongs to.
    pub fn kind() -> (r: Rs2StreamKind)
        ensures
            r == Rs2StreamKind::Infrared,
    {
        Rs2StreamKind::Infrared
    }

    /// Whether this frame's profile reports the kind the category expects.
    pub fn has_correct_kind(&self) -> (r: bool)
        ensures
            r == (self.spec_profile().spec_kind() == Rs2StreamKind::Infrared),
    {
        self.frame_stream_profile.kind() == Rs2StreamKind::Infrared
    }
}

impl ImageFrame<Fisheye> {
    /// The extension tag a fisheye frame identifies itself by.
    pub fn extension() -> (r: Rs2Extension)
        ensures
            r == Rs2Extension::VideoFrame,
    {
        Rs2Extension::VideoFrame
    }

    /// The stream kind a fisheye frame belongs to.
    pub fn kind() -> (r: Rs2StreamKind)
        ensures
            r == Rs2StreamKind::Fisheye,
    {
        Rs2StreamKind::Fisheye
    }

    /// Whether this frame's profile reports the kind the category expects.
    pub fn has_correct_kind(&self) -> (r: bool)
        ensures
            r == (self.spec_profile().spec_kind() == Rs2StreamKind::Fisheye),
    {
        self.frame_stream_profile.kind() == Rs2StreamKind::Fisheye
    }
}

impl ImageFrame<Confidence> {
    /// The extension tag a confidence frame identifies itself by.
    pub fn extension() -> (r: Rs2Extension)
        ensures
            r == Rs2Extension::VideoFrame,
    {
        Rs2Extension::VideoFrame
    }

    /// The stream kind a confidence frame belongs to.
    pub fn kind() -> (r: Rs2StreamKind)
        ensures
            r == Rs2StreamKind::Confidence,
    {
        Rs2StreamKind::Confidence
    }

    /// Whether this frame's profile reports the kind the category expects.
    pub fn has_correct_kind(&self) -> (r: bool)
        ensures
            r == (self.spec_profile().spec_kind() == Rs2StreamKind::Confidence),
    {
        self.frame_stream_profile.kind() == Rs2StreamKind::Confidence
    }
}

/// Read the depth-units option out of a freshly queried originating
/// sensor: the sensor query error passes through, a missing option is an
/// [`Rs2Exception::Unknown`] failure.
fn depth_units_of(sensor_reply: Result<SensorItem, Error>) -> (r: Result<F32Bits, Error>)
    requires
        sensor_reply matches Ok(it) ==> it.wf(),
    ensures
        match sensor_reply {
            Ok(it) => match spec_get_option(it.record.options@, Rs2Option::DepthUnits) {
                Some(v) => r == Result::<F32Bits, Error>::Ok(v),
                None => r matches Err(e) && e.exception == Rs2Exception::Unknown,
            },
            Err(ne) => r == Result::<F32Bits, Error>::Err(ne),
        },
{
    match sensor_reply {
        Ok(it) => {
            let sensor = Sensor::from_item(it);
            match sensor.get_option(Rs2Option::DepthUnits) {
                Some(v) => Ok(v),
                None => Err(
                    Error::new(
                        Rs2Exception::Unknown,
                        String::from_str("Option is not supported on the sensor for this frame type."),
                    ),
                ),
            }
        },
        Err(e) => Err(e),
    }
}

/// A row-major pixel iterator over an image frame.
pub struct Iter<'a, K> {
    frame: &'a ImageFrame<K>,
    column: usize,
    row: usize,
}

impl<'a, K> Iter<'a, K> {
    /// The frame being iterated.
    pub closed spec fn spec_frame(&self) -> ImageFrame<K> {
        *self.frame
    }

    /// The column the next pixel is read from.
    pub closed spec fn spec_column(&self) -> usize {
        self.column
    }

    /// The row the next pixel is read from.
    pub closed spec fn spec_row(&self) -> usize {
        self.row
    }

    /// The next pixel in row-major order, or `None` once the frame is
    /// exhausted.
    pub fn next(&mut self) -> (r: Option<PixelFormat>)
        requires
            old(self).spec_frame().wf(),
            old(self).spec_frame().decodable(),
        ensures
            final(self).spec_frame() == old(self).spec_frame(),
            (old(self).spec_column() >= old(self).spec_frame().spec_width() || old(
                self,
            ).spec_row() >= old(self).spec_frame().spec_height()) ==> {
                &&& r is None
                &&& final(self).spec_column() == old(self).spec_column()
                &&& final(self).spec_row() == old(self).spec_row()
            },
            (old(self).spec_column() < old(self).spec_frame().spec_width() && old(self).spec_row()
                < old(self).spec_frame().spec_height()) ==> {
                &&& r == Some(
                    spec_pixel_at(
                        old(self).spec_frame().spec_profile().spec_format(),
                        old(self).spec_frame().spec_data(),
                        old(self).spec_frame().spec_stride() as int,
                        old(self).spec_column() as int,
                        old(self).spec_row() as int,
                    ),
                )
                &&& (old(self).spec_column() + 1 < old(self).spec_frame().spec_width()) ==> {
                    &&& final(self).spec_column() == old(self).spec_column() + 1
                    &&& final(self).spec_row() == old(self).spec_row()
                }
                &&& (old(self).spec_column() + 1 >= old(self).spec_frame().spec_width()) ==> {
                    &&& final(self).spec_column() == 0
                    &&& final(self).spec_row() == old(self).spec_row() + 1
                }
            },
    {
        if self.column >= self.frame.width() || self.row >= self.frame.height() {
            return None;
        }
        let next = self.frame.get_unchecked(self.column, self.row);
        self.column += 1;
        if self.column >= self.frame.width() {
            self.column = 0;
            self.row += 1;
        }
        Some(next)
    }
}

} // verus!
