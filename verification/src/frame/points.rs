//! The point-cloud frame.

use crate::base::F64Bits;
use crate::error::Error;
use crate::frame::CouldNotGetFrameSensorError;
use crate::frame::FrameConstructionError;
use crate::handle::HandleGuard;
use crate::handle::NativeHandle;
use crate::kind::Rs2Extension;
use crate::kind::Rs2Format;
use crate::kind::Rs2FrameMetadata;
use crate::kind::Rs2StreamKind;
use crate::kind::Rs2TimestampDomain;
use crate::native::find_metadata;
use crate::native::spec_metadata;
use crate::native::spec_supports_metadata;
use crate::native::MetadataEntry;
use crate::native::PointsFrameReply;
use crate::native::SensorItem;
use crate::native::TextureCoordinate;
use crate::native::Vertex;
use crate::sensor::Sensor;
use crate::stream_profile::StreamConstructionError;
use crate::stream_profile::StreamProfile;
use vstd::prelude::*;

verus! {

/// The error the fixed-order construction pass stops at, if any: the first
/// failing query, tagged with the field that could not be obtained.
pub open spec fn spec_points_failure(reply: PointsFrameReply) -> Option<FrameConstructionError> {
    match reply.timestamp {
        Err(e) => Some(FrameConstructionError::CouldNotGetTimestamp(e.exception, e.message)),
        Ok(_) => match reply.timestamp_domain {
            Err(e) => Some(
                FrameConstructionError::CouldNotGetTimestampDomain(e.exception, e.message),
            ),
            Ok(_) => match reply.frame_number {
                Err(e) => Some(
                    FrameConstructionError::CouldNotGetFrameNumber(e.exception, e.message),
                ),
                Ok(_) => match reply.profile {
                    Err(e) => Some(
                        FrameConstructionError::CouldNotGetFrameStreamProfile(
                            e.exception,
                            e.message,
                        ),
                    ),
                    Ok(rec) => match rec.data {
                        Err(e) => Some(
                            FrameConstructionError::CouldNotGetFrameStreamProfile(
                                e.exception,
                                e.message,
                            ),
                        ),
                        Ok(_) => match reply.points_count {
                            Err(e) => Some(
                                FrameConstructionError::CouldNotGetPointCount(
                                    e.exception,
                                    e.message,
                                ),
                            ),
                            Ok(_) => match reply.vertices {
                                Err(e) => Some(
                                    FrameConstructionError::CouldNotGetData(
                                        e.exception,
                                        e.message,
                                    ),
                                ),
                                Ok(_) => match reply.texture {
                                    Err(e) => Some(
                                        FrameConstructionError::CouldNotGetData(
                                            e.exception,
                                            e.message,
                                        ),
                                    ),
                                    Ok(_) => None,
                                },
                            },
                        },
                    },
                },
            },
        },
    }
}

/// A point-cloud frame: its handle, timing metadata, and the vertex and
/// texture-coordinate buffers, one entry of each per point.
pub struct PointsFrame {
    guard: HandleGuard,
    timestamp: F64Bits,
    timestamp_domain: Rs2TimestampDomain,
    frame_number: u64,
    frame_stream_profile: StreamProfile,
    num_points: usize,
    vertices: Vec<Vertex>,
    texture: Vec<TextureCoordinate>,
    metadata: Vec<MetadataEntry>,
}

impl PointsFrame {
    /// The frame's handle.
    pub closed spec fn spec_handle(&self) -> NativeHandle {
        self.guard.spec_handle()
    }

    /// Whether this frame still releases its handle at the end of its
    /// life; true from construction until an ownership transfer.
    pub closed spec fn spec_owned(&self) -> bool {
        self.guard.spec_owned()
    }

    /// The frame's guard, for stating the release discipline.
    pub closed spec fn spec_guard(&self) -> HandleGuard {
        self.guard
    }

    /// The capture timestamp's bit pattern.
    pub closed spec fn spec_timestamp(&self) -> F64Bits {
        self.timestamp
    }

    /// The clock the timestamp is expressed in.
    pub closed spec fn spec_timestamp_domain(&self) -> Rs2TimestampDomain {
        self.timestamp_domain
    }

    /// The per-stream frame number.
    pub closed spec fn spec_frame_number(&self) -> u64 {
        self.frame_number
    }

    /// The stream profile that produced the frame.
    pub closed spec fn spec_profile(&self) -> StreamProfile {
        self.frame_stream_profile
    }

    /// The number of points in the cloud.
    pub closed spec fn spec_points_count(&self) -> usize {
        self.num_points
    }

    /// The vertex buffer.
    pub closed spec fn spec_vertices(&self) -> Seq<Vertex> {
        self.vertices@
    }

    /// The texture-coordinate buffer.
    pub closed spec fn spec_texture(&self) -> Seq<TextureCoordinate> {
        self.texture@
    }

    /// The frame's metadata table.
    pub closed spec fn spec_metadata(&self) -> Seq<MetadataEntry> {
        self.metadata@
    }

    /// The internal consistency every constructed frame has: both buffers
    /// hold exactly one entry per counted point.
    pub open spec fn wf(&self) -> bool {
        &&& self.spec_guard().wf()
        &&& self.spec_handle() == self.spec_guard().spec_handle()
        &&& self.spec_vertices().len() == self.spec_points_count()
        &&& self.spec_texture().len() == self.spec_points_count()
        &&& self.spec_profile().wf()
    }

    /// Build a points frame from a construction pass over `handle`.
    ///
    /// The per-field query results are consumed in the fixed query order
    /// and the first failure aborts the whole construction with the
    /// matching field tag: either every field of the frame is populated, or
    /// no frame exists at all. A constructed frame owns its handle.
    pub fn try_create(handle: NativeHandle, reply: PointsFrameReply) -> (r: Result<
        PointsFrame,
        FrameConstructionError,
    >)
        requires
            handle.wf(),
            reply.wf(),
        ensures
            match r {
                Ok(f) => {
                    &&& spec_points_failure(reply) is None
                    &&& f.wf()
                    &&& f.spec_owned()
                    &&& f.spec_handle() == handle
                    &&& f.spec_timestamp() == reply.timestamp->Ok_0
                    &&& Some(f.spec_timestamp_domain()) == Rs2TimestampDomain::spec_from_i32(
                        reply.timestamp_domain->Ok_0,
                    )
                    &&& f.spec_frame_number() == reply.frame_number->Ok_0
                    &&& f.spec_profile().spec_handle() == reply.profile->Ok_0.handle
                    &&& Some(f.spec_profile().spec_kind()) == Rs2StreamKind::spec_from_i32(
                        reply.profile->Ok_0.data->Ok_0.stream,
                    )
                    &&& Some(f.spec_profile().spec_format()) == Rs2Format::spec_from_i32(
                        reply.profile->Ok_0.data->Ok_0.format,
                    )
                    &&& f.spec_points_count() as int == reply.points_count->Ok_0 as int
                    &&& f.spec_vertices() == reply.vertices->Ok_0@
                    &&& f.spec_texture() == reply.texture->Ok_0@
                    &&& f.spec_metadata() == reply.metadata@
                },
                Err(e) => spec_points_failure(reply) == Some(e),
            },
    {
        let PointsFrameReply {
            timestamp,
            timestamp_domain,
            frame_number,
            profile,
            points_count,
            vertices,
            texture,
            metadata,
        } = reply;
        let ts = match timestamp {
            Ok(v) => v,
            Err(e) => {
                return Err(FrameConstructionError::CouldNotGetTimestamp(e.exception, e.message));
            },
        };
        let domain_code = match timestamp_domain {
            Ok(v) => v,
            Err(e) => {
                return Err(
                    FrameConstructionError::CouldNotGetTimestampDomain(e.exception, e.message),
                );
            },
        };
        let number = match frame_number {
            Ok(v) => v,
            Err(e) => {
                return Err(
                    FrameConstructionError::CouldNotGetFrameNumber(e.exception, e.message),
                );
            },
        };
        let profile_record = match profile {
            Ok(rec) => rec,
            Err(e) => {
                return Err(
                    FrameConstructionError::CouldNotGetFrameStreamProfile(e.exception, e.message),
                );
            },
        };
        let frame_stream_profile = match StreamProfile::try_create(profile_record) {
            Ok(p) => p,
            Err(StreamConstructionError::CouldNotRetrieveStreamData(exception, message)) => {
                return Err(
                    FrameConstructionError::CouldNotGetFrameStreamProfile(exception, message),
                );
            },
        };
        let count = match points_count {
            Ok(v) => v,
            Err(e) => {
                return Err(
                    FrameConstructionError::CouldNotGetPointCount(e.exception, e.message),
                );
            },
        };
        let vertex_data = match vertices {
            Ok(v) => v,
            Err(e) => {
                return Err(FrameConstructionError::CouldNotGetData(e.exception, e.message));
            },
        };
        let texture_data = match texture {
            Ok(v) => v,
            Err(e) => {
                return Err(FrameConstructionError::CouldNotGetData(e.exception, e.message));
            },
        };
        let timestamp_domain = Rs2TimestampDomain::from_i32(domain_code).unwrap();
        Ok(
            PointsFrame {
                guard: HandleGuard::own(handle),
                timestamp: ts,
                timestamp_domain,
                frame_number: number,
                frame_stream_profile,
                num_points: count as usize,
                vertices: vertex_data,
                texture: texture_data,
                metadata,
            },
        )
    }

    /// The 3D vertices of the point cloud, one per point.
    pub fn vertices(&self) -> (r: &Vec<Vertex>)
        ensures
            r@ == self.spec_vertices(),
    {
        &self.vertices
    }

    /// The texture lookup coordinates of the point cloud, one per point.
    pub fn texture_coordinates(&self) -> (r: &Vec<TextureCoordinate>)
        ensures
            r@ == self.spec_texture(),
    {
        &self.texture
    }

    /// The number of points in the cloud.
    pub fn points_count(&self) -> (r: usize)
        ensures
            r == self.spec_points_count(),
    {
        self.num_points
    }

    /// The extension tag a points frame identifies itself by.
    pub fn extension() -> (r: Rs2Extension)
        ensures
            r == Rs2Extension::Points,
    {
        Rs2Extension::Points
    }

    /// The stream kind a points frame belongs to: point clouds carry no
    /// dedicated kind of their own.
    pub fn kind() -> (r: Rs2StreamKind)
        ensures
            r == Rs2StreamKind::Any,
    {
        Rs2StreamKind::Any
    }

    /// Whether this frame's profile reports the kind the category expects.
    pub fn has_correct_kind(&self) -> (r: bool)
        ensures
            r == (self.spec_profile().spec_kind() == Rs2StreamKind::Any),
    {
        self.frame_stream_profile.kind() == Rs2StreamKind::Any
    }

    /// The capture timestamp, as an IEEE-754 double-precision bit pattern.
    pub fn timestamp(&self) -> (r: F64Bits)
        ensures
            r == self.spec_timestamp(),
    {
        self.timestamp
    }

    /// The clock the capture timestamp is expressed in.
    pub fn timestamp_domain(&self) -> (r: Rs2TimestampDomain)
        ensures
            r == self.spec_timestamp_domain(),
    {
        self.timestamp_domain
    }

    /// The monotonically increasing per-stream frame number.
    pub fn frame_number(&self) -> (r: u64)
        ensures
            r == self.spec_frame_number(),
    {
        self.frame_number
    }

    /// The stream profile that produced this frame.
    pub fn stream_profile(&self) -> (r: &StreamProfile)
        ensures
            *r == self.spec_profile(),
    {
        &self.frame_stream_profile
    }

    /// The frame's originating sensor, from the answer of the fresh native
    /// query; the sensor is borrowed, since its handle belongs to the
    /// frame and device graph.
    pub fn sensor(&self, reply: Result<SensorItem, Error>) -> (r: Result<
        Sensor,
        CouldNotGetFrameSensorError,
    >)
        requires
            reply matches Ok(it) ==> it.wf(),
        ensures
            match r {
                Ok(s) => {
                    &&& reply matches Ok(it)
                    &&& s.wf()
                    &&& !s.spec_owned()
                    &&& s.spec_handle() == it.handle
                    &&& s.spec_record() == it.record
                },
                Err(e) => {
                    &&& reply matches Err(ne)
                    &&& e == CouldNotGetFrameSensorError(ne.exception, ne.message)
                },
            },
    {
        match reply {
            Ok(it) => Ok(Sensor::from_item(it)),
            Err(e) => Err(CouldNotGetFrameSensorError(e.exception, e.message)),
        }
    }

    /// The frame's value for the metadata key, or `None` where the key is
    /// unsupported or the native read failed. Metadata queries are
    /// advisory and never an error.
    pub fn metadata(&self, metadata_kind: Rs2FrameMetadata) -> (r: Option<i64>)
        ensures
            r == spec_metadata(self.spec_metadata(), metadata_kind),
    {
        match find_metadata(&self.metadata, metadata_kind) {
            Some(i) => match &self.metadata[i].value {
                Ok(v) => Some(*v),
                Err(_) => None,
            },
            None => None,
        }
    }

    /// Whether the frame has a value for the metadata key.
    pub fn supports_metadata(&self, metadata_kind: Rs2FrameMetadata) -> (r: bool)
        ensures
            r == spec_supports_metadata(self.spec_metadata(), metadata_kind),
    {
        find_metadata(&self.metadata, metadata_kind).is_some()
    }

    /// Take the bare handle out for a downstream consumer that manages its
    /// own lifetime. The transfer clears the frame's release duty before
    /// the frame is taken apart, so no native release is due from it.
    pub fn get_owned_raw(self) -> (r: NativeHandle)
        requires
            self.wf(),
        ensures
            r == self.spec_handle(),
    {
        let PointsFrame { guard, .. } = self;
        let mut guard = guard;
        let handle = guard.transfer_out();
        let released = guard.into_release();
        proof {
            assert(released is None);
        }
        handle
    }

    /// End the frame's life: returns the handle the embedder must release
    /// natively, unless ownership was transferred out first.
    pub fn dispose(self) -> (r: Option<NativeHandle>)
        requires
            self.wf(),
        ensures
            self.spec_owned() ==> r == Some(self.spec_handle()),
            !self.spec_owned() ==> r is None,
    {
        let PointsFrame { guard, .. } = self;
        guard.into_release()
    }
}

} // verus!
