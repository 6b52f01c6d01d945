//! The descriptor of one data stream.

use crate::handle::HandleGuard;
use crate::handle::NativeHandle;
use crate::kind::Rs2Exception;
use crate::kind::Rs2Format;
use crate::kind::Rs2StreamKind;
use crate::native::ProfileRecord;
use vstd::prelude::*;

verus! {

/// Why constructing a stream profile failed.
#[derive(Clone, Debug)]
pub enum StreamConstructionError {
    /// The profile's data fields could not be read; carries the native
    /// exception category and message.
    CouldNotRetrieveStreamData(Rs2Exception, String),
}

/// A stream profile: the kind, format, identity and rate of one data
/// stream.
///
/// Profiles are always borrowed — their handles are owned by the sensor or
/// frame that exposed them, so dropping a profile never releases anything.
pub struct StreamProfile {
    guard: HandleGuard,
    kind: Rs2StreamKind,
    format: Rs2Format,
    stream_index: i32,
    unique_id: i32,
    framerate: i32,
}

impl StreamProfile {
    /// The profile's handle.
    pub closed spec fn spec_handle(&self) -> NativeHandle {
        self.guard.spec_handle()
    }

    /// Whether this wrapper would release its handle; always false.
    pub closed spec fn spec_owned(&self) -> bool {
        self.guard.spec_owned()
    }

    /// The stream's kind.
    pub closed spec fn spec_kind(&self) -> Rs2StreamKind {
        self.kind
    }

    /// The stream's format.
    pub closed spec fn spec_format(&self) -> Rs2Format {
        self.format
    }

    /// The stream's index.
    pub closed spec fn spec_stream_index(&self) -> i32 {
        self.stream_index
    }

    /// The profile's unique identifier.
    pub closed spec fn spec_unique_id(&self) -> i32 {
        self.unique_id
    }

    /// The configured frame rate.
    pub closed spec fn spec_framerate(&self) -> i32 {
        self.framerate
    }

    /// The profile's guard, for stating the release discipline.
    pub closed spec fn spec_guard(&self) -> HandleGuard {
        self.guard
    }

    /// A profile is well-formed when its guard is and it never owns its
    /// handle.
    pub open spec fn wf(&self) -> bool {
        &&& self.spec_guard().wf()
        &&& self.spec_handle() == self.spec_guard().spec_handle()
        &&& !self.spec_owned()
    }

    /// Build a profile from what the SDK reported for its handle.
    ///
    /// Fails with [`StreamConstructionError::CouldNotRetrieveStreamData`]
    /// exactly when the native data query failed; otherwise every field is
    /// populated from the reported codes.
    pub fn try_create(rec: ProfileRecord) -> (r: Result<StreamProfile, StreamConstructionError>)
        requires
            rec.wf(),
        ensures
            match r {
                Ok(p) => {
                    &&& rec.data matches Ok(d)
                    &&& p.wf()
                    &&& p.spec_handle() == rec.handle
                    &&& Some(p.spec_kind()) == Rs2StreamKind::spec_from_i32(d.stream)
                    &&& Some(p.spec_format()) == Rs2Format::spec_from_i32(d.format)
                    &&& p.spec_stream_index() == d.index
                    &&& p.spec_unique_id() == d.unique_id
                    &&& p.spec_framerate() == d.framerate
                },
                Err(e) => {
                    &&& rec.data matches Err(ne)
                    &&& e == StreamConstructionError::CouldNotRetrieveStreamData(
                        ne.exception,
                        ne.message,
                    )
                },
            },
    {
        match rec.data {
            Ok(d) => {
                let kind = Rs2StreamKind::from_i32(d.stream).unwrap();
                let format = Rs2Format::from_i32(d.format).unwrap();
                Ok(
                    StreamProfile {
                        guard: HandleGuard::borrow(rec.handle),
                        kind,
                        format,
                        stream_index: d.index,
                        unique_id: d.unique_id,
                        framerate: d.framerate,
                    },
                )
            },
            Err(e) => Err(
                StreamConstructionError::CouldNotRetrieveStreamData(e.exception, e.message),
            ),
        }
    }

    /// The stream's kind.
    pub fn kind(&self) -> (r: Rs2StreamKind)
        ensures
            r == self.spec_kind(),
    {
        self.kind
    }

    /// The stream's format.
    pub fn format(&self) -> (r: Rs2Format)
        ensures
            r == self.spec_format(),
    {
        self.format
    }

    /// The stream's index, distinguishing streams of the same kind.
    pub fn stream_index(&self) -> (r: i32)
        ensures
            r == self.spec_stream_index(),
    {
        self.stream_index
    }

    /// The profile's unique identifier.
    pub fn unique_id(&self) -> (r: i32)
        ensures
            r == self.spec_unique_id(),
    {
        self.unique_id
    }

    /// The configured frame rate, in frames per second.
    pub fn framerate(&self) -> (r: i32)
        ensures
            r == self.spec_framerate(),
    {
        self.framerate
    }

    /// End the profile's life. A profile never owns its handle, so no
    /// native release is ever due.
    pub fn dispose(self) -> (r: Option<NativeHandle>)
        requires
            self.wf(),
        ensures
            r is None,
    {
        let StreamProfile { guard, .. } = self;
        guard.into_release()
    }
}

} // verus!
