//! Plain-value records of what the native SDK reports.
//!
//! The SDK answers queries through opaque handles; nothing behind those
//! handles can be reasoned about directly. So every answer the SDK gives is
//! modelled here as a plain value: an advisory lookup table, the per-index
//! answers of an enumeration pass, or the per-field results of a frame's
//! construction queries. An embedder performs the native calls and fills
//! these records with the answers; the tests build them directly. The
//! wrapper types consume the records by value, so what a wrapper holds is
//! exactly what the SDK answered.
//!
//! Advisory lookups (camera info, options, frame metadata) resolve a key to
//! the first matching entry of a table. The lemmas at the bottom prove the
//! advisory-query symmetry: a key without an entry is both unsupported and
//! absent, for every key.

use crate::base::F32Bits;
use crate::base::F64Bits;
use crate::base::Rs2Roi;
use crate::error::Error;
use crate::handle::NativeHandle;
use crate::kind::Rs2CameraInfo;
use crate::kind::Rs2Extension;
use crate::kind::Rs2Format;
use crate::kind::Rs2FrameMetadata;
use crate::kind::Rs2Option;
use crate::kind::Rs2OptionRange;
use crate::kind::Rs2StreamKind;
use crate::kind::Rs2TimestampDomain;
use vstd::prelude::*;

verus! {

/// One camera-info answer: the value the SDK reports for a key, or the
/// error the query raised. A key with no entry at all is unsupported.
pub struct InfoEntry {
    /// The camera-info key this entry answers.
    pub key: Rs2CameraInfo,
    /// The reported value, or the native failure of the query.
    pub value: Result<String, Error>,
}

/// One option of a sensor: the answers the SDK gives for its key. A key
/// with no entry at all is unsupported.
pub struct OptionEntry {
    /// The option key this entry answers.
    pub key: Rs2Option,
    /// The current value (an IEEE-754 bit pattern), or the native failure
    /// of reading it.
    pub value: Result<F32Bits, Error>,
    /// Whether the option may not be written.
    pub read_only: bool,
    /// The valid range of the option, or the native failure of querying it.
    pub range: Result<Rs2OptionRange, Error>,
    /// What the native set call answers when a write is attempted.
    pub set_reply: Result<(), Error>,
}

/// One frame-metadata answer for a key. A key with no entry at all is
/// unsupported.
pub struct MetadataEntry {
    /// The metadata key this entry answers.
    pub key: Rs2FrameMetadata,
    /// The reported value, or the native failure of the query.
    pub value: Result<i64, Error>,
}

/// The five fields the SDK reports for a stream profile, as raw native
/// codes.
#[derive(Clone, Copy, Debug, PartialEq, Eq, Structural)]
pub struct StreamData {
    /// The native code of the stream kind.
    pub stream: i32,
    /// The native code of the pixel/data format.
    pub format: i32,
    /// The stream's index, distinguishing streams of the same kind.
    pub index: i32,
    /// The profile's unique identifier.
    pub unique_id: i32,
    /// The configured frame rate, in frames per second.
    pub framerate: i32,
}

/// What the SDK reports for one stream-profile handle.
pub struct ProfileRecord {
    /// The profile's handle.
    pub handle: NativeHandle,
    /// The profile's data fields, or the native failure of querying them.
    pub data: Result<StreamData, Error>,
}

impl ProfileRecord {
    /// The handle is non-null and reported codes name table entries.
    pub open spec fn wf(&self) -> bool {
        &&& self.handle.wf()
        &&& self.data matches Ok(d) ==> {
            &&& Rs2StreamKind::spec_from_i32(d.stream) is Some
            &&& Rs2Format::spec_from_i32(d.format) is Some
        }
    }
}

/// The stable, per-sensor state the SDK answers advisory queries from.
pub struct SensorRecord {
    /// The extension tags the sensor answers "yes" to when asked whether it
    /// is extendable to them.
    pub extendable: Vec<Rs2Extension>,
    /// The sensor's option table.
    pub options: Vec<OptionEntry>,
    /// The sensor's camera-info table.
    pub infos: Vec<InfoEntry>,
    /// The current auto-exposure region of interest, or the native failure
    /// of reading it.
    pub roi: Result<Rs2Roi, Error>,
    /// What the native call answers when a new region of interest is set.
    pub roi_set_reply: Result<(), Error>,
}

/// One sensor as handed out by an enumeration pass: its handle and its
/// record.
pub struct SensorItem {
    /// The sensor's handle.
    pub handle: NativeHandle,
    /// The sensor's stable state.
    pub record: SensorRecord,
}

impl SensorItem {
    /// The handle is non-null.
    pub open spec fn wf(&self) -> bool {
        self.handle.wf()
    }
}

/// The per-device state the SDK answers advisory queries from.
pub struct DeviceRecord {
    /// The device's camera-info table.
    pub infos: Vec<InfoEntry>,
    /// What the native call answers when realtime playback is toggled.
    pub realtime_reply: Result<(), Error>,
}

/// One device as handed out by an enumeration pass: its handle and its
/// record.
pub struct DeviceItem {
    /// The device's handle.
    pub handle: NativeHandle,
    /// The device's stable state.
    pub record: DeviceRecord,
}

impl DeviceItem {
    /// The handle is non-null.
    pub open spec fn wf(&self) -> bool {
        self.handle.wf()
    }
}

/// The answers one sensor-enumeration pass gathered: whether the list query
/// itself succeeded, the reported count, and the per-index creation
/// answers.
pub struct SensorsReply {
    /// The outcome of querying the sensor list.
    pub query: Result<(), Error>,
    /// The reported number of sensors, or the native failure of counting.
    pub count: Result<i32, Error>,
    /// The per-index answers, one for each of the counted sensors.
    pub elements: Vec<Result<SensorItem, Error>>,
}

impl SensorsReply {
    /// Counts agree with the answers gathered, and every handed-out item
    /// has a non-null handle.
    pub open spec fn wf(&self) -> bool {
        &&& self.count matches Ok(c) ==> (self.query is Ok ==> c >= 0 && self.elements@.len()
            == c)
        &&& forall|i: int|
            0 <= i < self.elements@.len() ==> (#[trigger] self.elements@[i] matches Ok(item)
                ==> item.wf())
    }
}

/// The answers one stream-profile enumeration pass gathered.
pub struct StreamProfilesReply {
    /// The outcome of querying the profile list.
    pub query: Result<(), Error>,
    /// The reported number of profiles, or the native failure of counting.
    pub count: Result<i32, Error>,
    /// The per-index answers, one for each of the counted profiles.
    pub elements: Vec<Result<ProfileRecord, Error>>,
}

impl StreamProfilesReply {
    /// Counts agree with the answers gathered, and every handed-out record
    /// is well-formed.
    pub open spec fn wf(&self) -> bool {
        &&& self.count matches Ok(c) ==> (self.query is Ok ==> c >= 0 && self.elements@.len()
            == c)
        &&& forall|i: int|
            0 <= i < self.elements@.len() ==> (#[trigger] self.elements@[i] matches Ok(rec)
                ==> rec.wf())
    }
}

/// One 3D point of a point cloud; each coordinate is an IEEE-754
/// single-precision bit pattern.
#[derive(Clone, Copy, Debug, PartialEq, Eq, Structural)]
pub struct Vertex {
    /// The X coordinate, in metres.
    pub x: F32Bits,
    /// The Y coordinate, in metres.
    pub y: F32Bits,
    /// The Z coordinate, in metres.
    pub z: F32Bits,
}

/// The texture lookup coordinates of one point of a point cloud, as
/// IEEE-754 single-precision bit patterns.
///
/// The SDK delivers these as pairs of native integers and its own layer
/// re-reads them as 32-bit floats; that re-reading is only meaningful where
/// both are four bytes wide. Carrying the bit patterns keeps the value
/// exact either way.
#[derive(Clone, Copy, Debug, PartialEq, Eq, Structural)]
pub struct TextureCoordinate {
    /// The normalized horizontal texture coordinate.
    pub u: F32Bits,
    /// The normalized vertical texture coordinate.
    pub v: F32Bits,
}

/// The per-field answers of one image frame's construction pass, in the
/// fixed order the queries are issued, plus the frame's metadata table.
pub struct ImageFrameReply {
    /// The frame's width in pixels.
    pub width: Result<i32, Error>,
    /// The frame's height in pixels.
    pub height: Result<i32, Error>,
    /// The number of bits per pixel.
    pub bits_per_pixel: Result<i32, Error>,
    /// The row stride in bytes.
    pub stride: Result<i32, Error>,
    /// The capture timestamp, as an IEEE-754 double-precision bit pattern.
    pub timestamp: Result<F64Bits, Error>,
    /// The native code of the timestamp domain.
    pub timestamp_domain: Result<i32, Error>,
    /// The per-stream frame number.
    pub frame_number: Result<u64, Error>,
    /// The stream profile that produced the frame.
    pub profile: Result<ProfileRecord, Error>,
    /// The size of the pixel buffer in bytes.
    pub data_size: Result<i32, Error>,
    /// The pixel buffer itself.
    pub data: Result<Vec<u8>, Error>,
    /// The frame's metadata table.
    pub metadata: Vec<MetadataEntry>,
}

impl ImageFrameReply {
    /// Whether every construction query succeeded.
    pub open spec fn all_ok(&self) -> bool {
        &&& self.width is Ok
        &&& self.height is Ok
        &&& self.bits_per_pixel is Ok
        &&& self.stride is Ok
        &&& self.timestamp is Ok
        &&& self.timestamp_domain is Ok
        &&& self.frame_number is Ok
        &&& self.profile is Ok
        &&& self.data_size is Ok
        &&& self.data is Ok
    }

    /// What the SDK guarantees of a fully successful pass: consistent
    /// geometry, a buffer of exactly the reported size, and codes that
    /// name table entries.
    pub open spec fn wf(&self) -> bool {
        &&& self.profile matches Ok(rec) ==> rec.wf()
        &&& self.all_ok() ==> {
            let w = self.width->Ok_0 as int;
            let h = self.height->Ok_0 as int;
            let bpp = self.bits_per_pixel->Ok_0 as int;
            &&& w >= 0
            &&& h >= 0
            &&& bpp >= 0
            &&& bpp % 8 == 0
            &&& self.stride->Ok_0 == w * (bpp / 8)
            &&& self.data_size->Ok_0 == h * (self.stride->Ok_0 as int)
            &&& self.data->Ok_0@.len() == self.data_size->Ok_0
            &&& Rs2TimestampDomain::spec_from_i32(self.timestamp_domain->Ok_0) is Some
            &&& self.profile->Ok_0.data is Ok
        }
    }
}

/// The per-field answers of one points frame's construction pass, in the
/// fixed order the queries are issued, plus the frame's metadata table.
pub struct PointsFrameReply {
    /// The capture timestamp, as an IEEE-754 double-precision bit pattern.
    pub timestamp: Result<F64Bits, Error>,
    /// The native code of the timestamp domain.
    pub timestamp_domain: Result<i32, Error>,
    /// The per-stream frame number.
    pub frame_number: Result<u64, Error>,
    /// The stream profile that produced the frame.
    pub profile: Result<ProfileRecord, Error>,
    /// The number of points in the cloud.
    pub points_count: Result<i32, Error>,
    /// The 3D vertex buffer, one entry per point.
    pub vertices: Result<Vec<Vertex>, Error>,
    /// The texture-coordinate buffer, one entry per point.
    pub texture: Result<Vec<TextureCoordinate>, Error>,
    /// The frame's metadata table.
    pub metadata: Vec<MetadataEntry>,
}

impl PointsFrameReply {
    /// Whether every construction query succeeded.
    pub open spec fn all_ok(&self) -> bool {
        &&& self.timestamp is Ok
        &&& self.timestamp_domain is Ok
        &&& self.frame_number is Ok
        &&& self.profile is Ok
        &&& self.points_count is Ok
        &&& self.vertices is Ok
        &&& self.texture is Ok
    }

    /// What the SDK guarantees of a fully successful pass: both buffers
    /// hold exactly one entry per counted point, and codes name table
    /// entries.
    pub open spec fn wf(&self) -> bool {
        &&& self.profile matches Ok(rec) ==> rec.wf()
        &&& self.all_ok() ==> {
            &&& self.points_count->Ok_0 >= 0
            &&& self.vertices->Ok_0@.len() == self.points_count->Ok_0
            &&& self.texture->Ok_0@.len() == self.points_count->Ok_0
            &&& Rs2TimestampDomain::spec_from_i32(self.timestamp_domain->Ok_0) is Some
            &&& self.profile->Ok_0.data is Ok
        }
    }
}

// --- advisory lookups ------------------------------------------------------

/// The first camera-info entry for `key`, if any.
pub open spec fn info_lookup(s: Seq<InfoEntry>, key: Rs2CameraInfo) -> Option<
    Result<String, Error>,
>
    decreases s.len(),
{
    if s.len() == 0 {
        None
    } else if s[0].key == key {
        Some(s[0].value)
    } else {
        info_lookup(s.subrange(1, s.len() as int), key)
    }
}

/// Whether a camera-info key is supported: it has an entry and asking about
/// it did not fail.
pub open spec fn spec_supports_info(s: Seq<InfoEntry>, key: Rs2CameraInfo) -> bool {
    info_lookup(s, key) is Some
}

/// The value an advisory info query returns: the entry's value where one
/// exists and was read without error, absent otherwise.
pub open spec fn spec_info(s: Seq<InfoEntry>, key: Rs2CameraInfo) -> Option<String> {
    match info_lookup(s, key) {
        Some(v) => match v {
            Ok(text) => Some(text),
            Err(_) => None,
        },
        None => None,
    }
}

/// The first option entry for `key`, if any.
pub open spec fn option_lookup(s: Seq<OptionEntry>, key: Rs2Option) -> Option<OptionEntry>
    decreases s.len(),
{
    if s.len() == 0 {
        None
    } else if s[0].key == key {
        Some(s[0])
    } else {
        option_lookup(s.subrange(1, s.len() as int), key)
    }
}

/// Whether an option key is supported by the table.
pub open spec fn spec_supports_option(s: Seq<OptionEntry>, key: Rs2Option) -> bool {
    option_lookup(s, key) is Some
}

/// The value an advisory option read returns.
pub open spec fn spec_get_option(s: Seq<OptionEntry>, key: Rs2Option) -> Option<F32Bits> {
    match option_lookup(s, key) {
        Some(e) => match e.value {
            Ok(v) => Some(v),
            Err(_) => None,
        },
        None => None,
    }
}

/// Whether an option is supported and immutable.
pub open spec fn spec_option_read_only(s: Seq<OptionEntry>, key: Rs2Option) -> bool {
    match option_lookup(s, key) {
        Some(e) => e.read_only,
        None => false,
    }
}

/// The range an advisory range query returns.
pub open spec fn spec_option_range(s: Seq<OptionEntry>, key: Rs2Option) -> Option<Rs2OptionRange> {
    match option_lookup(s, key) {
        Some(e) => match e.range {
            Ok(r) => Some(r),
            Err(_) => None,
        },
        None => None,
    }
}

/// The position of the first option entry for `key`; meaningful only when
/// the key is supported.
pub open spec fn option_index(s: Seq<OptionEntry>, key: Rs2Option) -> int
    decreases s.len(),
{
    if s.len() == 0 {
        0
    } else if s[0].key == key {
        0
    } else {
        1 + option_index(s.subrange(1, s.len() as int), key)
    }
}

/// For a supported key, [`option_index`] names the first matching entry.
pub proof fn lemma_option_index(s: Seq<OptionEntry>, key: Rs2Option)
    requires
        spec_supports_option(s, key),
    ensures
        0 <= option_index(s, key) < s.len(),
        s[option_index(s, key)].key == key,
        option_lookup(s, key) == Some(s[option_index(s, key)]),
        forall|j: int| 0 <= j < option_index(s, key) ==> #[trigger] s[j].key != key,
    decreases s.len(),
{
    if s.len() > 0 && s[0].key != key {
        let t = s.subrange(1, s.len() as int);
        lemma_option_index(t, key);
        assert forall|j: int| 0 <= j < option_index(s, key) implies #[trigger] s[j].key
            != key by {
            if j > 0 {
                assert(s[j] == t[j - 1]);
            }
        }
    }
}

/// A table whose first match for `key` stands at `i` resolves the key to
/// that entry.
pub proof fn lemma_lookup_first_match(s: Seq<OptionEntry>, key: Rs2Option, i: int)
    requires
        0 <= i < s.len(),
        s[i].key == key,
        forall|j: int| 0 <= j < i ==> #[trigger] s[j].key != key,
    ensures
        option_lookup(s, key) == Some(s[i]),
    decreases i,
{
    if i > 0 {
        let t = s.subrange(1, s.len() as int);
        assert(t[i - 1] == s[i]);
        assert forall|j: int| 0 <= j < i - 1 implies #[trigger] t[j].key != key by {
            assert(t[j] == s[j + 1]);
        }
        lemma_lookup_first_match(t, key, i - 1);
    }
}

/// The option table after a successful write of `value` to `key`: the
/// first matching entry now reads back `value`, everything else is
/// untouched.
pub open spec fn spec_set_option(s: Seq<OptionEntry>, key: Rs2Option, value: F32Bits) -> Seq<
    OptionEntry,
> {
    let i = option_index(s, key);
    let e = s[i];
    s.update(
        i,
        OptionEntry {
            key: e.key,
            value: Ok(value),
            read_only: e.read_only,
            range: e.range,
            set_reply: e.set_reply,
        },
    )
}

/// After a successful write, reading the option back yields the written
/// value.
pub proof fn lemma_set_option_get(s: Seq<OptionEntry>, key: Rs2Option, value: F32Bits)
    requires
        spec_supports_option(s, key),
    ensures
        spec_get_option(spec_set_option(s, key, value), key) == Some(value),
        spec_supports_option(spec_set_option(s, key, value), key),
    decreases s.len(),
{
    lemma_option_index(s, key);
    let i = option_index(s, key);
    let s2 = spec_set_option(s, key, value);
    assert forall|j: int| 0 <= j < i implies #[trigger] s2[j].key != key by {
        assert(s2[j] == s[j]);
    }
    lemma_lookup_first_match(s2, key, i);
}

/// The first metadata entry for `key`, if any.
pub open spec fn metadata_lookup(s: Seq<MetadataEntry>, key: Rs2FrameMetadata) -> Option<
    Result<i64, Error>,
>
    decreases s.len(),
{
    if s.len() == 0 {
        None
    } else if s[0].key == key {
        Some(s[0].value)
    } else {
        metadata_lookup(s.subrange(1, s.len() as int), key)
    }
}

/// Whether a frame-metadata key is supported by the table.
pub open spec fn spec_supports_metadata(s: Seq<MetadataEntry>, key: Rs2FrameMetadata) -> bool {
    metadata_lookup(s, key) is Some
}

/// The value an advisory metadata read returns.
pub open spec fn spec_metadata(s: Seq<MetadataEntry>, key: Rs2FrameMetadata) -> Option<i64> {
    match metadata_lookup(s, key) {
        Some(v) => match v {
            Ok(value) => Some(value),
            Err(_) => None,
        },
        None => None,
    }
}

// --- advisory-query symmetry ----------------------------------------------

/// For every camera-info key a table does not support, the advisory info
/// query is absent.
pub proof fn lemma_info_query_symmetry(s: Seq<InfoEntry>, key: Rs2CameraInfo)
    ensures
        !spec_supports_info(s, key) ==> spec_info(s, key) is None,
{
}

/// For every option key a table does not support, the advisory reads are
/// absent, and the key is not read-only either.
pub proof fn lemma_option_query_symmetry(s: Seq<OptionEntry>, key: Rs2Option)
    ensures
        !spec_supports_option(s, key) ==> spec_get_option(s, key) is None,
        !spec_supports_option(s, key) ==> spec_option_range(s, key) is None,
        !spec_supports_option(s, key) ==> !spec_option_read_only(s, key),
{
}

/// For every frame-metadata key a table does not support, the advisory
/// metadata query is absent.
pub proof fn lemma_metadata_query_symmetry(s: Seq<MetadataEntry>, key: Rs2FrameMetadata)
    ensures
        !spec_supports_metadata(s, key) ==> spec_metadata(s, key) is None,
{
}

// --- exec lookups ----------------------------------------------------------

/// Find the first camera-info entry for `key`, as an index into the table.
pub fn find_info(infos: &Vec<InfoEntry>, key: Rs2CameraInfo) -> (r: Option<usize>)
    ensures
        match r {
            Some(i) => {
                &&& i < infos@.len()
                &&& infos@[i as int].key == key
                &&& info_lookup(infos@, key) == Some(infos@[i as int].value)
            },
            None => info_lookup(infos@, key) is None,
        },
{
    let mut i: usize = 0;
    proof {
        assert(infos@.subrange(0, infos@.len() as int) =~= infos@);
    }
    while i < infos.len()
        invariant
            i <= infos@.len(),
            info_lookup(infos@, key) == info_lookup(
                infos@.subrange(i as int, infos@.len() as int),
                key,
            ),
        decreases infos@.len() - i,
    {
        let ghost sub = infos@.subrange(i as int, infos@.len() as int);
        proof {
            assert(sub[0] == infos@[i as int]);
            assert(sub.subrange(1, sub.len() as int) =~= infos@.subrange(
                i + 1,
                infos@.len() as int,
            ));
        }
        if infos[i].key == key {
            return Some(i);
        }
        i += 1;
    }
    None
}

/// Find the first option entry for `key`, as an index into the table.
pub fn find_option(options: &Vec<OptionEntry>, key: Rs2Option) -> (r: Option<usize>)
    ensures
        match r {
            Some(i) => {
                &&& i < options@.len()
                &&& options@[i as int].key == key
                &&& option_lookup(options@, key) == Some(options@[i as int])
                &&& forall|j: int| 0 <= j < i ==> #[trigger] options@[j].key != key
            },
            None => option_lookup(options@, key) is None,
        },
{
    let mut i: usize = 0;
    proof {
        assert(options@.subrange(0, options@.len() as int) =~= options@);
    }
    while i < options.len()
        invariant
            i <= options@.len(),
            option_lookup(options@, key) == option_lookup(
                options@.subrange(i as int, options@.len() as int),
                key,
            ),
            forall|j: int| 0 <= j < i ==> #[trigger] options@[j].key != key,
        decreases options@.len() - i,
    {
        let ghost sub = options@.subrange(i as int, options@.len() as int);
        proof {
            assert(sub[0] == options@[i as int]);
            assert(sub.subrange(1, sub.len() as int) =~= options@.subrange(
                i + 1,
                options@.len() as int,
            ));
        }
        if options[i].key == key {
            return Some(i);
        }
        i += 1;
    }
    None
}

/// Find the first metadata entry for `key`, as an index into the table.
pub fn find_metadata(entries: &Vec<MetadataEntry>, key: Rs2FrameMetadata) -> (r: Option<usize>)
    ensures
        match r {
            Some(i) => {
                &&& i < entries@.len()
                &&& entries@[i as int].key == key
                &&& metadata_lookup(entries@, key) == Some(entries@[i as int].value)
            },
            None => metadata_lookup(entries@, key) is None,
        },
{
    let mut i: usize = 0;
    proof {
        assert(entries@.subrange(0, entries@.len() as int) =~= entries@);
    }
    while i < entries.len()
        invariant
            i <= entries@.len(),
            metadata_lookup(entries@, key) == metadata_lookup(
                entries@.subrange(i as int, entries@.len() as int),
                key,
            ),
        decreases entries@.len() - i,
    {
        let ghost sub = entries@.subrange(i as int, entries@.len() as int);
        proof {
            assert(sub[0] == entries@[i as int]);
            assert(sub.subrange(1, sub.len() as int) =~= entries@.subrange(
                i + 1,
                entries@.len() as int,
            ));
        }
        if entries[i].key == key {
            return Some(i);
        }
        i += 1;
    }
    None
}

} // verus!
