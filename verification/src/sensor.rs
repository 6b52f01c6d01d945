//! The wrapper for one sensor of a device.
//!
//! A sensor handle is owned when it came from indexing a sensor list, and
//! borrowed when it came from a frame's originating-sensor query: in the
//! latter case the handle's life is governed by the frame and device graph,
//! and this wrapper must never release it.

use crate::base::F32Bits;
use crate::base::Rs2Roi;
use crate::device::Device;
use crate::device::DeviceConstructionError;
use crate::error::Error;
use crate::handle::HandleGuard;
use crate::handle::NativeHandle;
use crate::kind::extension::sensor_extension_list;
use crate::kind::extension::sensor_extensions;
use crate::kind::OptionSetError;
use crate::kind::Rs2CameraInfo;
use crate::kind::Rs2Exception;
use crate::kind::Rs2Extension;
use crate::kind::Rs2Option;
use crate::kind::Rs2OptionRange;
use crate::native::find_info;
use crate::native::find_option;
use crate::native::lemma_option_index;
use crate::native::option_index;
use crate::native::spec_get_option;
use crate::native::spec_info;
use crate::native::spec_option_range;
use crate::native::spec_option_read_only;
use crate::native::spec_set_option;
use crate::native::spec_supports_info;
use crate::native::spec_supports_option;
use crate::native::DeviceItem;
use crate::native::ProfileRecord;
use crate::native::SensorItem;
use crate::native::SensorRecord;
use crate::native::StreamProfilesReply;
use crate::stream_profile::StreamProfile;
use vstd::prelude::*;

verus! {

/// Why constructing a sensor failed.
#[derive(Clone, Debug)]
pub enum SensorConstructionError {
    /// The sensor could not be taken out of the sensor list; carries the
    /// native exception category and message.
    CouldNotGetSensorFromList(Rs2Exception, String),
}

/// Why setting the region of interest failed.
#[derive(Clone, Debug)]
pub enum RoiSetError {
    /// The native call refused the new region; carries the native
    /// exception category and message.
    CouldNotSetRoi(Rs2Exception, String),
}

/// The profile records an enumeration pass keeps: the per-index answer was
/// itself a success, and the profile's own data query succeeded. Everything
/// else is skipped, best-effort.
pub open spec fn kept_profiles(s: Seq<Result<ProfileRecord, Error>>) -> Seq<ProfileRecord>
    decreases s.len(),
{
    if s.len() == 0 {
        Seq::empty()
    } else {
        kept_profiles(s.drop_last()) + (if s.last() matches Ok(rec) && rec.data is Ok {
            seq![s.last()->Ok_0]
        } else {
            Seq::empty()
        })
    }
}

/// A sensor of a device, together with the stable state the SDK answers
/// its advisory queries from.
pub struct Sensor {
    guard: HandleGuard,
    record: SensorRecord,
}

impl Sensor {
    /// The sensor's handle.
    pub closed spec fn spec_handle(&self) -> NativeHandle {
        self.guard.spec_handle()
    }

    /// Whether this wrapper releases the handle at the end of its life.
    pub closed spec fn spec_owned(&self) -> bool {
        self.guard.spec_owned()
    }

    /// The sensor's guard, for stating the release discipline.
    pub closed spec fn spec_guard(&self) -> HandleGuard {
        self.guard
    }

    /// The sensor's stable state.
    pub closed spec fn spec_record(&self) -> SensorRecord {
        self.record
    }

    /// A sensor is well-formed when its guard is.
    pub open spec fn wf(&self) -> bool {
        self.spec_guard().wf() && self.spec_handle() == self.spec_guard().spec_handle()
    }

    /// Build an owned sensor from one per-index answer of a sensor-list
    /// enumeration.
    ///
    /// Fails with [`SensorConstructionError::CouldNotGetSensorFromList`]
    /// exactly when the native creation call failed (an invalid index or a
    /// stale list); otherwise the sensor owns its handle and will release
    /// it at the end of its life.
    pub fn try_create(item: Result<SensorItem, Error>) -> (r: Result<
        Sensor,
        SensorConstructionError,
    >)
        requires
            item matches Ok(it) ==> it.wf(),
        ensures
            match r {
                Ok(s) => {
                    &&& item matches Ok(it)
                    &&& s.wf()
                    &&& s.spec_owned()
                    &&& s.spec_handle() == it.handle
                    &&& s.spec_record() == it.record
                },
                Err(e) => {
                    &&& item matches Err(ne)
                    &&& e == SensorConstructionError::CouldNotGetSensorFromList(
                        ne.exception,
                        ne.message,
                    )
                },
            },
    {
        match item {
            Ok(it) => Ok(Sensor { guard: HandleGuard::own(it.handle), record: it.record }),
            Err(e) => Err(
                SensorConstructionError::CouldNotGetSensorFromList(e.exception, e.message),
            ),
        }
    }

    /// Build a borrowed sensor from a handle obtained indirectly (from a
    /// frame's originating-sensor query): this wrapper never releases it.
    pub fn from_item(item: SensorItem) -> (r: Sensor)
        requires
            item.wf(),
        ensures
            r.wf(),
            !r.spec_owned(),
            r.spec_handle() == item.handle,
            r.spec_record() == item.record,
    {
        Sensor { guard: HandleGuard::borrow(item.handle), record: item.record }
    }

    /// Reconstruct the device this sensor belongs to, from the answer of
    /// the native device-from-sensor call.
    ///
    /// Fails with
    /// [`DeviceConstructionError::CouldNotCreateDeviceFromSensor`] exactly
    /// when that call failed — the physical device is gone or the sensor
    /// handle has become invalid.
    pub fn device(&self, reply: Result<DeviceItem, Error>) -> (r: Result<
        Device,
        DeviceConstructionError,
    >)
        requires
            reply matches Ok(it) ==> it.wf(),
        ensures
            match r {
                Ok(d) => {
                    &&& reply matches Ok(it)
                    &&& d.wf()
                    &&& d.spec_owned()
                    &&& d.spec_handle() == it.handle
                    &&& d.spec_record() == it.record
                },
                Err(e) => {
                    &&& reply matches Err(ne)
                    &&& e == DeviceConstructionError::CouldNotCreateDeviceFromSensor(
                        ne.exception,
                        ne.message,
                    )
                },
            },
    {
        match reply {
            Ok(it) => Ok(Device::from_item(it)),
            Err(e) => Err(
                DeviceConstructionError::CouldNotCreateDeviceFromSensor(e.exception, e.message),
            ),
        }
    }

    /// The first tag of the sensor-extension allowlist this sensor answers
    /// "yes" to.
    ///
    /// The allowlist is assumed exhaustive for real hardware: a sensor that
    /// matches none of its tags is outside this function's contract, which
    /// is why at least one match is required.
    pub fn extension(&self) -> (r: Rs2Extension)
        requires
            exists|i: int|
                0 <= i < sensor_extension_list().len()
                    && self.spec_record().extendable@.contains(
                    #[trigger] sensor_extension_list()[i]),
        ensures
            exists|i: int|
                {
                    &&& 0 <= i < sensor_extension_list().len()
                    &&& r == sensor_extension_list()[i]
                    &&& self.spec_record().extendable@.contains(r)
                    &&& forall|j: int|
                        0 <= j < i ==> !self.spec_record().extendable@.contains(
                            #[trigger] sensor_extension_list()[j])
                },
    {
        let candidates = sensor_extensions();
        let mut i: usize = 0;
        while i < candidates.len()
            invariant
                candidates@ == sensor_extension_list(),
                i <= candidates@.len(),
                forall|j: int|
                    0 <= j < i ==> !self.spec_record().extendable@.contains(
                        #[trigger] sensor_extension_list()[j]),
                exists|k: int|
                    0 <= k < sensor_extension_list().len()
                        && self.spec_record().extendable@.contains(
                        #[trigger] sensor_extension_list()[k]),
            decreases candidates@.len() - i,
        {
            let candidate = candidates[i];
            if contains_extension(&self.record.extendable, candidate) {
                return candidate;
            }
            i += 1;
        }
        proof {
            let k = choose|k: int|
                0 <= k < sensor_extension_list().len()
                    && self.spec_record().extendable@.contains(
                    #[trigger] sensor_extension_list()[k]);
            assert(!self.spec_record().extendable@.contains(sensor_extension_list()[k]));
        }
        vstd::pervasive::unreached()
    }

    /// The sensor's current value for `option`, or `None` where the option
    /// is unsupported or the native read failed.
    pub fn get_option(&self, option: Rs2Option) -> (r: Option<F32Bits>)
        ensures
            r == spec_get_option(self.spec_record().options@, option),
    {
        match find_option(&self.record.options, option) {
            Some(i) => match &self.record.options[i].value {
                Ok(v) => Some(*v),
                Err(_) => None,
            },
            None => None,
        }
    }

    /// Whether the sensor supports `option`.
    pub fn supports_option(&self, option: Rs2Option) -> (r: bool)
        ensures
            r == spec_supports_option(self.spec_record().options@, option),
    {
        find_option(&self.record.options, option).is_some()
    }

    /// Whether `option` is supported but may not be written.
    pub fn is_option_read_only(&self, option: Rs2Option) -> (r: bool)
        ensures
            r == spec_option_read_only(self.spec_record().options@, option),
    {
        match find_option(&self.record.options, option) {
            Some(i) => self.record.options[i].read_only,
            None => false,
        }
    }

    /// The valid range of `option`, or `None` where the option is
    /// unsupported or the native range query failed.
    pub fn get_option_range(&self, option: Rs2Option) -> (r: Option<Rs2OptionRange>)
        ensures
            r == spec_option_range(self.spec_record().options@, option),
    {
        match find_option(&self.record.options, option) {
            Some(i) => match &self.record.options[i].range {
                Ok(range) => Some(*range),
                Err(_) => None,
            },
            None => None,
        }
    }

    /// Write `value` to `option`.
    ///
    /// Fails with [`OptionSetError::OptionNotSupported`] where the option
    /// is unsupported, with [`OptionSetError::OptionIsReadOnly`] where it
    /// is supported but immutable, and with
    /// [`OptionSetError::CouldNotSetOption`] where the native set call
    /// itself failed; in each failing case the sensor is left exactly as it
    /// was. On success the option reads back the written value.
    pub fn set_option(&mut self, option: Rs2Option, value: F32Bits) -> (r: Result<
        (),
        OptionSetError,
    >)
        ensures
            !spec_supports_option(old(self).spec_record().options@, option) ==> {
                &&& r == Result::<(), OptionSetError>::Err(OptionSetError::OptionNotSupported)
                &&& *final(self) == *old(self)
            },
            (spec_supports_option(old(self).spec_record().options@, option)
                && spec_option_read_only(old(self).spec_record().options@, option)) ==> {
                &&& r == Result::<(), OptionSetError>::Err(OptionSetError::OptionIsReadOnly)
                &&& *final(self) == *old(self)
            },
            (spec_supports_option(old(self).spec_record().options@, option)
                && !spec_option_read_only(old(self).spec_record().options@, option)) ==> {
                let idx = option_index(old(self).spec_record().options@, option);
                let entry = old(self).spec_record().options@[idx];
                match entry.set_reply {
                    Ok(_) => {
                        &&& r is Ok
                        &&& final(self).spec_record().options@ == spec_set_option(
                            old(self).spec_record().options@,
                            option,
                            value,
                        )
                        &&& final(self).spec_record().extendable == old(
                            self,
                        ).spec_record().extendable
                        &&& final(self).spec_record().infos == old(self).spec_record().infos
                        &&& final(self).spec_record().roi == old(self).spec_record().roi
                        &&& final(self).spec_record().roi_set_reply == old(
                            self,
                        ).spec_record().roi_set_reply
                        &&& final(self).spec_guard() == old(self).spec_guard()
                    },
                    Err(ne) => {
                        &&& r == Result::<(), OptionSetError>::Err(
                            OptionSetError::CouldNotSetOption(ne.exception, ne.message),
                        )
                        &&& *final(self) == *old(self)
                    },
                }
            },
    {
        let idx = match find_option(&self.record.options, option) {
            Some(i) => i,
            None => {
                return Err(OptionSetError::OptionNotSupported);
            },
        };
        proof {
            lemma_option_index(self.spec_record().options@, option);
        }
        if self.record.options[idx].read_only {
            return Err(OptionSetError::OptionIsReadOnly);
        }
        let failed = match &self.record.options[idx].set_reply {
            Ok(_) => None,
            Err(e) => Some(
                OptionSetError::CouldNotSetOption(e.exception, e.error_message()),
            ),
        };
        if let Some(err) = failed {
            return Err(err);
        }
        let slot = &mut self.record.options[idx];
        slot.value = Ok(value);
        proof {
            assert(self.record.options@ =~= spec_set_option(
                old(self).spec_record().options@,
                option,
                value,
            ));
        }
        Ok(())
    }

    /// All stream profiles an enumeration pass could fully construct, in
    /// order.
    ///
    /// Any failure — of the list query, of the count, of one index, or of
    /// one profile's own data — degrades to skipping (or, for the list and
    /// count, to an empty result): enumeration is best-effort and never an
    /// error.
    pub fn stream_profiles(&self, reply: StreamProfilesReply) -> (r: Vec<StreamProfile>)
        requires
            reply.wf(),
        ensures
            reply.query is Err ==> r@.len() == 0,
            reply.query is Ok && reply.count is Err ==> r@.len() == 0,
            reply.query is Ok && reply.count is Ok ==> {
                let kept = kept_profiles(reply.elements@);
                &&& r@.len() == kept.len()
                &&& forall|k: int|
                    0 <= k < kept.len() ==> {
                        &&& (#[trigger] r@[k]).wf()
                        &&& r@[k].spec_handle() == kept[k].handle
                        &&& Some(r@[k].spec_kind()) == crate::kind::Rs2StreamKind::spec_from_i32(
                            kept[k].data->Ok_0.stream,
                        )
                        &&& Some(r@[k].spec_format()) == crate::kind::Rs2Format::spec_from_i32(
                            kept[k].data->Ok_0.format,
                        )
                        &&& r@[k].spec_stream_index() == kept[k].data->Ok_0.index
                        &&& r@[k].spec_unique_id() == kept[k].data->Ok_0.unique_id
                        &&& r@[k].spec_framerate() == kept[k].data->Ok_0.framerate
                    }
            },
    {
        let mut out: Vec<StreamProfile> = Vec::new();
        if reply.query.is_err() {
            return out;
        }
        if reply.count.is_err() {
            return out;
        }
        let mut elements = reply.elements;
        let total = elements.len();
        let ghost all = elements@;
        let mut taken: usize = 0;
        proof {
            assert(all.subrange(0, 0) =~= Seq::<Result<ProfileRecord, Error>>::empty());
            assert(elements@ =~= all.subrange(0, all.len() as int));
        }
        while elements.len() > 0
            invariant
                taken <= all.len(),
                all.len() == total,
                elements@ == all.subrange(taken as int, all.len() as int),
                out@.len() == kept_profiles(all.subrange(0, taken as int)).len(),
                forall|k: int|
                    0 <= k < out@.len() ==> {
                        let kept = kept_profiles(all.subrange(0, taken as int));
                        &&& (#[trigger] out@[k]).wf()
                        &&& out@[k].spec_handle() == kept[k].handle
                        &&& Some(out@[k].spec_kind()) == crate::kind::Rs2StreamKind::spec_from_i32(
                            kept[k].data->Ok_0.stream,
                        )
                        &&& Some(out@[k].spec_format()) == crate::kind::Rs2Format::spec_from_i32(
                            kept[k].data->Ok_0.format,
                        )
                        &&& out@[k].spec_stream_index() == kept[k].data->Ok_0.index
                        &&& out@[k].spec_unique_id() == kept[k].data->Ok_0.unique_id
                        &&& out@[k].spec_framerate() == kept[k].data->Ok_0.framerate
                    },
                forall|i: int|
                    0 <= i < all.len() ==> (#[trigger] all[i] matches Ok(rec) ==> rec.wf()),
            decreases elements@.len(),
        {
            let element = elements.remove(0);
            proof {
                assert(all[taken as int] == element);
                assert(elements@ =~= all.subrange(taken as int + 1, all.len() as int));
                let prefix = all.subrange(0, taken as int);
                let next = all.subrange(0, taken as int + 1);
                assert(next.drop_last() =~= prefix);
                assert(next.last() == element);
            }
            match element {
                Ok(rec) => {
                    match StreamProfile::try_create(rec) {
                        Ok(profile) => {
                            out.push(profile);
                        },
                        Err(_) => {},
                    }
                },
                Err(_) => {},
            }
            proof {
                assert(taken < all.len());
            }
            taken += 1;
        }
        proof {
            assert(all.subrange(0, taken as int) =~= all);
        }
        out
    }

    /// The sensor's value for the camera-info key, or `None` where the key
    /// is unsupported or the native read failed. Info queries are advisory
    /// and never an error.
    pub fn info(&self, camera_info: Rs2CameraInfo) -> (r: Option<String>)
        ensures
            r == spec_info(self.spec_record().infos@, camera_info),
    {
        match find_info(&self.record.infos, camera_info) {
            Some(i) => match &self.record.infos[i].value {
                Ok(text) => Some(text.clone()),
                Err(_) => None,
            },
            None => None,
        }
    }

    /// Whether the sensor has a value for the camera-info key.
    pub fn supports_info(&self, camera_info: Rs2CameraInfo) -> (r: bool)
        ensures
            r == spec_supports_info(self.spec_record().infos@, camera_info),
    {
        find_info(&self.record.infos, camera_info).is_some()
    }

    /// The auto-exposure region of interest, or `None` where reading it
    /// failed.
    pub fn get_region_of_interest(&self) -> (r: Option<Rs2Roi>)
        ensures
            match self.spec_record().roi {
                Ok(roi) => r == Some(roi),
                Err(_) => r is None,
            },
    {
        match &self.record.roi {
            Ok(roi) => Some(*roi),
            Err(_) => None,
        }
    }

    /// Set the auto-exposure region of interest to `roi`.
    ///
    /// Fails with [`RoiSetError::CouldNotSetRoi`] exactly when the native
    /// call refused, leaving the sensor as it was; on success the region
    /// reads back as `roi`.
    pub fn set_region_of_interest(&mut self, roi: Rs2Roi) -> (r: Result<(), RoiSetError>)
        ensures
            match old(self).spec_record().roi_set_reply {
                Ok(_) => {
                    &&& r is Ok
                    &&& final(self).spec_record().roi == Result::<Rs2Roi, Error>::Ok(roi)
                    &&& final(self).spec_record().options == old(self).spec_record().options
                    &&& final(self).spec_record().infos == old(self).spec_record().infos
                    &&& final(self).spec_record().extendable == old(self).spec_record().extendable
                    &&& final(self).spec_record().roi_set_reply == old(
                        self,
                    ).spec_record().roi_set_reply
                    &&& final(self).spec_guard() == old(self).spec_guard()
                },
                Err(ne) => {
                    &&& r == Result::<(), RoiSetError>::Err(
                        RoiSetError::CouldNotSetRoi(ne.exception, ne.message),
                    )
                    &&& *final(self) == *old(self)
                },
            },
    {
        let failed = match &self.record.roi_set_reply {
            Ok(_) => None,
            Err(e) => Some(RoiSetError::CouldNotSetRoi(e.exception, e.error_message())),
        };
        match failed {
            Some(err) => Err(err),
            None => {
                self.record.roi = Ok(roi);
                Ok(())
            },
        }
    }

    /// End the sensor's life: returns the handle the embedder must release
    /// natively — owned sensors only; a borrowed sensor releases nothing.
    pub fn dispose(self) -> (r: Option<NativeHandle>)
        requires
            self.wf(),
        ensures
            self.spec_owned() ==> r == Some(self.spec_handle()),
            !self.spec_owned() ==> r is None,
    {
        let Sensor { guard, .. } = self;
        guard.into_release()
    }
}

/// Whether `tags` contains `tag`.
fn contains_extension(tags: &Vec<Rs2Extension>, tag: Rs2Extension) -> (r: bool)
    ensures
        r == tags@.contains(tag),
{
    let mut i: usize = 0;
    while i < tags.len()
        invariant
            i <= tags@.len(),
            forall|j: int| 0 <= j < i ==> #[trigger] tags@[j] != tag,
        decreases tags@.len() - i,
    {
        if tags[i] == tag {
            return true;
        }
        i += 1;
    }
    false
}

} // verus!
