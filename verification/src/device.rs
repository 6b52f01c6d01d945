//! The wrapper for one device.
//!
//! A device is a complete unit plugged into the host; its individual
//! sensing components are [`crate::sensor::Sensor`]s. A device handle is
//! always owned: devices are only created by indexing a device list, and
//! that creation step always takes ownership.

use crate::error::Error;
use crate::handle::HandleGuard;
use crate::handle::NativeHandle;
use crate::kind::Rs2CameraInfo;
use crate::kind::Rs2Exception;
use crate::native::find_info;
use crate::native::spec_info;
use crate::native::spec_supports_info;
use crate::native::DeviceItem;
use crate::native::DeviceRecord;
use crate::native::SensorItem;
use crate::native::SensorsReply;
use crate::sensor::Sensor;
use vstd::prelude::*;

verus! {

/// Why constructing a device failed.
#[derive(Clone, Debug)]
pub enum DeviceConstructionError {
    /// The device that a sensor belongs to could not be reconstructed;
    /// carries the native exception category and message.
    CouldNotCreateDeviceFromSensor(Rs2Exception, String),
    /// The device could not be taken out of the device list; carries the
    /// native exception category and message.
    CouldNotGetDeviceFromDeviceList(Rs2Exception, String),
}

/// The sensor items an enumeration pass keeps: exactly the per-index
/// answers that succeeded, in order. Failed indices are skipped,
/// best-effort.
pub open spec fn kept_sensors(s: Seq<Result<SensorItem, Error>>) -> Seq<SensorItem>
    decreases s.len(),
{
    if s.len() == 0 {
        Seq::empty()
    } else {
        kept_sensors(s.drop_last()) + (if s.last() is Ok {
            seq![s.last()->Ok_0]
        } else {
            Seq::empty()
        })
    }
}

/// A device, together with the stable state the SDK answers its advisory
/// queries from.
pub struct Device {
    guard: HandleGuard,
    record: DeviceRecord,
}

impl Device {
    /// The device's handle.
    pub closed spec fn spec_handle(&self) -> NativeHandle {
        self.guard.spec_handle()
    }

    /// Whether this wrapper releases the handle at the end of its life;
    /// always true for a device.
    pub closed spec fn spec_owned(&self) -> bool {
        self.guard.spec_owned()
    }

    /// The device's guard, for stating the release discipline.
    pub closed spec fn spec_guard(&self) -> HandleGuard {
        self.guard
    }

    /// The device's stable state.
    pub closed spec fn spec_record(&self) -> DeviceRecord {
        self.record
    }

    /// A device is well-formed when its guard is and it owns its handle.
    pub open spec fn wf(&self) -> bool {
        &&& self.spec_guard().wf()
        &&& self.spec_handle() == self.spec_guard().spec_handle()
        &&& self.spec_owned()
    }

    /// Wrap a device the SDK handed out, taking ownership of its handle.
    pub fn from_item(item: DeviceItem) -> (r: Device)
        requires
            item.wf(),
        ensures
            r.wf(),
            r.spec_owned(),
            r.spec_handle() == item.handle,
            r.spec_record() == item.record,
    {
        Device { guard: HandleGuard::own(item.handle), record: item.record }
    }

    /// Build a device from one per-index answer of a device-list
    /// enumeration.
    ///
    /// Fails with
    /// [`DeviceConstructionError::CouldNotGetDeviceFromDeviceList`] exactly
    /// when the native creation call failed (an invalid index or a stale
    /// list); otherwise the device owns its handle.
    pub fn try_create(reply: Result<DeviceItem, Error>) -> (r: Result<
        Device,
        DeviceConstructionError,
    >)
        requires
            reply matches Ok(it) ==> it.wf(),
        ensures
            match r {
                Ok(d) => {
                    &&& reply matches Ok(it)
                    &&& d.wf()
                    &&& d.spec_owned()
                    &&& d.spec_handle() == it.handle
                    &&& d.spec_record() == it.record
                },
                Err(e) => {
                    &&& reply matches Err(ne)
                    &&& e == DeviceConstructionError::CouldNotGetDeviceFromDeviceList(
                        ne.exception,
                        ne.message,
                    )
                },
            },
    {
        match reply {
            Ok(it) => Ok(Device::from_item(it)),
            Err(e) => Err(
                DeviceConstructionError::CouldNotGetDeviceFromDeviceList(e.exception, e.message),
            ),
        }
    }

    /// All sensors an enumeration pass could construct, in order, each
    /// owning its handle.
    ///
    /// A failure of the list query or of the count — including a physical
    /// disconnection mid-call — degrades to an empty result, and a failed
    /// index is skipped: enumeration is best-effort and never an error.
    pub fn sensors(&self, reply: SensorsReply) -> (r: Vec<Sensor>)
        requires
            reply.wf(),
        ensures
            reply.query is Err ==> r@.len() == 0,
            reply.query is Ok && reply.count is Err ==> r@.len() == 0,
            reply.query is Ok && reply.count is Ok ==> {
                let kept = kept_sensors(reply.elements@);
                &&& r@.len() == kept.len()
                &&& forall|k: int|
                    0 <= k < kept.len() ==> {
                        &&& (#[trigger] r@[k]).wf()
                        &&& r@[k].spec_owned()
                        &&& r@[k].spec_handle() == kept[k].handle
                        &&& r@[k].spec_record() == kept[k].record
                    }
            },
    {
        let mut out: Vec<Sensor> = Vec::new();
        if reply.query.is_err() {
            return out;
        }
        if reply.count.is_err() {
            return out;
        }
        let mut elements = reply.elements;
        let total = elements.len();
        let ghost all = elements@;
        let mut taken: usize = 0;
        proof {
            assert(all.subrange(0, 0) =~= Seq::<Result<SensorItem, Error>>::empty());
            assert(elements@ =~= all.subrange(0, all.len() as int));
        }
        while elements.len() > 0
            invariant
                taken <= all.len(),
                all.len() == total,
                elements@ == all.subrange(taken as int, all.len() as int),
                out@.len() == kept_sensors(all.subrange(0, taken as int)).len(),
                forall|k: int|
                    0 <= k < out@.len() ==> {
                        let kept = kept_sensors(all.subrange(0, taken as int));
                        &&& (#[trigger] out@[k]).wf()
                        &&& out@[k].spec_owned()
                        &&& out@[k].spec_handle() == kept[k].handle
                        &&& out@[k].spec_record() == kept[k].record
                    },
                forall|i: int|
                    0 <= i < all.len() ==> (#[trigger] all[i] matches Ok(item) ==> item.wf()),
            decreases elements@.len(),
        {
            let element = elements.remove(0);
            proof {
                assert(all[taken as int] == element);
                assert(elements@ =~= all.subrange(taken as int + 1, all.len() as int));
                let prefix = all.subrange(0, taken as int);
                let next = all.subrange(0, taken as int + 1);
                assert(next.drop_last() =~= prefix);
                assert(next.last() == element);
            }
            match Sensor::try_create(element) {
                Ok(sensor) => {
                    out.push(sensor);
                },
                Err(_) => {},
            }
            proof {
                assert(taken < all.len());
            }
            taken += 1;
        }
        proof {
            assert(all.subrange(0, taken as int) =~= all);
        }
        out
    }

    /// Force a hardware reset.
    ///
    /// Consumes the device: after the reset call its handle must not be
    /// used either way, so no binding to it can remain. Returns the handle
    /// so the embedder can issue the native reset and then release it —
    /// the error slot of the reset call is deliberately not consulted,
    /// because the handle is being abandoned whatever the outcome.
    pub fn hardware_reset(self) -> (r: NativeHandle)
        requires
            self.wf(),
        ensures
            r == self.spec_handle(),
    {
        let Device { guard, .. } = self;
        let mut guard = guard;
        let handle = guard.transfer_out();
        let released = guard.into_release();
        proof {
            assert(released is None);
        }
        handle
    }

    /// The device's value for the camera-info key, or `None` where the key
    /// is unsupported or the native read failed. Info queries are advisory
    /// and never an error.
    pub fn info(&self, camera_info: Rs2CameraInfo) -> (r: Option<String>)
        ensures
            r == spec_info(self.spec_record().infos@, camera_info),
    {
        match find_info(&self.record.infos, camera_info) {
            Some(i) => match &self.record.infos[i].value {
                Ok(text) => Some(text.clone()),
                Err(_) => None,
            },
            None => None,
        }
    }

    /// Whether the device has a value for the camera-info key.
    pub fn supports_info(&self, camera_info: Rs2CameraInfo) -> (r: bool)
        ensures
            r == spec_supports_info(self.spec_record().infos@, camera_info),
    {
        find_info(&self.record.infos, camera_info).is_some()
    }

    /// Switch realtime playback on or off.
    ///
    /// True exactly when the native call succeeded; a failure is swallowed
    /// into `false`.
    pub fn set_real_time(&self, realtime: bool) -> (r: bool)
        ensures
            r == (self.spec_record().realtime_reply is Ok),
    {
        let _ = realtime;
        self.record.realtime_reply.is_ok()
    }

    /// End the device's life: returns the handle the embedder must release
    /// natively. A device always owns its handle.
    pub fn dispose(self) -> (r: Option<NativeHandle>)
        requires
            self.wf(),
        ensures
            r == Some(self.spec_handle()),
    {
        let Device { guard, .. } = self;
        guard.into_release()
    }
}

} // verus!
