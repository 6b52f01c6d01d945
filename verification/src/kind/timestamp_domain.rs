//! The clock reference a frame's timestamp is expressed in.

use vstd::prelude::*;

verus! {

/// How many timestamp-domain codes the native table defines.
pub const TIMESTAMP_DOMAIN_COUNT: i32 = 3;

/// The clock reference a frame's capture timestamp is expressed in.
#[derive(Clone, Copy, Debug, PartialEq, Eq, Hash, Structural)]
pub enum Rs2TimestampDomain {
    /// The timestamp is measured against the device's internal clock.
    HardwareClock,
    /// The timestamp is measured against the host system clock.
    SystemTime,
    /// The timestamp was taken on the device's clock and converted to the
    /// host system clock by measuring the offset between the two.
    GlobalTime,
}

impl Rs2TimestampDomain {
    /// The native integer code of this variant.
    pub open spec fn code(self) -> i32 {
        match self {
            Rs2TimestampDomain::HardwareClock => 0,
            Rs2TimestampDomain::SystemTime => 1,
            Rs2TimestampDomain::GlobalTime => 2,
        }
    }

    /// The variant the native code `i` names, if any.
    pub open spec fn spec_from_i32(i: i32) -> Option<Rs2TimestampDomain> {
        if i == 0 {
            Some(Rs2TimestampDomain::HardwareClock)
        } else if i == 1 {
            Some(Rs2TimestampDomain::SystemTime)
        } else if i == 2 {
            Some(Rs2TimestampDomain::GlobalTime)
        } else {
            None
        }
    }

    /// Convert this variant to its native integer code.
    pub fn to_i32(self) -> (r: i32)
        ensures
            r == self.code(),
    {
        match self {
            Rs2TimestampDomain::HardwareClock => 0,
            Rs2TimestampDomain::SystemTime => 1,
            Rs2TimestampDomain::GlobalTime => 2,
        }
    }

    /// Recover a variant from its native integer code.
    pub fn from_i32(i: i32) -> (r: Option<Rs2TimestampDomain>)
        ensures
            r == Rs2TimestampDomain::spec_from_i32(i),
    {
        match i {
            0 => Some(Rs2TimestampDomain::HardwareClock),
            1 => Some(Rs2TimestampDomain::SystemTime),
            2 => Some(Rs2TimestampDomain::GlobalTime),
            _ => None,
        }
    }

    /// The fixed name the native library prints for this domain.
    pub fn as_str(self) -> (r: &'static str)
        ensures
            self is HardwareClock ==> r@ == "Hardware Clock"@,
            self is SystemTime ==> r@ == "System Time"@,
            self is GlobalTime ==> r@ == "Global Time"@,
    {
        match self {
            Rs2TimestampDomain::HardwareClock => "Hardware Clock",
            Rs2TimestampDomain::SystemTime => "System Time",
            Rs2TimestampDomain::GlobalTime => "Global Time",
        }
    }
}

/// Every code below [`TIMESTAMP_DOMAIN_COUNT`] names a variant, and
/// converting a variant back to a code is the identity: the table is a
/// bijection on `0..TIMESTAMP_DOMAIN_COUNT`.
pub proof fn lemma_timestamp_domain_codes_complete()
    ensures
        forall|i: i32|
            0 <= i < TIMESTAMP_DOMAIN_COUNT ==> {
                &&& #[trigger] Rs2TimestampDomain::spec_from_i32(i) is Some
                &&& Rs2TimestampDomain::spec_from_i32(i)->Some_0.code() == i
            },
        forall|d: Rs2TimestampDomain|
            Rs2TimestampDomain::spec_from_i32(#[trigger] d.code()) == Some(d),
{
}

} // verus!
