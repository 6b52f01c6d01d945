//! The native library's exception categories.

use vstd::prelude::*;

verus! {

/// How many exception-category codes the native table defines.
pub const EXCEPTION_COUNT: i32 = 8;

/// The category tag the native library attaches to a reported error.
///
/// Every failure surfaced by this crate carries one of these alongside the
/// native library's human-readable message.
#[derive(Clone, Copy, Debug, PartialEq, Eq, Hash, Structural)]
pub enum Rs2Exception {
    /// The error does not fall under any other category.
    Unknown,
    /// The device was disconnected mid-call.
    CameraDisconnected,
    /// An error in the platform backend (USB, video layer).
    Backend,
    /// An argument was outside the range the call accepts.
    InvalidValue,
    /// The call is not legal in the object's current state.
    WrongApiCallSequence,
    /// The requested feature is not implemented.
    NotImplemented,
    /// The device is in recovery (firmware-update) mode.
    DeviceInRecoveryMode,
    /// An input/output failure.
    Io,
}

impl Rs2Exception {
    /// The native integer code of this variant.
    pub open spec fn code(self) -> i32 {
        match self {
            Rs2Exception::Unknown => 0,
            Rs2Exception::CameraDisconnected => 1,
            Rs2Exception::Backend => 2,
            Rs2Exception::InvalidValue => 3,
            Rs2Exception::WrongApiCallSequence => 4,
            Rs2Exception::NotImplemented => 5,
            Rs2Exception::DeviceInRecoveryMode => 6,
            Rs2Exception::Io => 7,
        }
    }

    /// The variant the native code `i` names, if any.
    pub open spec fn spec_from_i32(i: i32) -> Option<Rs2Exception> {
        if i == 0 {
            Some(Rs2Exception::Unknown)
        } else if i == 1 {
            Some(Rs2Exception::CameraDisconnected)
        } else if i == 2 {
            Some(Rs2Exception::Backend)
        } else if i == 3 {
            Some(Rs2Exception::InvalidValue)
        } else if i == 4 {
            Some(Rs2Exception::WrongApiCallSequence)
        } else if i == 5 {
            Some(Rs2Exception::NotImplemented)
        } else if i == 6 {
            Some(Rs2Exception::DeviceInRecoveryMode)
        } else if i == 7 {
            Some(Rs2Exception::Io)
        } else {
            None
        }
    }

    /// Convert this variant to its native integer code.
    pub fn to_i32(self) -> (r: i32)
        ensures
            r == self.code(),
    {
        match self {
            Rs2Exception::Unknown => 0,
            Rs2Exception::CameraDisconnected => 1,
            Rs2Exception::Backend => 2,
            Rs2Exception::InvalidValue => 3,
            Rs2Exception::WrongApiCallSequence => 4,
            Rs2Exception::NotImplemented => 5,
            Rs2Exception::DeviceInRecoveryMode => 6,
            Rs2Exception::Io => 7,
        }
    }

    /// Recover a variant from its native integer code.
    pub fn from_i32(i: i32) -> (r: Option<Rs2Exception>)
        ensures
            r == Rs2Exception::spec_from_i32(i),
    {
        match i {
            0 => Some(Rs2Exception::Unknown),
            1 => Some(Rs2Exception::CameraDisconnected),
            2 => Some(Rs2Exception::Backend),
            3 => Some(Rs2Exception::InvalidValue),
            4 => Some(Rs2Exception::WrongApiCallSequence),
            5 => Some(Rs2Exception::NotImplemented),
            6 => Some(Rs2Exception::DeviceInRecoveryMode),
            7 => Some(Rs2Exception::Io),
            _ => None,
        }
    }

    /// A fixed printable name for this category.
    pub fn as_str(self) -> (r: &'static str)
        ensures
            self is Unknown ==> r@ == "unknown error"@,
            self is CameraDisconnected ==> r@ == "camera disconnected"@,
            self is Backend ==> r@ == "backend error"@,
            self is InvalidValue ==> r@ == "invalid value"@,
            self is WrongApiCallSequence ==> r@ == "wrong API call sequence"@,
            self is NotImplemented ==> r@ == "not implemented"@,
            self is DeviceInRecoveryMode ==> r@ == "device in recovery mode"@,
            self is Io ==> r@ == "input/output error"@,
    {
        match self {
            Rs2Exception::Unknown => "unknown error",
            Rs2Exception::CameraDisconnected => "camera disconnected",
            Rs2Exception::Backend => "backend error",
            Rs2Exception::InvalidValue => "invalid value",
            Rs2Exception::WrongApiCallSequence => "wrong API call sequence",
            Rs2Exception::NotImplemented => "not implemented",
            Rs2Exception::DeviceInRecoveryMode => "device in recovery mode",
            Rs2Exception::Io => "input/output error",
        }
    }
}

/// The exception table is a bijection on `0..EXCEPTION_COUNT`.
pub proof fn lemma_exception_codes_complete()
    ensures
        forall|i: i32|
            0 <= i < EXCEPTION_COUNT ==> {
                &&& #[trigger] Rs2Exception::spec_from_i32(i) is Some
                &&& Rs2Exception::spec_from_i32(i)->Some_0.code() == i
            },
        forall|e: Rs2Exception| Rs2Exception::spec_from_i32(#[trigger] e.code()) == Some(e),
{
}

} // verus!
