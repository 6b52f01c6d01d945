use realsense_rust::error::Error;
use realsense_rust::error::ErrorChecker;
use realsense_rust::handle::HandleGuard;
use realsense_rust::handle::NativeHandle;
use realsense_rust::kind::Rs2Exception;

fn handle(addr: u64) -> NativeHandle {
    NativeHandle::new(addr).unwrap()
}

#[test]
fn null_handles_are_refused() {
    assert!(NativeHandle::new(0).is_none());
    assert_eq!(handle(0x1000).addr(), 0x1000);
}

#[test]
fn error_checker_empty_slot_is_success() {
    let checker = ErrorChecker::new();
    assert!(checker.check().is_ok());
}

#[test]
fn error_checker_filled_slot_yields_the_error() {
    let mut checker = ErrorChecker::new();
    checker.report(Error::new(
        Rs2Exception::CameraDisconnected,
        String::from("device unplugged"),
    ));
    let e = checker.check().unwrap_err();
    assert_eq!(e.exception(), Rs2Exception::CameraDisconnected);
    assert_eq!(e.error_message(), "device unplugged");
}

#[test]
fn owned_guard_releases_exactly_once() {
    // The release-call counter of the test double: every handle a guard
    // says must be released is collected here.
    let mut released: Vec<u64> = Vec::new();
    let guard = HandleGuard::own(handle(7));
    assert!(guard.is_owned());
    if let Some(h) = guard.into_release() {
        released.push(h.addr());
    }
    assert_eq!(released, vec![7]);
}

#[test]
fn borrowed_guard_never_releases() {
    let mut released: Vec<u64> = Vec::new();
    let guard = HandleGuard::borrow(handle(9));
    assert!(!guard.is_owned());
    if let Some(h) = guard.into_release() {
        released.push(h.addr());
    }
    assert!(released.is_empty());
}

#[test]
fn transfer_out_disarms_the_guard() {
    let mut released: Vec<u64> = Vec::new();
    let mut guard = HandleGuard::own(handle(11));
    let raw = guard.transfer_out();
    assert_eq!(raw.addr(), 11);
    assert!(!guard.is_owned());
    if let Some(h) = guard.into_release() {
        released.push(h.addr());
    }
    assert!(released.is_empty());
}
