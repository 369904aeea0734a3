use orbbec_sdk::error::OrbbecError;
use orbbec_sdk::sys::device::OBDeviceList;
use orbbec_sdk::sys::OBError;
use orbbec_sdk::{Context, ContextGuard};

#[test]
fn second_context_is_a_wrong_call_sequence() {
    let mut guard = ContextGuard::new();
    assert!(!guard.is_created());
    let first = Context::new(&mut guard, None).unwrap();
    assert!(guard.is_created());

    let second = Context::new(&mut guard, None).unwrap_err();
    assert!(matches!(second, OrbbecError::WrongAPICallSequence(_)));
    assert_eq!(second.data().message, "A context has already been created");
    assert_eq!(second.data().function, "Context::new");
    assert_eq!(second.data().args, "");
    assert_eq!(second.to_string(), "Wrong API Call Sequence: A context has already been created");

    first.release(&mut guard);
    assert!(!guard.is_created());
    let third = Context::new(&mut guard, None);
    assert!(third.is_ok());
    assert!(guard.is_created());
}

#[test]
fn second_context_does_not_ask_the_runtime() {
    let mut guard = ContextGuard::new();
    let _first = Context::new(&mut guard, None).unwrap();
    let failure = OBError::new(7, "io", "ob_create_context", "");
    let second = Context::new(&mut guard, Some(failure)).unwrap_err();
    assert!(matches!(second, OrbbecError::WrongAPICallSequence(_)));
}

#[test]
fn context_error_of_the_runtime_is_handed_on() {
    let mut guard = ContextGuard::new();
    let failure = OBError::new(8, "out of memory", "ob_create_context", "");
    let error = Context::new(&mut guard, Some(failure)).unwrap_err();
    assert!(matches!(error, OrbbecError::MemoryException(_)));
    assert_eq!(error.data().message, "out of memory");
    assert!(!guard.is_created());
}

#[test]
fn failed_creation_leaves_the_place_free() {
    let mut guard = ContextGuard::new();
    let failure = OBError::new(3, "no usb", "ob_create_context", "");
    assert!(Context::new(&mut guard, Some(failure)).is_err());
    let context = Context::new(&mut guard, None);
    assert!(context.is_ok());
    assert!(guard.is_created());
}

#[test]
fn guard_is_claimed_once() {
    let mut guard = ContextGuard::new();
    assert!(guard.try_claim());
    assert!(!guard.try_claim());
    assert!(guard.is_created());
    guard.release();
    assert!(!guard.is_created());
    assert!(guard.try_claim());
}

#[test]
fn device_list_error_is_handed_on() {
    let mut guard = ContextGuard::new();
    let context = Context::new(&mut guard, None).unwrap();
    let failure = OBError::new(3, "usb", "ob_query_device_list", "");
    let error = context.query_device_list(OBDeviceList::new(0), Some(failure));
    assert!(matches!(error, Err(OrbbecError::PlatformException(_))));
}
