//! Context management and device enumeration
use vstd::prelude::*;
use crate::sys::device::{DeviceView, OBDeviceList};
use crate::sys::OBError;

verus! {

/// Context is a management class that describes the runtime of the SDK and is responsible for resource allocation and release of the SDK.
/// Context has the ability to manage multiple devices. It is responsible for enumerating devices, monitoring device callbacks, and enabling multi-device synchronization.
#[derive(Debug)]
pub struct OBContext {
}

impl OBContext {
    /// Create a context object with the default configuration file: `error` is
    /// what the runtime left in the error slot.
    pub fn new(error: Option<OBError>) -> (r: Result<Self, OBError>)
        ensures
            error is None ==> r is Ok,
            error is Some ==> r == Err::<OBContext, OBError>(error->0),
    {
        match OBError::consume(error) {
            Ok(()) => Ok(OBContext {  }),
            Err(e) => Err(e),
        }
    }

    /// Get a list of enumerated devices: `listed` is the list that the runtime
    /// handed over, `error` what it left in the error slot. A list that came
    /// with an error is not looked at.
    pub fn query_device_list(&self, listed: OBDeviceList, error: Option<OBError>) -> (r: Result<
        OBDeviceList,
        OBError,
    >)
        ensures
            error is None ==> r == Ok::<OBDeviceList, OBError>(listed),
            error is Some ==> r == Err::<OBDeviceList, OBError>(error->0),
    {
        match OBError::consume(error) {
            Ok(()) => Ok(listed),
            Err(e) => Err(e),
        }
    }
}

} // verus!
