//! Logger configuration and callbacks.
use vstd::prelude::*;
use crate::sys::enums::OBLogSeverity;
use crate::sys::OBError;

verus! {

/// Set the global log severity: `error` is what the runtime left in the error
/// slot.
pub fn set_logger_severity(severity: OBLogSeverity, error: Option<OBError>) -> (r: Result<(), OBError>)
    ensures
        error is None ==> r is Ok,
        error is Some ==> r == Err::<(), OBError>(error->0),
{
    OBError::consume(error)
}

/// Set the logger to output to a file with the given log severity and
/// directory: `error` is what the runtime left in the error slot.
pub fn set_logger_directory(severity: OBLogSeverity, directory: &str, error: Option<OBError>) -> (r: Result<
    (),
    OBError,
>)
    ensures
        error is None ==> r is Ok,
        error is Some ==> r == Err::<(), OBError>(error->0),
{
    OBError::consume(error)
}

/// Set the logger to call a callback with the given log severity, or to call
/// none where `registered` is `false`: `error` is what the runtime left in the
/// error slot.
pub fn set_logger_callback(severity: OBLogSeverity, registered: bool, error: Option<OBError>) -> (r: Result<
    (),
    OBError,
>)
    ensures
        error is None ==> r is Ok,
        error is Some ==> r == Err::<(), OBError>(error->0),
{
    OBError::consume(error)
}

/// Set the logger to output to the console with the given log severity:
/// `error` is what the runtime left in the error slot.
pub fn set_logger_console(severity: OBLogSeverity, error: Option<OBError>) -> (r: Result<(), OBError>)
    ensures
        error is None ==> r is Ok,
        error is Some ==> r == Err::<(), OBError>(error->0),
{
    OBError::consume(error)
}

} // verus!
