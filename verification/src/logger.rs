//! Logger configuration and callbacks.
use vstd::prelude::*;
use vstd::string::*;
use crate::error::{OrbbecError, OrbbecErrorData};
use crate::sys::enums::{OBExceptionType, OBLogSeverity};
use crate::sys::logger::{
    set_logger_callback,
    set_logger_console,
    set_logger_directory,
    set_logger_severity,
};
use crate::sys::{ErrorView, OBError};
use crate::text::{first_nul, is_first_nul, nul_error_message, nul_error_text, nul_free};

verus! {

/// Handle that keeps a logger callback alive.
///
/// The callback remains valid only while this handle is alive!
#[must_use]
#[derive(Debug)]
pub struct LoggerCallbackHandle {
    pub severity: OBLogSeverity,
}

/// One message of the log, as the callback is handed it.
#[derive(Debug)]
pub struct LogMessage {
    pub severity: OBLogSeverity,
    pub message: String,
}

impl LoggerCallbackHandle {
    /// What is handed to the callback when the runtime logs: the severity that
    /// `severity_code` stands for, with the message, or with the empty message
    /// where the runtime gave none. A code that stands for no severity gives
    /// nothing to hand on.
    pub fn message(severity_code: i32, message: Option<&str>) -> (r: Option<LogMessage>)
        ensures
            OBLogSeverity::of_code(severity_code) is None ==> r is None,
            OBLogSeverity::of_code(severity_code) is Some ==> {
                &&& r is Some
                &&& r->0.severity == OBLogSeverity::of_code(severity_code)->0
                &&& message is Some ==> r->0.message@ == message->0@
                &&& message is None ==> r->0.message@ == Seq::<char>::empty()
            },
    {
        match OBLogSeverity::from_code(severity_code) {
            Some(severity) => {
                let message = match message {
                    Some(text) => String::from_str(text),
                    None => String::new(),
                };
                Some(LogMessage { severity, message })
            },
            None => None,
        }
    }

    /// Ends the life of the handle and tells the runtime to call no callback
    /// any more: `error` is what the runtime left in the error slot.
    pub fn release(self, error: Option<OBError>) -> (r: Result<(), OrbbecError>)
        ensures
            error is None ==> r is Ok,
            error is Some ==> r is Err && r->Err_0@ == error->0@,
    {
        match set_logger_callback(OBLogSeverity::Off, false, error) {
            Ok(()) => Ok(()),
            Err(e) => Err(OrbbecError::from_native(e)),
        }
    }
}

/// The error for a directory with a zero byte at `position` in its name.
pub open spec fn directory_error(position: nat) -> ErrorView {
    ErrorView {
        kind: OBExceptionType::InvalidValue,
        message: "directory contains NUL byte: "@ + nul_error_text(position),
        function: "Logger::set_directory"@,
        args: "directory"@,
    }
}

/// The bytes of the directory that the runtime is given: those of the name, or
/// none where no directory is named.
pub open spec fn directory_bytes(directory: Option<&str>) -> Seq<u8> {
    match directory {
        Some(path) => path.spec_bytes(),
        None => Seq::empty(),
    }
}

/// Logger configuration utilities.
pub struct Logger;

impl Logger {
    /// Set the global log severity: `error` is what the runtime left in the
    /// error slot.
    pub fn set_severity(severity: OBLogSeverity, error: Option<OBError>) -> (r: Result<(), OrbbecError>)
        ensures
            error is None ==> r is Ok,
            error is Some ==> r is Err && r->Err_0@ == error->0@,
    {
        match set_logger_severity(severity, error) {
            Ok(()) => Ok(()),
            Err(e) => Err(OrbbecError::from_native(e)),
        }
    }

    /// Set log output to the console: `error` is what the runtime left in the
    /// error slot.
    pub fn set_console(severity: OBLogSeverity, error: Option<OBError>) -> (r: Result<(), OrbbecError>)
        ensures
            error is None ==> r is Ok,
            error is Some ==> r is Err && r->Err_0@ == error->0@,
    {
        match set_logger_console(severity, error) {
            Ok(()) => Ok(()),
            Err(e) => Err(OrbbecError::from_native(e)),
        }
    }

    /// Set log output directory: `error` is what the runtime left in the
    /// error slot.
    ///
    /// If `directory` is `None`, the existing settings will continue to be used (if the existing
    /// configuration is also empty, the log will not be output to the file)
    ///
    /// A name with a zero byte in it cannot be handed to the runtime: it is
    /// refused with an error of kind `InvalidValue` that tells where the first
    /// one stands, whatever `error` holds.
    pub fn set_directory(severity: OBLogSeverity, directory: Option<&str>, error: Option<OBError>) -> (r:
        Result<(), OrbbecError>)
        ensures
            !nul_free(directory_bytes(directory)) ==> r is Err && exists|position: int|
                is_first_nul(directory_bytes(directory), position) && r->Err_0@ == directory_error(
                    position as nat,
                ),
            nul_free(directory_bytes(directory)) && error is None ==> r is Ok,
            nul_free(directory_bytes(directory)) && error is Some ==> r is Err && r->Err_0@ == error->0@,
    {
        let dir = match directory {
            Some(path) => path,
            None => {
                proof {
                    reveal_strlit("");
                }
                ""
            },
        };
        assert(dir.spec_bytes() == directory_bytes(directory)) by {
            if directory is None {
                reveal_strlit("");
                vstd::string::is_ascii_spec_bytes(dir);
                assert(dir.spec_bytes() =~= Seq::<u8>::empty());
            }
        }
        match first_nul(dir) {
            Some(position) => {
                assert(is_first_nul(directory_bytes(directory), position as int));
                Err(
                    OrbbecError::InvalidValue(
                        OrbbecErrorData {
                            message: nul_error_message("directory contains NUL byte: ", position),
                            function: String::from_str("Logger::set_directory"),
                            args: String::from_str("directory"),
                        },
                    ),
                )
            },
            None => {
                match set_logger_directory(severity, dir, error) {
                    Ok(()) => Ok(()),
                    Err(e) => Err(OrbbecError::from_native(e)),
                }
            },
        }
    }

    /// Set a log callback: `error` is what the runtime left in the error slot.
    ///
    /// The callback itself is kept by the caller, and remains valid for the
    /// lifetime of the returned handle.
    #[must_use]
    pub fn set_callback(severity: OBLogSeverity, error: Option<OBError>) -> (r: Result<
        LoggerCallbackHandle,
        OrbbecError,
    >)
        ensures
            error is None ==> r is Ok && r->Ok_0.severity == severity,
            error is Some ==> r is Err && r->Err_0@ == error->0@,
    {
        match set_logger_callback(severity, true, error) {
            Ok(()) => Ok(LoggerCallbackHandle { severity }),
            Err(e) => Err(OrbbecError::from_native(e)),
        }
    }
}

} // verus!
