use orbbec_sdk::error::OrbbecError;
use orbbec_sdk::logger::{Logger, LoggerCallbackHandle};
use orbbec_sdk::sys::enums::OBLogSeverity;
use orbbec_sdk::sys::logger::{
    set_logger_callback, set_logger_console, set_logger_directory, set_logger_severity,
};
use orbbec_sdk::sys::OBError;

fn failure() -> Option<OBError> {
    Some(OBError::new(7, "cannot open", "ob_set_logger_to_file", "directory"))
}

#[test]
fn severity_and_console_follow_the_runtime() {
    assert!(Logger::set_severity(OBLogSeverity::Warn, None).is_ok());
    assert!(Logger::set_console(OBLogSeverity::Debug, None).is_ok());
    assert!(matches!(
        Logger::set_severity(OBLogSeverity::Warn, failure()),
        Err(OrbbecError::IOException(_))
    ));
    assert!(matches!(
        Logger::set_console(OBLogSeverity::Off, failure()),
        Err(OrbbecError::IOException(_))
    ));
}

#[test]
fn directory_is_set_when_the_runtime_takes_it() {
    assert!(Logger::set_directory(OBLogSeverity::Info, Some("/var/log/camera"), None).is_ok());
    assert!(Logger::set_directory(OBLogSeverity::Info, None, None).is_ok());
    let error = Logger::set_directory(OBLogSeverity::Info, Some("/nowhere"), failure()).unwrap_err();
    assert!(matches!(error, OrbbecError::IOException(_)));
    assert_eq!(error.data().message, "cannot open");
}

#[test]
fn directory_with_nul_is_refused() {
    let error = Logger::set_directory(OBLogSeverity::Info, Some("/var\0/log"), None).unwrap_err();
    assert!(matches!(error, OrbbecError::InvalidValue(_)));
    assert_eq!(
        error.data().message,
        "directory contains NUL byte: nul byte found in provided data at position: 4"
    );
    assert_eq!(error.data().function, "Logger::set_directory");
    assert_eq!(error.data().args, "directory");
    let error = Logger::set_directory(OBLogSeverity::Info, Some("\0"), failure()).unwrap_err();
    assert!(matches!(error, OrbbecError::InvalidValue(_)));
}

#[test]
fn callback_handle_keeps_the_severity() {
    let handle = Logger::set_callback(OBLogSeverity::Error, None).unwrap();
    assert_eq!(handle.severity, OBLogSeverity::Error);
    assert!(handle.release(None).is_ok());
    assert!(matches!(
        Logger::set_callback(OBLogSeverity::Error, failure()),
        Err(OrbbecError::IOException(_))
    ));
    let handle = Logger::set_callback(OBLogSeverity::Info, None).unwrap();
    assert!(matches!(handle.release(failure()), Err(OrbbecError::IOException(_))));
}

#[test]
fn callback_is_handed_severity_and_message() {
    let message = LoggerCallbackHandle::message(2, Some("frame dropped")).unwrap();
    assert_eq!(message.severity, OBLogSeverity::Warn);
    assert_eq!(message.message, "frame dropped");
    let empty = LoggerCallbackHandle::message(4, None).unwrap();
    assert_eq!(empty.severity, OBLogSeverity::Fatal);
    assert_eq!(empty.message, "");
    assert!(LoggerCallbackHandle::message(17, Some("x")).is_none());
}

#[test]
fn native_logger_calls_follow_the_slot() {
    assert!(set_logger_severity(OBLogSeverity::Info, None).is_ok());
    assert!(set_logger_console(OBLogSeverity::Info, None).is_ok());
    assert!(set_logger_directory(OBLogSeverity::Info, "logs", None).is_ok());
    assert!(set_logger_callback(OBLogSeverity::Info, true, None).is_ok());
    assert!(set_logger_severity(OBLogSeverity::Info, failure()).is_err());
    assert!(set_logger_console(OBLogSeverity::Info, failure()).is_err());
    assert!(set_logger_directory(OBLogSeverity::Info, "logs", failure()).is_err());
    assert_eq!(set_logger_callback(OBLogSeverity::Off, false, failure()).unwrap_err().message(), "cannot open");
}
