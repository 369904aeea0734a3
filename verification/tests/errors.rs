use orbbec_sdk::error::{OrbbecError, OrbbecErrorData};
use orbbec_sdk::sys::enums::OBExceptionType;
use orbbec_sdk::sys::OBError;

fn native(code: i32) -> OBError {
    OBError::new(code, "device gone", "ob_pipeline_wait_for_frameset", "timeout_ms: 100")
}

fn data(message: &str) -> OrbbecErrorData {
    OrbbecErrorData {
        message: message.to_string(),
        function: "f".to_string(),
        args: "a".to_string(),
    }
}

#[test]
fn native_error_keeps_its_texts() {
    let error = native(2);
    assert_eq!(error.exception_type(), OBExceptionType::CameraDisconnected);
    assert_eq!(error.message(), "device gone");
    assert_eq!(error.function(), "ob_pipeline_wait_for_frameset");
    assert_eq!(error.args(), "timeout_ms: 100");
}

#[test]
fn native_error_of_unknown_code_is_unknown() {
    assert_eq!(native(77).exception_type(), OBExceptionType::Unknown);
    assert_eq!(native(-3).exception_type(), OBExceptionType::Unknown);
}

#[test]
fn empty_slot_is_success() {
    assert!(OBError::consume(None).is_ok());
}

#[test]
fn filled_slot_is_the_error() {
    let error = OBError::consume(Some(native(4))).unwrap_err();
    assert_eq!(error.exception_type(), OBExceptionType::InvalidValue);
    assert_eq!(error.message(), "device gone");
}

#[test]
fn conversion_keeps_kind_and_texts() {
    let kinds = [
        OBExceptionType::Unknown,
        OBExceptionType::StdException,
        OBExceptionType::CameraDisconnected,
        OBExceptionType::PlatformException,
        OBExceptionType::InvalidValue,
        OBExceptionType::WrongAPICallSequence,
        OBExceptionType::NotImplemented,
        OBExceptionType::IOException,
        OBExceptionType::MemoryException,
        OBExceptionType::UnsupportedOperation,
    ];
    for (code, kind) in kinds.iter().enumerate() {
        let error = OrbbecError::from(native(code as i32));
        assert_eq!(error.kind(), *kind);
        assert_eq!(error.data().message, "device gone");
        assert_eq!(error.data().function, "ob_pipeline_wait_for_frameset");
        assert_eq!(error.data().args, "timeout_ms: 100");
        let again = OrbbecError::from_native(native(code as i32));
        assert_eq!(again.kind(), *kind);
        let borrowed = OrbbecError::from(&native(code as i32));
        assert_eq!(borrowed.kind(), *kind);
        assert_eq!(borrowed.data().message, "device gone");
    }
}

#[test]
fn conversion_picks_the_variant() {
    assert!(matches!(OrbbecError::from(native(0)), OrbbecError::Unknown(_)));
    assert!(matches!(OrbbecError::from(native(1)), OrbbecError::StdException(_)));
    assert!(matches!(OrbbecError::from(native(2)), OrbbecError::CameraDisconnected(_)));
    assert!(matches!(OrbbecError::from(native(3)), OrbbecError::PlatformException(_)));
    assert!(matches!(OrbbecError::from(native(4)), OrbbecError::InvalidValue(_)));
    assert!(matches!(OrbbecError::from(native(5)), OrbbecError::WrongAPICallSequence(_)));
    assert!(matches!(OrbbecError::from(native(6)), OrbbecError::NotImplemented(_)));
    assert!(matches!(OrbbecError::from(native(7)), OrbbecError::IOException(_)));
    assert!(matches!(OrbbecError::from(native(8)), OrbbecError::MemoryException(_)));
    assert!(matches!(OrbbecError::from(native(9)), OrbbecError::UnsupportedOperation(_)));
}

#[test]
fn error_text_names_the_kind() {
    assert_eq!(OrbbecError::Unknown(data("m")).to_string(), "Unknown Error: m");
    assert_eq!(OrbbecError::StdException(data("m")).to_string(), "Standard Exception: m");
    assert_eq!(OrbbecError::CameraDisconnected(data("m")).to_string(), "Camera Disconnected: m");
    assert_eq!(OrbbecError::PlatformException(data("m")).to_string(), "Platform Exception: m");
    assert_eq!(OrbbecError::InvalidValue(data("m")).to_string(), "Invalid Value: m");
    assert_eq!(
        OrbbecError::WrongAPICallSequence(data("m")).to_string(),
        "Wrong API Call Sequence: m"
    );
    assert_eq!(OrbbecError::NotImplemented(data("m")).to_string(), "Not Implemented: m");
    assert_eq!(OrbbecError::IOException(data("m")).to_string(), "I/O Exception: m");
    assert_eq!(OrbbecError::MemoryException(data("m")).to_string(), "Memory Exception: m");
    assert_eq!(
        OrbbecError::UnsupportedOperation(data("m")).to_string(),
        "Unsupported Operation: m"
    );
}

#[test]
fn error_text_of_empty_message_is_the_label() {
    assert_eq!(OrbbecError::InvalidValue(data("")).to_string(), "Invalid Value: ");
}
