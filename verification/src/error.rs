//! Error module
use vstd::prelude::*;
use vstd::std_specs::convert::FromSpecImpl;
use vstd::string::*;
use crate::sys::enums::OBExceptionType;
use crate::sys::{ErrorView, OBError};

verus! {

/// Detailed error information
#[derive(Debug)]
pub struct OrbbecErrorData {
    /// Detailed error log
    pub message: String,
    /// Function where the error occurred
    pub function: String,
    /// Arguments passed to the function
    pub args: String,
}

/// Orbbec errors
#[derive(Debug)]
pub enum OrbbecError {
    /// Unknown error, an error not clearly defined by the SDK
    Unknown(OrbbecErrorData),
    /// Standard exception, an error caused by the standard library (cpp)
    StdException(OrbbecErrorData),
    /// Camera/Device has been disconnected, the camera/device is not available
    CameraDisconnected(OrbbecErrorData),
    /// An error in the SDK adaptation platform layer, which means an error in the implementation of a specific system platform
    PlatformException(OrbbecErrorData),
    /// Invalid parameter type exception, need to check input parameter
    InvalidValue(OrbbecErrorData),
    /// Wrong API call sequence, the API is called in the wrong order or the wrong parameter is passed
    WrongAPICallSequence(OrbbecErrorData),
    /// SDK and firmware have not yet implemented this function or feature
    NotImplemented(OrbbecErrorData),
    /// SDK access I/O exception error
    IOException(OrbbecErrorData),
    /// SDK access and use memory errors. For example, the frame fails to allocate memory
    MemoryException(OrbbecErrorData),
    /// Unsupported operation type error by SDK or device
    UnsupportedOperation(OrbbecErrorData),
}

impl OrbbecError {
    /// The kind of this error.
    pub open spec fn spec_kind(&self) -> OBExceptionType {
        match self {
            OrbbecError::Unknown(_) => OBExceptionType::Unknown,
            OrbbecError::StdException(_) => OBExceptionType::StdException,
            OrbbecError::CameraDisconnected(_) => OBExceptionType::CameraDisconnected,
            OrbbecError::PlatformException(_) => OBExceptionType::PlatformException,
            OrbbecError::InvalidValue(_) => OBExceptionType::InvalidValue,
            OrbbecError::WrongAPICallSequence(_) => OBExceptionType::WrongAPICallSequence,
            OrbbecError::NotImplemented(_) => OBExceptionType::NotImplemented,
            OrbbecError::IOException(_) => OBExceptionType::IOException,
            OrbbecError::MemoryException(_) => OBExceptionType::MemoryException,
            OrbbecError::UnsupportedOperation(_) => OBExceptionType::UnsupportedOperation,
        }
    }

    /// The details that this error carries.
    pub open spec fn spec_data(&self) -> OrbbecErrorData {
        match self {
            OrbbecError::Unknown(data) => *data,
            OrbbecError::StdException(data) => *data,
            OrbbecError::CameraDisconnected(data) => *data,
            OrbbecError::PlatformException(data) => *data,
            OrbbecError::InvalidValue(data) => *data,
            OrbbecError::WrongAPICallSequence(data) => *data,
            OrbbecError::NotImplemented(data) => *data,
            OrbbecError::IOException(data) => *data,
            OrbbecError::MemoryException(data) => *data,
            OrbbecError::UnsupportedOperation(data) => *data,
        }
    }

    /// The error of the given kind with the given details.
    pub open spec fn spec_of(kind: OBExceptionType, data: OrbbecErrorData) -> OrbbecError {
        match kind {
            OBExceptionType::Unknown => OrbbecError::Unknown(data),
            OBExceptionType::StdException => OrbbecError::StdException(data),
            OBExceptionType::CameraDisconnected => OrbbecError::CameraDisconnected(data),
            OBExceptionType::PlatformException => OrbbecError::PlatformException(data),
            OBExceptionType::InvalidValue => OrbbecError::InvalidValue(data),
            OBExceptionType::WrongAPICallSequence => OrbbecError::WrongAPICallSequence(data),
            OBExceptionType::NotImplemented => OrbbecError::NotImplemented(data),
            OBExceptionType::IOException => OrbbecError::IOException(data),
            OBExceptionType::MemoryException => OrbbecError::MemoryException(data),
            OBExceptionType::UnsupportedOperation => OrbbecError::UnsupportedOperation(data),
        }
    }

    /// The words with which the text of an error of the given kind begins.
    pub open spec fn label(kind: OBExceptionType) -> Seq<char> {
        match kind {
            OBExceptionType::Unknown => "Unknown Error: "@,
            OBExceptionType::StdException => "Standard Exception: "@,
            OBExceptionType::CameraDisconnected => "Camera Disconnected: "@,
            OBExceptionType::PlatformException => "Platform Exception: "@,
            OBExceptionType::InvalidValue => "Invalid Value: "@,
            OBExceptionType::WrongAPICallSequence => "Wrong API Call Sequence: "@,
            OBExceptionType::NotImplemented => "Not Implemented: "@,
            OBExceptionType::IOException => "I/O Exception: "@,
            OBExceptionType::MemoryException => "Memory Exception: "@,
            OBExceptionType::UnsupportedOperation => "Unsupported Operation: "@,
        }
    }

    /// The kind of this error.
    #[verifier::when_used_as_spec(spec_kind)]
    pub fn kind(&self) -> (r: OBExceptionType)
        ensures
            r == self.spec_kind(),
    {
        match self {
            OrbbecError::Unknown(_) => OBExceptionType::Unknown,
            OrbbecError::StdException(_) => OBExceptionType::StdException,
            OrbbecError::CameraDisconnected(_) => OBExceptionType::CameraDisconnected,
            OrbbecError::PlatformException(_) => OBExceptionType::PlatformException,
            OrbbecError::InvalidValue(_) => OBExceptionType::InvalidValue,
            OrbbecError::WrongAPICallSequence(_) => OBExceptionType::WrongAPICallSequence,
            OrbbecError::NotImplemented(_) => OBExceptionType::NotImplemented,
            OrbbecError::IOException(_) => OBExceptionType::IOException,
            OrbbecError::MemoryException(_) => OBExceptionType::MemoryException,
            OrbbecError::UnsupportedOperation(_) => OBExceptionType::UnsupportedOperation,
        }
    }

    /// The details that this error carries.
    pub fn data(&self) -> (r: &OrbbecErrorData)
        ensures
            *r == self.spec_data(),
    {
        match self {
            OrbbecError::Unknown(data) => data,
            OrbbecError::StdException(data) => data,
            OrbbecError::CameraDisconnected(data) => data,
            OrbbecError::PlatformException(data) => data,
            OrbbecError::InvalidValue(data) => data,
            OrbbecError::WrongAPICallSequence(data) => data,
            OrbbecError::NotImplemented(data) => data,
            OrbbecError::IOException(data) => data,
            OrbbecError::MemoryException(data) => data,
            OrbbecError::UnsupportedOperation(data) => data,
        }
    }

    /// The text of this error for a reader: what kind of error it is, a colon,
    /// and its message.
    pub fn to_string(&self) -> (r: String)
        ensures
            r@ == OrbbecError::label(self.spec_kind()) + self.spec_data().message@,
    {
        let label = match self {
            OrbbecError::Unknown(_) => "Unknown Error: ",
            OrbbecError::StdException(_) => "Standard Exception: ",
            OrbbecError::CameraDisconnected(_) => "Camera Disconnected: ",
            OrbbecError::PlatformException(_) => "Platform Exception: ",
            OrbbecError::InvalidValue(_) => "Invalid Value: ",
            OrbbecError::WrongAPICallSequence(_) => "Wrong API Call Sequence: ",
            OrbbecError::NotImplemented(_) => "Not Implemented: ",
            OrbbecError::IOException(_) => "I/O Exception: ",
            OrbbecError::MemoryException(_) => "Memory Exception: ",
            OrbbecError::UnsupportedOperation(_) => "Unsupported Operation: ",
        };
        String::from_str(label).concat(self.data().message.as_str())
    }
}

impl View for OrbbecError {
    type V = ErrorView;

    open spec fn view(&self) -> ErrorView {
        ErrorView {
            kind: self.spec_kind(),
            message: self.spec_data().message@,
            function: self.spec_data().function@,
            args: self.spec_data().args@,
        }
    }
}

impl From<OBError> for OrbbecError {
    /// The error of this library that says what the runtime's error says: the
    /// same kind and the same three texts.
    fn from(err: OBError) -> (r: Self) {
        OrbbecError::from_native(err)
    }
}

impl<'a> From<&'a OBError> for OrbbecError {
    /// The error of this library that says what the runtime's error says: the
    /// same kind and the same three texts.
    fn from(err: &'a OBError) -> (r: Self) {
        let copy = OBError {
            exception_type: err.exception_type(),
            message: err.message(),
            function: err.function(),
            args: err.args(),
        };
        OrbbecError::from_native(copy)
    }
}

impl<'a> FromSpecImpl<&'a OBError> for OrbbecError {
    open spec fn obeys_from_spec() -> bool {
        true
    }

    open spec fn from_spec(err: &'a OBError) -> Self {
        OrbbecError::of_native(*err)
    }
}

impl FromSpecImpl<OBError> for OrbbecError {
    open spec fn obeys_from_spec() -> bool {
        true
    }

    open spec fn from_spec(err: OBError) -> Self {
        OrbbecError::of_native(err)
    }
}

impl OrbbecError {
    /// The error of this library that says what the runtime's error `err` says.
    pub open spec fn of_native(err: OBError) -> OrbbecError {
        OrbbecError::spec_of(
            err.exception_type,
            OrbbecErrorData { message: err.message, function: err.function, args: err.args },
        )
    }

    /// The error of this library that says what the runtime's error says: the
    /// same kind and the same three texts.
    pub fn from_native(err: OBError) -> (r: OrbbecError)
        ensures
            r == OrbbecError::of_native(err),
            r@ == err@,
    {
        let message = err.message();
        let function = err.function();
        let args = err.args();
        let exception_type = err.exception_type();

        let data = OrbbecErrorData { message, function, args };

        match exception_type {
            OBExceptionType::Unknown => OrbbecError::Unknown(data),
            OBExceptionType::StdException => OrbbecError::StdException(data),
            OBExceptionType::CameraDisconnected => OrbbecError::CameraDisconnected(data),
            OBExceptionType::PlatformException => OrbbecError::PlatformException(data),
            OBExceptionType::InvalidValue => OrbbecError::InvalidValue(data),
            OBExceptionType::WrongAPICallSequence => OrbbecError::WrongAPICallSequence(data),
            OBExceptionType::NotImplemented => OrbbecError::NotImplemented(data),
            OBExceptionType::IOException => OrbbecError::IOException(data),
            OBExceptionType::MemoryException => OrbbecError::MemoryException(data),
            OBExceptionType::UnsupportedOperation => OrbbecError::UnsupportedOperation(data),
        }
    }
}

} // verus!
