//! Plain-data models of the objects that the camera runtime hands out, and of the
//! error slot through which each of its operations reports failure.
use vstd::prelude::*;
use crate::sys::enums::OBExceptionType;

pub mod context;
pub mod device;
pub mod enums;
pub mod filter;
pub mod frame;
pub mod logger;
pub mod pipeline;
pub mod stream;

verus! {

/// A 32-bit float, kept as its bit pattern: two values are equal when their
/// bits are.
#[derive(Debug, Clone, Copy, PartialEq, Eq, Hash, Structural)]
pub struct Float32 {
    pub bits: u32,
}

impl Float32 {
    /// The float with the given bit pattern.
    pub fn from_bits(bits: u32) -> (r: Float32)
        ensures
            r.bits == bits,
    {
        Float32 { bits }
    }

    /// The bit pattern of this float.
    pub fn to_bits(self) -> (r: u32)
        ensures
            r == self.bits,
    {
        self.bits
    }
}

/// A 64-bit float, kept as its bit pattern: two values are equal when their
/// bits are.
#[derive(Debug, Clone, Copy, PartialEq, Eq, Hash, Structural)]
pub struct Float64 {
    pub bits: u64,
}

impl Float64 {
    /// The float with the given bit pattern.
    pub fn from_bits(bits: u64) -> (r: Float64)
        ensures
            r.bits == bits,
    {
        Float64 { bits }
    }

    /// The bit pattern of this float.
    pub fn to_bits(self) -> (r: u64)
        ensures
            r == self.bits,
    {
        self.bits
    }
}

/// What an error says, with its texts as sequences of characters.
pub struct ErrorView {
    pub kind: OBExceptionType,
    pub message: Seq<char>,
    pub function: Seq<char>,
    pub args: Seq<char>,
}

/// What the runtime left in the error slot of an operation that failed.
#[derive(Debug)]
pub struct OBError {
    pub exception_type: OBExceptionType,
    pub message: String,
    pub function: String,
    pub args: String,
}

impl View for OBError {
    type V = ErrorView;

    open spec fn view(&self) -> ErrorView {
        ErrorView {
            kind: self.exception_type,
            message: self.message@,
            function: self.function@,
            args: self.args@,
        }
    }
}

impl OBError {
    /// The error that the runtime reports with the given exception code and texts.
    pub fn new(exception_code: i32, message: &str, function: &str, args: &str) -> (r: OBError)
        ensures
            r@ == (ErrorView {
                kind: OBExceptionType::of_code(exception_code),
                message: message@,
                function: function@,
                args: args@,
            }),
    {
        OBError {
            exception_type: OBExceptionType::from(exception_code),
            message: String::from_str(message),
            function: String::from_str(function),
            args: String::from_str(args),
        }
    }

    /// Detailed error log
    pub fn message(&self) -> (r: String)
        ensures
            r == self.message,
    {
        self.message.clone()
    }

    /// Name of the native function in which the error occurred
    pub fn function(&self) -> (r: String)
        ensures
            r == self.function,
    {
        self.function.clone()
    }

    /// Arguments that were passed to that function
    pub fn args(&self) -> (r: String)
        ensures
            r == self.args,
    {
        self.args.clone()
    }

    /// Type of the exception
    pub fn exception_type(&self) -> (r: OBExceptionType)
        ensures
            r == self@.kind,
    {
        self.exception_type
    }

    /// Reads the error slot after an operation: an empty slot means that the
    /// operation succeeded, a filled one holds the error with which it failed.
    pub fn consume(slot: Option<OBError>) -> (r: Result<(), OBError>)
        ensures
            slot is None ==> r is Ok,
            slot is Some ==> r == Err::<(), OBError>(slot->0),
    {
        match slot {
            None => Ok(()),
            Some(error) => Err(error),
        }
    }
}

} // verus!
