//! A typed session layer for depth cameras: devices, stream profiles, the capture
//! pipeline, frames and the chain of post-processing filters.
//!
//! The library holds the rules of the session and leaves the camera runtime
//! outside: whatever the runtime answered to an operation is handed to the
//! function that stands for it, as the value that came back and the contents of
//! the error slot.
use vstd::prelude::*;
use vstd::string::*;
use crate::sys::context::OBContext;
use crate::sys::device::OBDeviceList;
use crate::sys::enums::OBExceptionType;
use crate::sys::{ErrorView, OBError};

pub mod device;
pub mod error;
pub mod filter;
pub mod frame;
pub mod logger;
pub mod pipeline;
pub mod stream;
pub mod sys;
pub mod text;

pub use crate::sys::enums::OBDeviceType as DeviceType;

pub use crate::sys::enums::OBFormat as Format;

pub use crate::sys::enums::OBSensorType as SensorType;

pub use crate::sys::enums::OBStreamType as StreamType;

pub use crate::sys::enums::OBPermissionType as PermissionType;

pub use crate::sys::enums::OBHoleFillMode as HoleFillMode;

pub use crate::sys::enums::OBConvertFormat as ConvertType;

pub use crate::sys::enums::OBAlignMode as AlignMode;

pub use crate::sys::enums::OBFrameAggregateOutputMode as FrameAggregateOutputMode;

pub use crate::sys::enums::OBLogSeverity as LogSeverity;

verus! {

/// The place of the one context that may live at a time.
///
/// There can only be a single context at a time: the runtime does not enforce
/// this, but having multiple contexts leads to crashes and undefined behavior.
/// A process keeps one guard and makes every context through it.
#[derive(Debug)]
pub struct ContextGuard {
    created: bool,
}

impl ContextGuard {
    /// Whether a context made through this guard lives.
    pub closed spec fn spec_is_created(&self) -> bool {
        self.created
    }

    /// A guard through which no context has been made yet.
    pub fn new() -> (r: Self)
        ensures
            !r.spec_is_created(),
    {
        ContextGuard { created: false }
    }

    /// Whether a context made through this guard lives.
    #[verifier::when_used_as_spec(spec_is_created)]
    pub fn is_created(&self) -> (r: bool)
        ensures
            r == self.spec_is_created(),
    {
        self.created
    }

    /// Takes the place if it is free, and says whether it was: an exchange of
    /// `false` for `true`.
    pub fn try_claim(&mut self) -> (r: bool)
        ensures
            r == !old(self).spec_is_created(),
            final(self).spec_is_created(),
    {
        if self.created {
            false
        } else {
            self.created = true;
            true
        }
    }

    /// Gives the place back.
    pub fn release(&mut self)
        ensures
            !final(self).spec_is_created(),
    {
        self.created = false;
    }
}

/// The error for a context asked for while another lives.
pub open spec fn already_created_error() -> ErrorView {
    ErrorView {
        kind: OBExceptionType::WrongAPICallSequence,
        message: "A context has already been created"@,
        function: "Context::new"@,
        args: ""@,
    }
}

/// Context Manager
#[derive(Debug)]
pub struct Context {
    pub inner: OBContext,
}

impl Context {
    /// Create a new context: `error` is what the runtime left in the error
    /// slot when it was asked for one.
    ///
    /// While a context made through `guard` lives, the runtime is not asked and
    /// the error is of kind `WrongAPICallSequence`, whatever `error` holds.
    /// Otherwise the context is made and the guard taken, unless the runtime
    /// reported an error: that error is handed on, and the guard is free as
    /// before, since no context lives.
    pub fn new(guard: &mut ContextGuard, error: Option<OBError>) -> (r: Result<Self, error::OrbbecError>)
        ensures
            old(guard).spec_is_created() ==> {
                &&& r is Err
                &&& r->Err_0@ == already_created_error()
                &&& final(guard).spec_is_created()
            },
            !old(guard).spec_is_created() && error is None ==> r is Ok && final(guard).spec_is_created(),
            !old(guard).spec_is_created() && error is Some ==> {
                &&& r is Err
                &&& r->Err_0@ == error->0@
                &&& !final(guard).spec_is_created()
            },
    {
        if !guard.try_claim() {
            let err_data = error::OrbbecErrorData {
                message: String::from_str("A context has already been created"),
                function: String::from_str("Context::new"),
                args: String::from_str(""),
            };

            return Err(error::OrbbecError::WrongAPICallSequence(err_data));
        }
        match OBContext::new(error) {
            Ok(ctx) => Ok(Context { inner: ctx }),
            Err(e) => {
                guard.release();
                Err(error::OrbbecError::from_native(e))
            },
        }
    }

    /// Query the list of connected devices: `listed` is the list that the
    /// runtime handed over, `error` what it left in the error slot.
    pub fn query_device_list<'a>(&'a self, listed: OBDeviceList, error: Option<OBError>) -> (r: Result<
        device::DeviceList<'a>,
        error::OrbbecError,
    >)
        ensures
            error is None ==> r is Ok && r->Ok_0.inner == listed && r->Ok_0._context == self,
            error is Some ==> r is Err && r->Err_0@ == error->0@,
    {
        match self.inner.query_device_list(listed, error) {
            Ok(list) => Ok(device::DeviceList::new(list, self)),
            Err(e) => Err(error::OrbbecError::from_native(e)),
        }
    }

    /// Ends the life of this context and gives its place in `guard` back, so
    /// that another context can be made.
    pub fn release(self, guard: &mut ContextGuard)
        ensures
            !final(guard).spec_is_created(),
    {
        guard.release();
    }
}

} // verus!
