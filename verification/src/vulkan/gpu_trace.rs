//! GPU Trace: capturing a trace of the GPU work of a Vulkan application
//! from inside the process.
//!
//! Lifecycle: inject before the instance exists, initialize once the device
//! is ready, activate on the queue that owns the trace resources, then start
//! and stop the trace and wait for the status it reaches.
//! The SDK calls of each step stand in the application layer; the session
//! that an injection yields is decided here.

use vstd::prelude::*;
use crate::{check, Error, RawResult, Result};

verus! {

/// An in-process GPU Trace session: the mark that GPU Trace
/// has been injected into the process. It holds no resource.
pub struct Session {
    _private: (),
}

impl Session {
    /// The session that a GPU Trace injection yields, from the code
    /// the injection call returned: a session exactly where the call
    /// succeeded, otherwise the error carrying its code.
    pub fn from_inject(result: RawResult) -> (r: Result<Session>)
        ensures
            r is Ok <==> result == RawResult::Success,
            r matches Err(e) ==> e == Error(result),
    {
        match check(result) {
            Ok(()) => Ok(Session { _private: () }),
            Err(e) => Err(e),
        }
    }
}

} // verus!
