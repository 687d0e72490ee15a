//! Graphics Capture: serializing a frame, or a run of frames, into a bundle
//! for offline replay and analysis in Nsight Graphics.
//!
//! Lifecycle (Vulkan): inject before the instance exists, initialize once the
//! device is ready, then request a capture or start and stop one by hand.
//! The SDK calls of each step stand in the application layer; the session
//! that an injection yields is decided here.

use vstd::prelude::*;
use crate::{check, Error, RawResult, Result};

verus! {

/// An in-process Graphics Capture session: the mark that Graphics Capture
/// has been injected into the process. It holds no resource.
pub struct Session {
    _private: (),
}

impl Session {
    /// The session that a Graphics Capture injection yields, from the code
    /// the injection call returned: a session exactly where the call
    /// succeeded, otherwise the error carrying its code.
    pub fn from_inject(result: RawResult) -> (r: Result<Session>)
        ensures
            r is Ok <==> result == RawResult::Success,
            r matches Err(e) ==> e == Error(result),
    {
        match check(result) {
            Ok(()) => Ok(Session { _private: () }),
            Err(e) => Err(e),
        }
    }
}

} // verus!
