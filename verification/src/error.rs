//! The ways in which a call to the service can fail.

use vstd::prelude::*;

verus! {

/// Why a call gave no result.
#[derive(Debug, Clone, Copy, PartialEq, Eq)]
pub enum Error {
    /// The request could not be sent, or no reply came back.
    Transport,
    /// The service answered with a status other than success.
    Status,
    /// The reply was not the JSON that the call expects.
    Decode,
    /// The service answered the request for a device list with a status
    /// other than success.
    Unsupported,
}

} // verus!
