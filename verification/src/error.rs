//! The ways a connection attempt or a running session can fail.
//!
//! Every failure is recoverable: the supervisor tears the session down and
//! retries with a fixed backoff.  None of them is surfaced to the caller
//! beyond the device showing as disconnected.

use vstd::prelude::*;

verus! {

/// The identity string the device reported next to the one configured.
#[derive(Clone, PartialEq, Eq, Debug)]
pub struct NotMatchingId {
    pub configured: Vec<u8>,
    pub device: Vec<u8>,
}

/// Why a connection attempt or a session ended.
#[derive(Clone, PartialEq, Debug)]
pub enum OpenError {
    /// No attached port matches the configured USB key.
    NoDeviceFound,
    /// The matched port could not be opened.
    OpenError,
    /// A read or write on the open port failed.
    IOError,
    /// The device identified itself with the wrong identity string.
    IdNotMatch(NotMatchingId),
    /// A response line did not have the expected shape.
    ProtocolError,
    /// The device never answered the identify request.
    Timeout,
}

} // verus!
