//! The error that an authentication attempt ends with.
use vstd::prelude::*;

verus! {

/// Code reported when the reply slot was dropped before the worker answered.
pub const ERR_RECV_FROM_SERVER: i32 = 414243;

/// Code reported when the request could not be handed to the pump.
pub const ERR_SEND_TO_SERVER: i32 = 414244;

/// Error returned if authentication fails.
///
/// The code is either one that the worker reported, passed on unchanged, or
/// one of the two transport codes of this module. Callers do best to treat
/// every value as "authentication failed".
#[derive(Debug, Clone, Copy, PartialEq, Eq, Structural)]
pub struct PamError(pub i32);

/// What an authentication attempt yields.
pub type AuthResult = Result<(), PamError>;

impl PamError {
    /// The numeric code carried by this error.
    pub fn code(&self) -> (c: i32)
        ensures
            c == self.0,
    {
        self.0
    }

    /// Whether the error was raised on this side of the channel rather than
    /// by the worker.
    pub fn is_transport(&self) -> (b: bool)
        ensures
            b == (self.0 == ERR_RECV_FROM_SERVER || self.0 == ERR_SEND_TO_SERVER),
    {
        self.0 == ERR_RECV_FROM_SERVER || self.0 == ERR_SEND_TO_SERVER
    }
}

/// A breach of the protocol between the two processes. None of these is an
/// outcome of an authentication attempt: each means that the two sides no
/// longer agree on what travels over the channel.
#[derive(Debug, Clone, Copy, PartialEq, Eq, Structural)]
pub enum ProtocolError {
    /// The encoder refused a value.
    EncodeFailed,
    /// A request's payload is longer than a frame can carry.
    Oversized,
    /// Received bytes do not begin with a well-formed payload.
    Malformed,
}

} // verus!
