//! The closed set of ways a session attempt can end in failure.

use vstd::prelude::*;
use vstd::string::*;

verus! {

/// Why a session attempt ended.
#[derive(Debug, Clone, Copy, PartialEq, Eq, Structural)]
pub enum TsunaLoopError {
    /// No frame arrived within the read wait; expected while idle.
    ReadTimeout,
    /// The transport failed at the I/O level (connect refused, reset).
    Transport,
    /// The server sent `E`: reconnect without delay.
    Error,
    /// The server sent `A`: the device must be registered again.
    Abort,
    /// A call to the request/response API did not succeed.
    Api,
    /// A fetched icon could not be stored in the cache.
    CacheWrite,
    /// Any failure outside the kinds above.
    Other,
}

impl TsunaLoopError {
    /// Only an abort ends the relay.
    pub fn is_fatal(&self) -> (r: bool)
        ensures
            r <==> *self is Abort,
    {
        match self {
            TsunaLoopError::Abort => true,
            _ => false,
        }
    }

    /// A line that tells an operator what happened.
    pub fn message(&self) -> (r: String)
        ensures
            *self is ReadTimeout ==> r@ == "Read timeout, restarting loop."@,
            *self is Transport ==> r@ == "Transport error, will reconnect after a delay."@,
            *self is Error ==> r@ == "Generic error, will trigger a reconnection."@,
            *self is Abort ==> r@ == "Abort received while connected, re-registration required."@,
            *self is Api ==> r@ == "Request to the API failed, will reconnect after a delay."@,
            *self is CacheWrite ==> r@ == "Could not store an icon, will reconnect after a delay."@,
            *self is Other ==> r@ == "Unhandled error, will reconnect after a delay."@,
    {
        match self {
            TsunaLoopError::ReadTimeout => String::from_str("Read timeout, restarting loop."),
            TsunaLoopError::Transport => String::from_str(
                "Transport error, will reconnect after a delay.",
            ),
            TsunaLoopError::Error => String::from_str("Generic error, will trigger a reconnection."),
            TsunaLoopError::Abort => String::from_str(
                "Abort received while connected, re-registration required.",
            ),
            TsunaLoopError::Api => String::from_str(
                "Request to the API failed, will reconnect after a delay.",
            ),
            TsunaLoopError::CacheWrite => String::from_str(
                "Could not store an icon, will reconnect after a delay.",
            ),
            TsunaLoopError::Other => String::from_str("Unhandled error, will reconnect after a delay."),
        }
    }
}

} // verus!
