//! The library's errors.

use vstd::prelude::*;

verus! {

/// What can go wrong when talking to the API.
#[derive(Clone, Debug, PartialEq, Eq)]
pub enum Error {
    /// The transport could not complete a request; its message.
    Transport(String),
    /// A response did not match the expected schema; the decoder's message.
    Decode(String),
    /// The login finished without a usable token.
    MissingToken,
    /// The server asked for a second factor without saying of which kind.
    MissingMfaType,
    /// The server asked for a second factor again after one was sent.
    MfaRetryExhausted,
    /// The order cannot be cancelled (it has no cancel link).
    CancelUnavailable,
    /// A search matched nothing.
    NotFound,
}

} // verus!
