//! The flat set of failures a caller can see.

use vstd::prelude::*;

verus! {

/// The only diagnostic a failed call carries: no status code, no response body
/// and no detail of the network layer survives.
#[derive(Clone, Copy, Debug, PartialEq, Eq, Structural)]
pub enum IdentityError {
    /// The request could not be sent, or no response was received.
    NetworkError,
    /// The server rejected the credentials or the authorization.
    AuthorizationError,
    /// The server no longer accepts the session token.
    SessionExpiredError,
    /// The server demands a second-factor step.
    TOTPRequiredError,
    /// Any other failure status, or a response of an unexpected shape.
    ServerError,
}

} // verus!
