//! The user summary shown to the user, and the error of a remote call.
use vstd::prelude::*;

verus! {

/// Short details about the user, for display.
#[derive(Debug, Clone)]
pub struct CustomUserDetails {
    /// The user ID.
    pub id: String,
    /// The email address of the user.
    pub email: String,
    /// Whether the user is suspended.
    pub suspended: bool,
    /// The organizations the user is a member of (just the names).
    pub organizations: Vec<String>,
}

/// Why a call to the remote API gave no usable answer.
#[derive(Debug, Clone, PartialEq, Eq)]
pub enum FetchError {
    /// The request could not be sent or its answer not received.
    Transport,
    /// The answer came with an HTTP status that the call does not accept.
    Status(u16),
    /// The answer's body is not what the endpoint returns.
    Malformed,
}

} // verus!
