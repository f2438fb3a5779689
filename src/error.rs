use vstd::prelude::*;

verus! {

/// The ways a capability call can fail.
#[derive(Debug, Clone, PartialEq, Eq)]
pub enum LLMError {
    /// The credential is missing or empty; detected before any network exchange.
    AuthError(String),
    /// The network exchange failed or the vendor answered with a non-success status.
    TransportError(String),
    /// The vendor's reply does not have the expected shape.
    DecodeError(String),
    /// The backend does not implement the capability.
    Unsupported(String),
}

} // verus!
