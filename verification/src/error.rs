//! The error taxonomy of the orchestration core.
//!
//! Every failure a caller can see is one of these variants; network and
//! provider failures are mapped into them at the edges of the crate.

use vstd::prelude::*;

verus! {

/// What can go wrong when talking to a provider or a tool server.
///
/// - `InvalidRequest`: a caller error (for example an empty transcript);
///   never retried and detected before any call is made.
/// - `Unauthenticated`: a required credential is missing; detected before
///   any call is made.
/// - `ProviderError`: the remote end rejected the request (non-2xx status).
/// - `DecodeError`: the reply could not be understood.
/// - `TransportError`: the network failed or the call timed out.
/// - `ToolResolutionError`: a tool name could not be resolved to a server.
/// - `ToolExecutionError`: the tool server itself reported a failure.
#[derive(Debug)]
pub enum ApiError {
    InvalidRequest(String),
    Unauthenticated(String),
    ProviderError(u16, String),
    DecodeError(String),
    TransportError(String),
    ToolResolutionError(String),
    ToolExecutionError(String),
}

impl ApiError {
    /// A human-readable rendering of the error; the transcript folds this
    /// text into synthetic messages so the user is never left in silence.
    pub fn message(&self) -> (r: &String)
        ensures
            r@ == self.text(),
    {
        match self {
            ApiError::InvalidRequest(s) => s,
            ApiError::Unauthenticated(s) => s,
            ApiError::ProviderError(_, s) => s,
            ApiError::DecodeError(s) => s,
            ApiError::TransportError(s) => s,
            ApiError::ToolResolutionError(s) => s,
            ApiError::ToolExecutionError(s) => s,
        }
    }

    /// The text carried by the error, whichever variant it is.
    pub open spec fn text(&self) -> Seq<char> {
        match self {
            ApiError::InvalidRequest(s) => s@,
            ApiError::Unauthenticated(s) => s@,
            ApiError::ProviderError(_, s) => s@,
            ApiError::DecodeError(s) => s@,
            ApiError::TransportError(s) => s@,
            ApiError::ToolResolutionError(s) => s@,
            ApiError::ToolExecutionError(s) => s@,
        }
    }
}

} // verus!
