//! Error kinds surfaced to API callers.

use vstd::prelude::*;

verus! {

/// Structured error returned by the consensus API: a kind plus a human
/// readable message.
#[derive(Debug, Clone, PartialEq, Eq)]
pub enum ApiError {
    /// Malformed input, bad signature, stale timestamp, unknown download
    /// token or decode failure.
    BadRequest(String),
    /// An auth-gated endpoint was called without the configured token.
    Unauthorized,
    /// A requested record does not exist.
    NotFound(String),
    /// Admission-channel failure or internal invariant violation.
    ServerError(String),
}

impl ApiError {
    /// Builds a bad-request error carrying `msg`.
    pub fn bad_request(msg: String) -> (r: ApiError)
        ensures
            r == ApiError::BadRequest(msg),
    {
        ApiError::BadRequest(msg)
    }

    /// Builds a server-error carrying `msg`.
    pub fn server_error(msg: String) -> (r: ApiError)
        ensures
            r == ApiError::ServerError(msg),
    {
        ApiError::ServerError(msg)
    }

    /// Builds a not-found error carrying `msg`.
    pub fn not_found(msg: String) -> (r: ApiError)
        ensures
            r == ApiError::NotFound(msg),
    {
        ApiError::NotFound(msg)
    }

    /// Builds the unauthorized error.
    pub fn unauthorized() -> (r: ApiError)
        ensures
            r == ApiError::Unauthorized,
    {
        ApiError::Unauthorized
    }

    /// The message carried by this error, or an empty string for the
    /// message-free unauthorized kind.
    pub fn message(&self) -> (r: &str)
        ensures
            r@ == self.spec_message(),
    {
        match self {
            ApiError::BadRequest(m) => m.as_str(),
            ApiError::Unauthorized => "",
            ApiError::NotFound(m) => m.as_str(),
            ApiError::ServerError(m) => m.as_str(),
        }
    }

    /// The message carried by this error, as a character sequence.
    pub open spec fn spec_message(&self) -> Seq<char> {
        match self {
            ApiError::BadRequest(m) => m@,
            ApiError::Unauthorized => ""@,
            ApiError::NotFound(m) => m@,
            ApiError::ServerError(m) => m@,
        }
    }

}

} // verus!
