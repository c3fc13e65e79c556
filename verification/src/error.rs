//! The typed error taxonomy that every call's outcome is classified
//! into. All errors are terminal results of a single call: nothing is
//! retried on the caller's behalf, so every kind stays distinguishable.

use vstd::prelude::*;

verus! {

/// An error that was reported by the API
#[derive(Debug, Clone, PartialEq, Eq)]
pub struct ApiError {
    /// The unique identifier of the request
    pub request_id: String,
    /// The type of error
    pub error_type: String,
    /// A list of errors
    pub error_codes: Vec<String>,
}

/// Encapsulates any error that can occur when sending a request to the
/// API
#[derive(Debug, Clone, PartialEq, Eq)]
pub enum Error {
    /// The resource rejected the credentials or the bearer token
    Unauthorized,
    /// Invalid data was sent; carries the structured error body
    InvalidData(ApiError),
    /// Too many requests, or a duplicate request was detected: the remote
    /// service reports both conditions under one status
    RateLimited,
    /// A status code outside the documented set; carries the status and
    /// the raw body text, whose shape is unknown
    Unexpected(u16, String),
    /// An error that occurred during transport, described in text
    Transport(String),
    /// The response body did not match the expected shape: a client and
    /// server schema mismatch, not a server-reported input error
    Deserialize,
}

} // verus!
