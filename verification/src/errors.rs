//! Error taxonomy of the client.
//!
//! Every remote-facing operation maps its outcome onto exactly one
//! `ApiError` kind; no raw transport or decoding failure crosses the
//! client boundary unclassified. `CliError` is the rendered form the
//! command layer shows to the user.

use vstd::prelude::*;

verus! {

/// Classified failure of a remote-facing operation.
#[derive(Clone, Copy, Debug, PartialEq, Eq, Structural)]
pub enum ApiError {
    /// Connection or timeout failure before a response arrived.
    Network,
    /// No local token is stored; no request was sent.
    Unauthenticated,
    /// The service answered 401/403: the token is invalid or expired.
    Rejected,
    /// The service answered 404.
    NotFound,
    /// The service failed (5xx), or answered outside the taxonomy.
    ServerError,
    /// The response body does not decode into the expected shape.
    Malformed,
}

/// The text the command layer shows for each `ApiError` kind.
pub open spec fn api_error_text(e: ApiError) -> Seq<char> {
    match e {
        ApiError::Network => "Network"@,
        ApiError::Unauthenticated => "Unauthenticated"@,
        ApiError::Rejected => "Rejected"@,
        ApiError::NotFound => "NotFound"@,
        ApiError::ServerError => "ServerError"@,
        ApiError::Malformed => "Malformed"@,
    }
}

/// A failure as the command layer reports it: a message, and whether the
/// usage text should be printed instead of the message.
pub struct CliError {
    pub message: String,
    pub is_usage_error: bool,
}

impl CliError {
    /// Wraps a classified API failure for display; never a usage error.
    pub fn from_api(e: ApiError) -> (r: CliError)
        ensures
            r.message@ == api_error_text(e),
            !r.is_usage_error,
    {
        let message = match e {
            ApiError::Network => String::from_str("Network"),
            ApiError::Unauthenticated => String::from_str("Unauthenticated"),
            ApiError::Rejected => String::from_str("Rejected"),
            ApiError::NotFound => String::from_str("NotFound"),
            ApiError::ServerError => String::from_str("ServerError"),
            ApiError::Malformed => String::from_str("Malformed"),
        };
        CliError { message, is_usage_error: false }
    }
}

} // verus!
