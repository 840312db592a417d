//! Typed failures returned by every operation of the library.

use vstd::prelude::*;
use vstd::string::StringExecFns;

verus! {

/// The failure taxonomy of the client core. Every operation reports one of
/// these as a value; nothing in the library panics.
#[derive(Debug, Clone, PartialEq, Eq)]
pub enum ApiError {
    /// Transport or timeout failure while a request was in flight.
    Network { message: String },
    /// The HTTP client could not be constructed.
    ClientConstruction { message: String },
    /// The backend answered with a non-success HTTP status; carries the raw
    /// response body text.
    HttpStatus { body: String },
    /// The response body could not be parsed as the expected shape.
    EnvelopeParse { message: String },
    /// The backend reported failure inside a well-formed envelope.
    EnvelopeFailure { message: String },
    /// The secure secret store failed on get, set or delete.
    Store { message: String },
    /// The operation required a stored credential and none was usable.
    NotAuthenticated,
}

impl ApiError {
    /// A human-readable description, for the shell to present.
    pub fn describe(&self) -> (r: String)
        ensures
            match self {
                ApiError::Network { message } => r@ == message@,
                ApiError::ClientConstruction { message } => r@ == message@,
                ApiError::HttpStatus { body } => r@ == body@,
                ApiError::EnvelopeParse { message } => r@ == message@,
                ApiError::EnvelopeFailure { message } => r@ == message@,
                ApiError::Store { message } => r@ == message@,
                ApiError::NotAuthenticated => r@ == "Not authenticated"@,
            },
    {
        match self {
            ApiError::Network { message } => message.clone(),
            ApiError::ClientConstruction { message } => message.clone(),
            ApiError::HttpStatus { body } => body.clone(),
            ApiError::EnvelopeParse { message } => message.clone(),
            ApiError::EnvelopeFailure { message } => message.clone(),
            ApiError::Store { message } => message.clone(),
            ApiError::NotAuthenticated => String::from_str("Not authenticated"),
        }
    }
}

} // verus!
