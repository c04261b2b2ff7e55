//! Application-level error classification and its mapping to HTTP status
//! codes.
//!
//! The enum carries the user-visible message parts; rendering a response body
//! and implementing the standard error traits is left to the unverified HTTP
//! layer, which works from [`AppError::status_code`] and
//! [`AppError::message`].

use vstd::prelude::*;
use vstd::string::StringExecFns;

verus! {

/// The failure classes of the background runtime: the outbox publisher and
/// the queue consumers.
///
/// A `HandlerError` is terminal only for the one delivery that caused it; a
/// `StoreError` or `BrokerError` is terminal only for the current iteration
/// of its loop, which restarts after a delay.  No error of this taxonomy ever
/// escapes to end the process.
#[derive(Debug, Clone, Copy, PartialEq, Eq, Structural)]
pub enum CoreError {
    /// Store connection or query failure.
    StoreError,
    /// Broker connect, channel, publish or consume failure.
    BrokerError,
    /// A payload could not be serialized or deserialized.
    SerializationError,
    /// An application handler failed while processing a delivery.
    HandlerError,
}

#[derive(Debug, Clone, PartialEq)]
pub enum AppError {
    /// A collaborating service could not be reached; the field names it.
    ServiceUnreachable(String),
    /// The resource does not exist, or the caller may not see that it does.
    NotFound,
    /// The request itself is malformed; the field says how.
    BadRequest(String),
    /// The caller is not allowed to use the resource; the field names it.
    ForbiddenResource(String),
    /// Any other failure, carrying its description.
    Other(String),
}

impl AppError {
    /// The HTTP status each error maps to.
    pub open spec fn spec_status_code(&self) -> u16 {
        match self {
            AppError::ServiceUnreachable(_) => 503,
            AppError::NotFound => 404,
            AppError::BadRequest(_) => 400,
            AppError::ForbiddenResource(_) => 403,
            AppError::Other(_) => 500,
        }
    }

    pub fn status_code(&self) -> (r: u16)
        ensures
            r == self.spec_status_code(),
    {
        match self {
            AppError::ServiceUnreachable(_) => 503,
            AppError::NotFound => 404,
            AppError::BadRequest(_) => 400,
            AppError::ForbiddenResource(_) => 403,
            AppError::Other(_) => 500,
        }
    }

    /// The message each error displays.
    pub open spec fn spec_message(&self) -> Seq<char> {
        match self {
            AppError::ServiceUnreachable(s) => "Service "@ + s@ + " is unreachable"@,
            AppError::NotFound => (
            "Resource not found - it is possible that the user is trying to access a forbidden resource"
            )@,
            AppError::BadRequest(s) => "Bad request: "@ + s@,
            AppError::ForbiddenResource(s) => "Forbidden resource: "@ + s@,
            AppError::Other(s) => s@,
        }
    }

    pub fn message(&self) -> (r: String)
        ensures
            r@ == self.spec_message(),
    {
        match self {
            AppError::ServiceUnreachable(s) => {
                let r = String::from_str("Service ").concat(s.as_str()).concat(" is unreachable");
                proof {
                    assert(r@ =~= "Service "@ + s@ + " is unreachable"@);
                }
                r
            },
            AppError::NotFound => String::from_str(
                "Resource not found - it is possible that the user is trying to access a forbidden resource",
            ),
            AppError::BadRequest(s) => {
                let r = String::from_str("Bad request: ").concat(s.as_str());
                r
            },
            AppError::ForbiddenResource(s) => {
                let r = String::from_str("Forbidden resource: ").concat(s.as_str());
                r
            },
            AppError::Other(s) => s.clone(),
        }
    }
}

} // verus!
