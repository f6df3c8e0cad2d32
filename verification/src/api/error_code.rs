//! Application errors as replies.

use vstd::prelude::*;
use crate::service::application_error::{ApplicationError, ApplicationErrorType};

verus! {

/// The status of a reply to a removal that took place.
pub const STATUS_NO_CONTENT: u16 = 204;

/// The status of a reply to a request that could not be read.
pub const STATUS_BAD_REQUEST: u16 = 400;

/// The status of a reply to a request for a record that does not exist.
pub const STATUS_NOT_FOUND: u16 = 404;

/// The status of a reply to a request whose values break a rule.
pub const STATUS_UNPROCESSABLE_ENTITY: u16 = 422;

/// A reply in plain text.
#[derive(Debug)]
pub struct Response {
    pub status: u16,
    pub body: String,
}

/// The status under which an error of the given kind is reported.
pub open spec fn status_of(error_type: ApplicationErrorType) -> u16 {
    match error_type {
        ApplicationErrorType::NotFound => STATUS_NOT_FOUND,
        ApplicationErrorType::ValidationFailed => STATUS_UNPROCESSABLE_ENTITY,
    }
}

/// What answers a removal: the status for no content where it took place,
/// the error where it did not.
pub open spec fn removal_reply(outcome: Result<(), ApplicationError>) -> Result<
    u16,
    ApplicationError,
> {
    match outcome {
        Ok(_) => Ok(STATUS_NO_CONTENT),
        Err(error) => Err(error),
    }
}

/// Turns the answer of a service to a removal into what answers the
/// request.
pub fn reply_to_removal(outcome: Result<(), ApplicationError>) -> (res: Result<
    u16,
    ApplicationError,
>)
    ensures
        res == removal_reply(outcome),
{
    match outcome {
        Ok(_) => Ok(STATUS_NO_CONTENT),
        Err(error) => Err(error),
    }
}

impl ApplicationError {
    /// The reply that reports the error: the status of its kind, and its
    /// message as the body.
    pub fn into_response(self) -> (response: Response)
        ensures
            response.status == status_of(self.error_type),
            response.body@ == self.message@,
    {
        let status = match self.error_type {
            ApplicationErrorType::NotFound => STATUS_NOT_FOUND,
            ApplicationErrorType::ValidationFailed => STATUS_UNPROCESSABLE_ENTITY,
        };
        Response { status, body: self.message }
    }
}

} // verus!
