//! The one error that leaves the services.

use vstd::prelude::*;

verus! {

/// The kind of an application error.
#[derive(Clone, Copy, Debug, PartialEq, Eq, Structural)]
pub enum ApplicationErrorType {
    /// An identifier does not resolve to a record.
    NotFound,
    /// Raw values break a rule of the entity they were meant for.
    ValidationFailed,
}

/// A failure as the caller of a service sees it: its kind and a fixed
/// message.
#[derive(Debug)]
pub struct ApplicationError {
    pub error_type: ApplicationErrorType,
    pub message: String,
}

/// The mathematical value of an [`ApplicationError`].
pub struct ApplicationErrorView {
    pub error_type: ApplicationErrorType,
    pub message: Seq<char>,
}

impl View for ApplicationError {
    type V = ApplicationErrorView;

    open spec fn view(&self) -> ApplicationErrorView {
        ApplicationErrorView { error_type: self.error_type, message: self.message@ }
    }
}

/// The failed validation that carries `message`.
pub open spec fn validation_failed(message: Seq<char>) -> ApplicationErrorView {
    ApplicationErrorView { error_type: ApplicationErrorType::ValidationFailed, message }
}

/// The failed lookup that carries `message`.
pub open spec fn not_found(message: Seq<char>) -> ApplicationErrorView {
    ApplicationErrorView { error_type: ApplicationErrorType::NotFound, message }
}

impl ApplicationError {
    /// The failed validation that carries `message`.
    pub fn validation_failed(message: &str) -> (error: Self)
        ensures
            error@ == validation_failed(message@),
    {
        ApplicationError {
            error_type: ApplicationErrorType::ValidationFailed,
            message: message.to_string(),
        }
    }

    /// The failed lookup that carries `message`.
    pub fn not_found(message: &str) -> (error: Self)
        ensures
            error@ == not_found(message@),
    {
        ApplicationError {
            error_type: ApplicationErrorType::NotFound,
            message: message.to_string(),
        }
    }
}

} // verus!
