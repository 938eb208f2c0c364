use vstd::prelude::*;

use crate::status::Status;

verus! {

/// A failure reported by the data-access layer.
pub enum DataError {
    /// An id-addressed operation found no row with that id.
    NotFound { message: String },
    /// Any other storage failure: constraint violation, lost connection, timeout.
    Storage { message: String },
}

impl DataError {
    pub open spec fn spec_message(&self) -> Seq<char> {
        match self {
            DataError::NotFound { message } => message@,
            DataError::Storage { message } => message@,
        }
    }

    /// Takes the human-readable message out of the error.
    pub fn into_message(self) -> (r: String)
        ensures
            r@ == self.spec_message(),
    {
        match self {
            DataError::NotFound { message } => message,
            DataError::Storage { message } => message,
        }
    }
}

/// What a request handler answers when it does not succeed: a status and a
/// plain-text body.
pub struct Failure {
    pub status: Status,
    pub message: String,
}

/// The five request-handling actions of a resource.
#[derive(Clone, Copy, Debug, PartialEq, Eq, Structural)]
pub enum Action {
    Index,
    Store,
    Show,
    Update,
    Destroy,
}

/// The status a data-access failure is answered with: a missed lookup on
/// `Show` is a 404; on every other action any failure is a 500, whether or
/// not it was a missing row.
pub open spec fn failure_status(action: Action) -> Status {
    match action {
        Action::Show => Status::NotFound,
        _ => Status::InternalServerError,
    }
}

/// The answer to a payload's validation outcome, given before any data
/// access: a rejected payload becomes a 400 carrying the validator's message.
pub fn screen(validation: Result<(), String>) -> (r: Result<(), Failure>)
    ensures
        validation is Ok <==> r is Ok,
        validation is Err ==> r->Err_0.status == Status::BadRequest
            && r->Err_0.message@ == validation->Err_0@,
{
    match validation {
        Ok(()) => Ok(()),
        Err(message) => Err(Failure { status: Status::BadRequest, message }),
    }
}

/// Translates the outcome of the data-access call behind `action` into the
/// handler's answer: the value on success, else the action's failure status
/// with the storage message verbatim.
pub fn respond<T>(action: Action, outcome: Result<T, DataError>) -> (r: Result<T, Failure>)
    ensures
        outcome is Ok <==> r is Ok,
        outcome is Ok ==> r->Ok_0 == outcome->Ok_0,
        outcome is Err ==> r->Err_0.status == failure_status(action)
            && r->Err_0.message@ == outcome->Err_0.spec_message(),
{
    match outcome {
        Ok(value) => Ok(value),
        Err(e) => {
            let status = match action {
                Action::Show => Status::NotFound,
                _ => Status::InternalServerError,
            };
            Err(Failure { status, message: e.into_message() })
        },
    }
}

} // verus!
