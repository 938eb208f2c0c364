use vstd::prelude::*;

use crate::outcome::DataError;

verus! {

#[verifier::external_type_specification]
#[verifier::external_body]
pub struct ExSqlxError(sqlx::Error);

#[verifier::external_type_specification]
#[verifier::external_body]
pub struct ExValidationErrors(validator::ValidationErrors);

/// Relies on `sqlx::Error::RowNotFound`: the variant sqlx returns when a query
/// that expected a row found none.
#[verifier::external_body]
fn is_row_not_found(e: &sqlx::Error) -> (r: bool) {
    match e {
        sqlx::Error::RowNotFound => true,
        _ => false,
    }
}

/// Relies on the `Display` impl of `sqlx::Error`: the error's human-readable text.
#[verifier::external_body]
fn sqlx_text(e: &sqlx::Error) -> (r: String) {
    e.to_string()
}

/// Relies on the `Display` impl of `validator::ValidationErrors`: the field-level
/// messages as text.
#[verifier::external_body]
fn validation_text(e: &validator::ValidationErrors) -> (r: String) {
    e.to_string()
}

/// Classifies a sqlx failure: a query that found no row is a not-found error,
/// anything else a storage error; the message is the error's own text.
pub fn storage_error(e: sqlx::Error) -> (r: DataError) {
    let message = sqlx_text(&e);
    if is_row_not_found(&e) {
        DataError::NotFound { message }
    } else {
        DataError::Storage { message }
    }
}

/// The outcome of a sqlx data-access call in the library's terms: the value is
/// kept, an error is classified by `storage_error`.
pub fn from_sqlx<T>(outcome: Result<T, sqlx::Error>) -> (r: Result<T, DataError>)
    ensures
        outcome is Ok <==> r is Ok,
        outcome is Ok ==> r->Ok_0 == outcome->Ok_0,
{
    match outcome {
        Ok(value) => Ok(value),
        Err(e) => Err(storage_error(e)),
    }
}

/// The outcome of a payload's validation as pass or message text.
pub fn validation_outcome(outcome: Result<(), validator::ValidationErrors>) -> (r: Result<(), String>)
    ensures
        outcome is Ok <==> r is Ok,
{
    match outcome {
        Ok(()) => Ok(()),
        Err(e) => Err(validation_text(&e)),
    }
}

} // verus!
