//! The closed set of failures the repositories report, and how each is rendered.
use vstd::prelude::*;

verus! {

/// A failure with a human-readable message.
#[derive(Debug, Clone, PartialEq, Eq)]
pub enum AppErrorType {
    /// The store call failed for a reason not attributable to the caller.
    DbError(String),
    /// No record matches a keyed lookup.
    NotFoundError(String),
    /// The web framework failed while handling the request.
    ActixError(String),
    /// The request payload was malformed.
    InvalidInput(String),
}

/// The body rendered for a failure: `{ "error_message": ... }`.
#[derive(Debug, Clone, PartialEq, Eq)]
pub struct AppErrorResponse {
    pub error_message: String,
}

/// The failure type of sqlx's store calls, carried through opaquely.
#[verifier::external_type_specification]
#[verifier::external_body]
pub struct ExSqlxError(sqlx::Error);

/// The description sqlx gives of a failed store call; it depends on the error alone.
pub uninterp spec fn store_error_text(e: sqlx::Error) -> Seq<char>;

/// Relies on the Display impl of sqlx::Error for a description of the failure.
#[verifier::external_body]
fn describe_store_error(e: &sqlx::Error) -> (r: String)
    ensures
        r@ == store_error_text(*e),
{
    e.to_string()
}

/// HTTP status for a record that was not found.
pub const STATUS_NOT_FOUND: u16 = 404;

/// HTTP status for a failure on the server's side.
pub const STATUS_SERVER_ERROR: u16 = 500;

/// HTTP status for a malformed request.
pub const STATUS_BAD_REQUEST: u16 = 400;

impl AppErrorType {
    /// The message the failure carries.
    pub open spec fn message(&self) -> String {
        match self {
            AppErrorType::DbError(m) => *m,
            AppErrorType::NotFoundError(m) => *m,
            AppErrorType::ActixError(m) => *m,
            AppErrorType::InvalidInput(m) => *m,
        }
    }

    /// The status class of each kind of failure.
    pub open spec fn status(&self) -> u16 {
        match self {
            AppErrorType::DbError(_) => STATUS_SERVER_ERROR,
            AppErrorType::NotFoundError(_) => STATUS_NOT_FOUND,
            AppErrorType::ActixError(_) => STATUS_SERVER_ERROR,
            AppErrorType::InvalidInput(_) => STATUS_BAD_REQUEST,
        }
    }

    /// A store call that failed, carrying the store's description of why.
    pub fn from_store_error(e: &sqlx::Error) -> (r: AppErrorType)
        ensures
            r matches AppErrorType::DbError(m) && m@ == store_error_text(*e),
    {
        AppErrorType::DbError(describe_store_error(e))
    }

    /// A copy of this failure, equal to it.
    pub fn duplicate(&self) -> (r: AppErrorType)
        ensures
            r == *self,
    {
        match self {
            AppErrorType::DbError(m) => AppErrorType::DbError(m.clone()),
            AppErrorType::NotFoundError(m) => AppErrorType::NotFoundError(m.clone()),
            AppErrorType::ActixError(m) => AppErrorType::ActixError(m.clone()),
            AppErrorType::InvalidInput(m) => AppErrorType::InvalidInput(m.clone()),
        }
    }

    /// The message to show the caller.
    pub fn error_response(&self) -> (r: String)
        ensures
            r == self.message(),
    {
        match self {
            AppErrorType::DbError(m) => m.clone(),
            AppErrorType::NotFoundError(m) => m.clone(),
            AppErrorType::ActixError(m) => m.clone(),
            AppErrorType::InvalidInput(m) => m.clone(),
        }
    }

    /// The HTTP status code of this failure.
    pub fn status_code(&self) -> (r: u16)
        ensures
            r == self.status(),
    {
        match self {
            AppErrorType::DbError(_) => STATUS_SERVER_ERROR,
            AppErrorType::NotFoundError(_) => STATUS_NOT_FOUND,
            AppErrorType::ActixError(_) => STATUS_SERVER_ERROR,
            AppErrorType::InvalidInput(_) => STATUS_BAD_REQUEST,
        }
    }

    /// The response body for this failure.
    pub fn error_body(&self) -> (r: AppErrorResponse)
        ensures
            r.error_message == self.message(),
    {
        AppErrorResponse { error_message: self.error_response() }
    }
}

} // verus!
