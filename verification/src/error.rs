use vstd::prelude::*;

verus! {

/// Errors reported by the application services.
#[derive(Debug, Clone, PartialEq, Eq)]
pub enum ApplicationError {
    Unauthorized,
    Forbidden,
    NotFound(String),
    Conflict(String),
    BadRequest(String),
    Internal(String),
}

/// Mathematical view of an [`ApplicationError`]: messages as character sequences.
pub enum AppErr {
    Unauthorized,
    Forbidden,
    NotFound(Seq<char>),
    Conflict(Seq<char>),
    BadRequest(Seq<char>),
    Internal(Seq<char>),
}

impl View for ApplicationError {
    type V = AppErr;

    open spec fn view(&self) -> AppErr {
        match self {
            ApplicationError::Unauthorized => AppErr::Unauthorized,
            ApplicationError::Forbidden => AppErr::Forbidden,
            ApplicationError::NotFound(m) => AppErr::NotFound(m@),
            ApplicationError::Conflict(m) => AppErr::Conflict(m@),
            ApplicationError::BadRequest(m) => AppErr::BadRequest(m@),
            ApplicationError::Internal(m) => AppErr::Internal(m@),
        }
    }
}

/// The failures a database query can report, as far as the services tell
/// them apart.  `UniqueViolation` and `Other` carry the driver's message.
#[derive(Debug, Clone, PartialEq, Eq)]
pub enum DbError {
    NotFound,
    UniqueViolation(String),
    Other(String),
}

/// Mathematical view of a [`DbError`].
pub enum DbErr {
    NotFound,
    UniqueViolation(Seq<char>),
    Other(Seq<char>),
}

impl View for DbError {
    type V = DbErr;

    open spec fn view(&self) -> DbErr {
        match self {
            DbError::NotFound => DbErr::NotFound,
            DbError::UniqueViolation(m) => DbErr::UniqueViolation(m@),
            DbError::Other(m) => DbErr::Other(m@),
        }
    }
}

/// Text the driver prints for a missing record.
pub open spec fn record_not_found_text() -> Seq<char> {
    "Record not found"@
}

/// The driver's display text of an error.
pub open spec fn db_error_text(e: DbErr) -> Seq<char> {
    match e {
        DbErr::NotFound => record_not_found_text(),
        DbErr::UniqueViolation(m) => m,
        DbErr::Other(m) => m,
    }
}

/// Message of an internal error caused by the database.
pub open spec fn database_error_text(detail: Seq<char>) -> Seq<char> {
    "Database error - "@ + detail
}

/// The generic translation of a database failure.
pub open spec fn generic_db_failure(e: DbErr) -> AppErr {
    match e {
        DbErr::UniqueViolation(_) => AppErr::Conflict("Unique violation"@),
        DbErr::NotFound => AppErr::NotFound("Not found"@),
        DbErr::Other(m) => AppErr::Internal(database_error_text(m)),
    }
}

/// The driver's display text of an error.
pub fn db_error_display(err: &DbError) -> (r: String)
    ensures
        r@ == db_error_text(err@),
{
    match err {
        DbError::NotFound => String::from_str("Record not found"),
        DbError::UniqueViolation(m) => m.clone(),
        DbError::Other(m) => m.clone(),
    }
}

/// `Internal("Database error - <detail>")`.
pub fn database_error(detail: &str) -> (r: ApplicationError)
    ensures
        r@ == AppErr::Internal(database_error_text(detail@)),
{
    ApplicationError::Internal(String::from_str("Database error - ").concat(detail))
}

/// Translates a database failure into an application error: unique-key
/// violations become conflicts, missing records become `NotFound`, anything
/// else is internal.
pub fn app_err_from_diesel_err(err: DbError) -> (r: ApplicationError)
    ensures
        r@ == generic_db_failure(err@),
{
    match err {
        DbError::UniqueViolation(_) => ApplicationError::Conflict(String::from_str("Unique violation")),
        DbError::NotFound => ApplicationError::NotFound(String::from_str("Not found")),
        DbError::Other(m) => database_error(m.as_str()),
    }
}

/// The HTTP status and message body with which a handler answers an error.
pub struct ErrorResponse {
    pub status: u16,
    pub body: String,
}

/// Status code of an error as the handlers answer it.
pub open spec fn status_of(e: AppErr) -> u16 {
    match e {
        AppErr::Unauthorized => 401,
        AppErr::Forbidden => 403,
        AppErr::NotFound(_) => 404,
        AppErr::Conflict(_) => 409,
        AppErr::BadRequest(_) => 400,
        AppErr::Internal(_) => 500,
    }
}

/// Response body of an error as the handlers answer it.
pub open spec fn body_of(e: AppErr) -> Seq<char> {
    match e {
        AppErr::Unauthorized => "Unauthorized"@,
        AppErr::Forbidden => "Forbidden"@,
        AppErr::NotFound(m) => m,
        AppErr::Conflict(m) => m,
        AppErr::BadRequest(m) => m,
        AppErr::Internal(m) => m,
    }
}

/// Maps an application error to the status and body a handler sends.
pub fn error_response(err: &ApplicationError) -> (r: ErrorResponse)
    ensures
        r.status == status_of(err@),
        r.body@ == body_of(err@),
{
    match err {
        ApplicationError::Unauthorized => ErrorResponse { status: 401, body: String::from_str("Unauthorized") },
        ApplicationError::Forbidden => ErrorResponse { status: 403, body: String::from_str("Forbidden") },
        ApplicationError::NotFound(m) => ErrorResponse { status: 404, body: m.clone() },
        ApplicationError::Conflict(m) => ErrorResponse { status: 409, body: m.clone() },
        ApplicationError::BadRequest(m) => ErrorResponse { status: 400, body: m.clone() },
        ApplicationError::Internal(m) => ErrorResponse { status: 500, body: m.clone() },
    }
}

} // verus!
