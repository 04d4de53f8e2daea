//! The application's error type and the text it shows for each kind.
use vstd::prelude::*;

verus! {

/// What went wrong while serving a request.
#[derive(Clone, Debug, PartialEq, Eq)]
pub enum AppError {
    NotFound(String),
    Database(String),
    Cache(String),
    Unauthorized,
    Forbidden(String),
    MissingContext(String),
    InternalServerError(String),
    ValidationFailed(String),
    BadRequest(String),
}

/// The text of an error: its kind's title, then `": "` and the message
/// (`Unauthorized` has no message).
pub open spec fn error_text(e: AppError) -> Seq<char> {
    match e {
        AppError::NotFound(m) => "Not Found: "@ + m@,
        AppError::Database(m) => "Database Error: "@ + m@,
        AppError::Cache(m) => "Cache Error: "@ + m@,
        AppError::Unauthorized => "Unauthorized"@,
        AppError::Forbidden(m) => "Forbidden: "@ + m@,
        AppError::MissingContext(m) => "Missing Context: "@ + m@,
        AppError::InternalServerError(m) => "Internal Server Error: "@ + m@,
        AppError::ValidationFailed(m) => "Validation Failed: "@ + m@,
        AppError::BadRequest(m) => "Bad Request: "@ + m@,
    }
}

impl AppError {
    /// A missing resource.
    pub fn not_found(message: String) -> (e: AppError)
        ensures
            e == AppError::NotFound(message),
    {
        AppError::NotFound(message)
    }

    /// A failed database operation.
    pub fn database_error(message: String) -> (e: AppError)
        ensures
            e == AppError::Database(message),
    {
        AppError::Database(message)
    }

    /// A request without a signed-in user.
    pub fn unauthorized() -> (e: AppError)
        ensures
            e == AppError::Unauthorized,
    {
        AppError::Unauthorized
    }

    /// A signed-in user without the needed permission.
    pub fn forbidden(message: String) -> (e: AppError)
        ensures
            e == AppError::Forbidden(message),
    {
        AppError::Forbidden(message)
    }

    /// Input that breaks a rule of the domain.
    pub fn validation_failed(message: String) -> (e: AppError)
        ensures
            e == AppError::ValidationFailed(message),
    {
        AppError::ValidationFailed(message)
    }

    /// A malformed request.
    pub fn bad_request(message: String) -> (e: AppError)
        ensures
            e == AppError::BadRequest(message),
    {
        AppError::BadRequest(message)
    }

    /// The text shown for the error.
    pub fn message(&self) -> (r: String)
        ensures
            r@ == error_text(*self),
    {
        let (title, detail): (&str, Option<&String>) = match self {
            AppError::NotFound(m) => ("Not Found: ", Some(m)),
            AppError::Database(m) => ("Database Error: ", Some(m)),
            AppError::Cache(m) => ("Cache Error: ", Some(m)),
            AppError::Unauthorized => ("Unauthorized", None),
            AppError::Forbidden(m) => ("Forbidden: ", Some(m)),
            AppError::MissingContext(m) => ("Missing Context: ", Some(m)),
            AppError::InternalServerError(m) => ("Internal Server Error: ", Some(m)),
            AppError::ValidationFailed(m) => ("Validation Failed: ", Some(m)),
            AppError::BadRequest(m) => ("Bad Request: ", Some(m)),
        };
        let mut out = String::new();
        out.append(title);
        match detail {
            Some(m) => out.append(m.as_str()),
            None => {},
        }
        out
    }
}

} // verus!
