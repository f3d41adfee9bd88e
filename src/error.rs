use vstd::prelude::*;
use crate::response::{ApiResponse, Reply};

verus! {

/// The message shown to the caller when the store fails.
pub open spec fn database_error_text() -> Seq<char> {
    "Database error occurred"@
}

/// What can go wrong while serving a request.
#[derive(Clone, Debug)]
pub enum AppError {
    /// The store failed; the text is the store's own report, kept for the
    /// server log and never shown to the caller.
    Database(String),
    /// No record matched the identifier of the request.
    NotFound,
    /// The input broke a constraint; the text is shown to the caller.
    ValidationError(String),
    /// An unexpected failure; the text is kept for the server log.
    InternalError(String),
}

impl AppError {
    /// The HTTP status code for this failure.
    pub open spec fn status_spec(&self) -> u16 {
        match self {
            AppError::Database(_) => 500,
            AppError::NotFound => 404,
            AppError::ValidationError(_) => 400,
            AppError::InternalError(_) => 500,
        }
    }

    /// The message shown to the caller for this failure.
    pub open spec fn message_spec(&self) -> Seq<char> {
        match self {
            AppError::Database(_) => database_error_text(),
            AppError::NotFound => "Resource not found"@,
            AppError::ValidationError(m) => m@,
            AppError::InternalError(_) => "Internal server error"@,
        }
    }

    pub fn status_code(&self) -> (r: u16)
        ensures
            r == self.status_spec(),
    {
        match self {
            AppError::Database(_) => 500,
            AppError::NotFound => 404,
            AppError::ValidationError(_) => 400,
            AppError::InternalError(_) => 500,
        }
    }

    pub fn message(&self) -> (r: String)
        ensures
            r@ == self.message_spec(),
    {
        match self {
            AppError::Database(_) => "Database error occurred".to_owned(),
            AppError::NotFound => "Resource not found".to_owned(),
            AppError::ValidationError(m) => m.clone(),
            AppError::InternalError(_) => "Internal server error".to_owned(),
        }
    }

    /// The reply sent for this failure: its status code and an error envelope
    /// with the caller-facing message.
    pub fn into_reply<T>(self) -> (r: Reply<T>)
        ensures
            r.status == self.status_spec(),
            r.body.is_error_with(self.message_spec()),
    {
        let status = self.status_code();
        let message = self.message();
        Reply { status, body: ApiResponse::error(message.as_str()) }
    }
}

} // verus!
