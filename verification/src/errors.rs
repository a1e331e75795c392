//! The error taxonomy the trigger layer reports to its callers, and the
//! exact response each error turns into.

use vstd::prelude::*;
use crate::text::str_concat;

verus! {

/// An error of the externally triggered layer.  The variants carry the
/// underlying condition as plain text.
#[derive(Debug, Clone)]
pub enum AppError {
    /// The referenced resource does not exist.
    NotFound,
    /// A filesystem operation failed.
    IoError(String),
    /// Any other failure.
    Error(String),
}

/// The message of each error, word for word.
pub open spec fn spec_message(e: AppError) -> Seq<char> {
    match e {
        AppError::NotFound => "Resource not found."@,
        AppError::IoError(d) => "I/O Error: "@ + d@,
        AppError::Error(d) => "Unexpected error: "@ + d@,
    }
}

/// The HTTP status each error is reported with: 404 for a missing
/// resource, 500 for everything else.
pub open spec fn spec_status_code(e: AppError) -> int {
    match e {
        AppError::NotFound => 404,
        AppError::IoError(_) => 500,
        AppError::Error(_) => 500,
    }
}

/// The body of an error response.
#[derive(Debug, Clone)]
pub struct ErrResponse {
    pub message: String,
}

impl AppError {
    /// The status code of the response this error turns into.
    pub fn status_code(&self) -> (r: u16)
        ensures
            r as int == spec_status_code(*self),
    {
        match self {
            AppError::NotFound => 404,
            AppError::IoError(_) => 500,
            AppError::Error(_) => 500,
        }
    }

    /// The message of the response this error turns into.
    pub fn message(&self) -> (r: String)
        ensures
            r@ == spec_message(*self),
    {
        match self {
            AppError::NotFound => "Resource not found.".to_owned(),
            AppError::IoError(d) => str_concat("I/O Error: ", d.as_str()),
            AppError::Error(d) => str_concat("Unexpected error: ", d.as_str()),
        }
    }

    /// The whole response: status code and message body.
    pub fn response_parts(&self) -> (r: (u16, ErrResponse))
        ensures
            r.0 as int == spec_status_code(*self),
            r.1.message@ == spec_message(*self),
    {
        (self.status_code(), ErrResponse { message: self.message() })
    }
}

} // verus!
