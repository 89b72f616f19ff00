//! The error taxonomy of the backend and its mapping to HTTP status codes.

use vstd::prelude::*;
use vstd::string::StringExecFns;

pub mod email;

verus! {

/// Status of a request that was rejected for its input.
pub const STATUS_BAD_REQUEST: u16 = 400;

/// Status of a request without a valid bearer token.
pub const STATUS_UNAUTHORIZED: u16 = 401;

/// Status of a request for something absent, or hidden from the caller.
pub const STATUS_NOT_FOUND: u16 = 404;

/// Status of a request that failed inside the server.
pub const STATUS_INTERNAL_ERROR: u16 = 500;

/// What the client is told when the server failed: never the internal text.
pub open spec fn internal_error_text() -> Seq<char> {
    "Internal server error"@
}

/// An error of the backend. `DatabaseError` carries the store's own text,
/// which is logged and never shown.
#[derive(Debug, Clone, PartialEq, Eq)]
pub enum AppError {
    DatabaseError(String),
    ValidationError(String),
    NotFound(String),
    Unauthorized(String),
}

/// The mathematical value of an [`AppError`].
pub enum AppErrorView {
    DatabaseError(Seq<char>),
    ValidationError(Seq<char>),
    NotFound(Seq<char>),
    Unauthorized(Seq<char>),
}

impl View for AppError {
    type V = AppErrorView;

    open spec fn view(&self) -> AppErrorView {
        match self {
            AppError::DatabaseError(m) => AppErrorView::DatabaseError(m@),
            AppError::ValidationError(m) => AppErrorView::ValidationError(m@),
            AppError::NotFound(m) => AppErrorView::NotFound(m@),
            AppError::Unauthorized(m) => AppErrorView::Unauthorized(m@),
        }
    }
}

impl AppErrorView {
    /// The HTTP status an error is answered with.
    pub open spec fn status(self) -> u16 {
        match self {
            AppErrorView::DatabaseError(_) => STATUS_INTERNAL_ERROR,
            AppErrorView::ValidationError(_) => STATUS_BAD_REQUEST,
            AppErrorView::NotFound(_) => STATUS_NOT_FOUND,
            AppErrorView::Unauthorized(_) => STATUS_UNAUTHORIZED,
        }
    }

    /// The text the client is shown: the error's own message, but a fixed
    /// text for errors of the store.
    pub open spec fn public_text(self) -> Seq<char> {
        match self {
            AppErrorView::DatabaseError(_) => internal_error_text(),
            AppErrorView::ValidationError(m) => m,
            AppErrorView::NotFound(m) => m,
            AppErrorView::Unauthorized(m) => m,
        }
    }

    /// The text for logs: the kind of error, then its message.
    pub open spec fn text(self) -> Seq<char> {
        match self {
            AppErrorView::DatabaseError(m) => "Database error: "@ + m,
            AppErrorView::ValidationError(m) => "Validation error: "@ + m,
            AppErrorView::NotFound(m) => "Not found: "@ + m,
            AppErrorView::Unauthorized(m) => "Unauthorized: "@ + m,
        }
    }
}

/// The answer an error turns into: a status and one `error` text.
#[derive(Debug, Clone, PartialEq, Eq)]
pub struct ErrorResponse {
    pub status: u16,
    pub error: String,
}

impl AppError {
    /// The HTTP status the error is answered with.
    pub fn status(&self) -> (r: u16)
        ensures
            r == self@.status(),
    {
        match self {
            AppError::DatabaseError(_) => STATUS_INTERNAL_ERROR,
            AppError::ValidationError(_) => STATUS_BAD_REQUEST,
            AppError::NotFound(_) => STATUS_NOT_FOUND,
            AppError::Unauthorized(_) => STATUS_UNAUTHORIZED,
        }
    }

    /// The answer the client gets. An error of the store never shows its own text.
    pub fn error_response(&self) -> (r: ErrorResponse)
        ensures
            r.status == self@.status(),
            r.error@ == self@.public_text(),
    {
        match self {
            AppError::DatabaseError(_) => ErrorResponse {
                status: STATUS_INTERNAL_ERROR,
                error: String::from_str("Internal server error"),
            },
            AppError::ValidationError(m) => ErrorResponse {
                status: STATUS_BAD_REQUEST,
                error: m.clone(),
            },
            AppError::NotFound(m) => ErrorResponse { status: STATUS_NOT_FOUND, error: m.clone() },
            AppError::Unauthorized(m) => ErrorResponse {
                status: STATUS_UNAUTHORIZED,
                error: m.clone(),
            },
        }
    }

    /// The text for logs: the kind of error, then its message.
    pub fn message(&self) -> (r: String)
        ensures
            r@ == self@.text(),
    {
        match self {
            AppError::DatabaseError(m) => String::from_str("Database error: ").concat(m.as_str()),
            AppError::ValidationError(m) => String::from_str("Validation error: ").concat(
                m.as_str(),
            ),
            AppError::NotFound(m) => String::from_str("Not found: ").concat(m.as_str()),
            AppError::Unauthorized(m) => String::from_str("Unauthorized: ").concat(m.as_str()),
        }
    }
}

} // verus!
