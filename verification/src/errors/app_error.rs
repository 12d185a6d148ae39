//! The failures that the service reports, and the reply that each one becomes.

use vstd::prelude::*;
use crate::errors::validation::{BAD_REQUEST, ValidationErrorResponse, ValidationErrorResponseView};
use crate::responses::error::{ErrorResponse, ErrorResponseView};

verus! {

/// Status of a reply to a request without valid credentials or rights.
pub const UNAUTHORIZED: u16 = 401;

/// Status of a reply about an account or a part that does not exist.
pub const NOT_FOUND: u16 = 404;

/// Status of a reply to a signup under a login name that is taken.
pub const CONFLICT: u16 = 409;

/// Status of a reply about a failure inside the service.
pub const INTERNAL_SERVER_ERROR: u16 = 500;

/// Why a request could not be served.
#[derive(Debug)]
pub enum AppError {
    /// The request body broke a rule of its type.
    ValidationError(ValidationErrorResponse),
    /// The account or part does not exist.
    NotFound(String),
    /// The login name is taken.
    Conflict(String),
    /// The store failed.
    DatabaseError(String),
    /// The service is misconfigured or holds corrupt data.
    InternalError(String),
    /// Wrong credentials, a bad token, or a part of somebody else.
    Unauthorized(String),
}

/// Mathematical model of an [`AppError`].
pub enum AppErrorView {
    ValidationError(ValidationErrorResponseView),
    NotFound(Seq<char>),
    Conflict(Seq<char>),
    DatabaseError(Seq<char>),
    InternalError(Seq<char>),
    Unauthorized(Seq<char>),
}

impl View for AppError {
    type V = AppErrorView;

    open spec fn view(&self) -> AppErrorView {
        match self {
            AppError::ValidationError(errors) => AppErrorView::ValidationError(errors@),
            AppError::NotFound(message) => AppErrorView::NotFound(message@),
            AppError::Conflict(message) => AppErrorView::Conflict(message@),
            AppError::DatabaseError(message) => AppErrorView::DatabaseError(message@),
            AppError::InternalError(message) => AppErrorView::InternalError(message@),
            AppError::Unauthorized(message) => AppErrorView::Unauthorized(message@),
        }
    }
}

/// The model of what a fallible operation of the service returned.
pub open spec fn result_view<T: View>(result: Result<T, AppError>) -> Result<T::V, AppErrorView> {
    match result {
        Ok(value) => Ok(value@),
        Err(error) => Err(error@),
    }
}

/// What a failure reply carries.
#[derive(Debug)]
pub enum ErrorBody {
    /// The violations, line by line.
    Validation(ValidationErrorResponse),
    /// A single message.
    Error(ErrorResponse),
}

/// A failure reply: its status and its body.
#[derive(Debug)]
pub struct ErrorReply {
    pub status: u16,
    pub body: ErrorBody,
}

/// Mathematical model of an [`ErrorBody`].
pub enum ErrorBodyView {
    Validation(ValidationErrorResponseView),
    Error(ErrorResponseView),
}

/// Mathematical model of an [`ErrorReply`].
pub struct ErrorReplyView {
    pub status: u16,
    pub body: ErrorBodyView,
}

impl View for ErrorBody {
    type V = ErrorBodyView;

    open spec fn view(&self) -> ErrorBodyView {
        match self {
            ErrorBody::Validation(errors) => ErrorBodyView::Validation(errors@),
            ErrorBody::Error(error) => ErrorBodyView::Error(error@),
        }
    }
}

impl View for ErrorReply {
    type V = ErrorReplyView;

    open spec fn view(&self) -> ErrorReplyView {
        ErrorReplyView { status: self.status, body: self.body@ }
    }
}

impl AppErrorView {
    /// The status under which the failure is reported.
    pub open spec fn status(self) -> u16 {
        match self {
            AppErrorView::ValidationError(_) => BAD_REQUEST,
            AppErrorView::NotFound(_) => NOT_FOUND,
            AppErrorView::Conflict(_) => CONFLICT,
            AppErrorView::DatabaseError(_) => INTERNAL_SERVER_ERROR,
            AppErrorView::InternalError(_) => INTERNAL_SERVER_ERROR,
            AppErrorView::Unauthorized(_) => UNAUTHORIZED,
        }
    }

    /// The reply that reports the failure: a validation failure sends its
    /// list of violations, every other failure sends its message together
    /// with its status.
    pub open spec fn reply(self) -> ErrorReplyView {
        ErrorReplyView {
            status: self.status(),
            body: match self {
                AppErrorView::ValidationError(errors) => ErrorBodyView::Validation(errors),
                AppErrorView::NotFound(message)
                | AppErrorView::Conflict(message)
                | AppErrorView::DatabaseError(message)
                | AppErrorView::InternalError(message)
                | AppErrorView::Unauthorized(message) => ErrorBodyView::Error(
                    ErrorResponseView { success: false, code: self.status(), message },
                ),
            },
        }
    }
}

impl AppError {
    /// The status under which the failure is reported.
    pub fn status_code(&self) -> (status: u16)
        ensures
            status == self@.status(),
    {
        match self {
            AppError::ValidationError(_) => BAD_REQUEST,
            AppError::NotFound(_) => NOT_FOUND,
            AppError::Conflict(_) => CONFLICT,
            AppError::DatabaseError(_) => INTERNAL_SERVER_ERROR,
            AppError::InternalError(_) => INTERNAL_SERVER_ERROR,
            AppError::Unauthorized(_) => UNAUTHORIZED,
        }
    }

    /// Turns the failure into the reply that reports it.
    pub fn into_response(self) -> (reply: ErrorReply)
        ensures
            reply@ == self@.reply(),
    {
        let response: ErrorReply = match self {
            AppError::ValidationError(errors) => {
                let status = BAD_REQUEST;
                ErrorReply { status, body: ErrorBody::Validation(errors) }
            },
            AppError::NotFound(message) => {
                let status = NOT_FOUND;
                ErrorReply { status, body: ErrorBody::Error(ErrorResponse::failure(status, message)) }
            },
            AppError::Conflict(message) => {
                let status = CONFLICT;
                ErrorReply { status, body: ErrorBody::Error(ErrorResponse::failure(status, message)) }
            },
            AppError::DatabaseError(message) => {
                let status = INTERNAL_SERVER_ERROR;
                ErrorReply { status, body: ErrorBody::Error(ErrorResponse::failure(status, message)) }
            },
            AppError::InternalError(message) => {
                let status = INTERNAL_SERVER_ERROR;
                ErrorReply { status, body: ErrorBody::Error(ErrorResponse::failure(status, message)) }
            },
            AppError::Unauthorized(message) => {
                let status = UNAUTHORIZED;
                ErrorReply { status, body: ErrorBody::Error(ErrorResponse::failure(status, message)) }
            },
        };
        response
    }
}

} // verus!
