//! Body of a reply that reports a failure.

use vstd::prelude::*;

verus! {

/// The message of a failure.
#[derive(Debug)]
pub struct ErrorDetail {
    pub message: String,
}

/// Body of every failure reply but a validation failure.
#[derive(Debug)]
pub struct ErrorResponse {
    pub success: bool,
    pub code: u16,
    pub error: ErrorDetail,
}

/// Mathematical model of an [`ErrorResponse`].
pub struct ErrorResponseView {
    pub success: bool,
    pub code: u16,
    pub message: Seq<char>,
}

impl View for ErrorDetail {
    type V = Seq<char>;

    open spec fn view(&self) -> Seq<char> {
        self.message@
    }
}

impl View for ErrorResponse {
    type V = ErrorResponseView;

    open spec fn view(&self) -> ErrorResponseView {
        ErrorResponseView { success: self.success, code: self.code, message: self.error@ }
    }
}

impl ErrorResponse {
    /// The body that reports `message` under the status `code`.
    pub fn failure(code: u16, message: String) -> (body: ErrorResponse)
        ensures
            body@ == (ErrorResponseView { success: false, code, message: message@ }),
    {
        ErrorResponse { success: false, code, error: ErrorDetail { message } }
    }
}

} // verus!
