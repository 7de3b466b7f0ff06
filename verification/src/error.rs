//! The failures that a handler reports, and the response each one becomes.

use vstd::prelude::*;
use crate::response::Response;
use crate::response::ResponseView;
use crate::response::INTERNAL_SERVER_ERROR;
use crate::response::SERVICE_UNAVAILABLE;

verus! {

/// Why a request failed. Each failure ends the request: nothing is retried.
#[derive(Debug, Clone, PartialEq, Eq)]
pub enum AppError {
    /// No usable connection to the store could be had from the pool. The
    /// message describes the cause.
    ConnectionError(String),
    /// The store did not carry out the statement: a violated constraint, a
    /// malformed statement, or a point lookup that matched no row. The
    /// message describes the cause.
    QueryError(String),
}

/// The mathematical value of an [`AppError`].
pub enum AppErrorView {
    ConnectionError(Seq<char>),
    QueryError(Seq<char>),
}

impl View for AppError {
    type V = AppErrorView;

    open spec fn view(&self) -> AppErrorView {
        match self {
            AppError::ConnectionError(message) => AppErrorView::ConnectionError(message@),
            AppError::QueryError(message) => AppErrorView::QueryError(message@),
        }
    }
}

impl AppErrorView {
    /// The description of the failure.
    pub open spec fn message(self) -> Seq<char> {
        match self {
            AppErrorView::ConnectionError(message) => message,
            AppErrorView::QueryError(message) => message,
        }
    }

    /// 503 for a failed connection, 500 for a failed statement.
    pub open spec fn status_code(self) -> u16 {
        match self {
            AppErrorView::ConnectionError(_) => SERVICE_UNAVAILABLE,
            AppErrorView::QueryError(_) => INTERNAL_SERVER_ERROR,
        }
    }

    /// The response that reports this failure.
    pub open spec fn error_response(self) -> ResponseView {
        ResponseView::error(self.status_code(), self.message())
    }
}

impl AppError {
    /// The description of the failure.
    pub fn message(&self) -> (message: &String)
        ensures
            message@ == self@.message(),
    {
        match self {
            AppError::ConnectionError(message) => message,
            AppError::QueryError(message) => message,
        }
    }

    /// The failure as text: its message, whatever its kind.
    pub fn to_text(&self) -> (text: String)
        ensures
            text@ == self@.message(),
    {
        self.message().clone()
    }

    /// The status code under which the failure is reported.
    pub fn status_code(&self) -> (code: u16)
        ensures
            code == self@.status_code(),
            self is ConnectionError ==> code == 503,
            self is QueryError ==> code == 500,
    {
        match self {
            AppError::ConnectionError(_) => SERVICE_UNAVAILABLE,
            AppError::QueryError(_) => INTERNAL_SERVER_ERROR,
        }
    }

    /// The response that reports this failure: its status code, and a body
    /// that repeats the code beside the message.
    pub fn error_response(&self) -> (response: Response)
        ensures
            response@ == self@.error_response(),
    {
        Response::error(self.status_code(), self.to_text())
    }
}

/// Every failed connection is reported as 503 and every failed statement as
/// 500; a failure is reported under no other status, and the body of the
/// report repeats the status beside the unchanged message.
pub proof fn lemma_error_mapping_is_total(error: AppErrorView)
    ensures
        error is ConnectionError <==> error.error_response().status == 503,
        error is QueryError <==> error.error_response().status == 500,
        error.error_response().status == 503 || error.error_response().status == 500,
        error.error_response() == ResponseView::error(
            error.error_response().status,
            error.message(),
        ),
{
}

} // verus!
