//! What a handler answers: a status code and a body.

use vstd::prelude::*;
use crate::user::User;
use crate::user::UserView;

verus! {

/// 200 OK.
pub const OK: u16 = 200;

/// 201 Created.
pub const CREATED: u16 = 201;

/// 204 No Content.
pub const NO_CONTENT: u16 = 204;

/// 500 Internal Server Error.
pub const INTERNAL_SERVER_ERROR: u16 = 500;

/// 503 Service Unavailable.
pub const SERVICE_UNAVAILABLE: u16 = 503;

/// The JSON object that reports a failure: `{"code": .., "message": ..}`.
#[derive(Debug, Clone, PartialEq, Eq)]
pub struct ErrorResponse {
    /// The status code of the response that carries this body.
    pub code: u16,
    /// The description of the failure.
    pub message: String,
}

/// The mathematical value of an [`ErrorResponse`].
pub struct ErrorResponseView {
    pub code: u16,
    pub message: Seq<char>,
}

impl View for ErrorResponse {
    type V = ErrorResponseView;

    open spec fn view(&self) -> ErrorResponseView {
        ErrorResponseView { code: self.code, message: self.message@ }
    }
}

/// The body of a response.
#[derive(Debug, Clone, PartialEq, Eq)]
pub enum Body {
    /// No body at all.
    Empty,
    /// Plain text.
    Text(String),
    /// A user, sent as the JSON object `{"name": .., "username": .., "email": ..}`.
    User(User),
    /// A failure, sent as the JSON object `{"code": .., "message": ..}`.
    Error(ErrorResponse),
}

/// The mathematical value of a [`Body`].
pub enum BodyView {
    Empty,
    Text(Seq<char>),
    User(UserView),
    Error(ErrorResponseView),
}

impl View for Body {
    type V = BodyView;

    open spec fn view(&self) -> BodyView {
        match self {
            Body::Empty => BodyView::Empty,
            Body::Text(text) => BodyView::Text(text@),
            Body::User(user) => BodyView::User(user@),
            Body::Error(error) => BodyView::Error(error@),
        }
    }
}

/// A response: the status code and the body to send.
#[derive(Debug, Clone, PartialEq, Eq)]
pub struct Response {
    pub status: u16,
    pub body: Body,
}

/// The mathematical value of a [`Response`].
pub struct ResponseView {
    pub status: u16,
    pub body: BodyView,
}

impl View for Response {
    type V = ResponseView;

    open spec fn view(&self) -> ResponseView {
        ResponseView { status: self.status, body: self.body@ }
    }
}

impl ResponseView {
    /// The response with the given status and no body.
    pub open spec fn empty(status: u16) -> ResponseView {
        ResponseView { status, body: BodyView::Empty }
    }

    /// The response with the given status and a plain text body.
    pub open spec fn text(status: u16, text: Seq<char>) -> ResponseView {
        ResponseView { status, body: BodyView::Text(text) }
    }

    /// 200 with the user as its body.
    pub open spec fn user(user: UserView) -> ResponseView {
        ResponseView { status: OK, body: BodyView::User(user) }
    }

    /// The response that reports a failure: the status is sent both as the
    /// status of the response and as the `code` of its body.
    pub open spec fn error(status: u16, message: Seq<char>) -> ResponseView {
        ResponseView {
            status,
            body: BodyView::Error(ErrorResponseView { code: status, message }),
        }
    }

    /// Whether the response reports a failure.
    pub open spec fn is_error(self) -> bool {
        self.body is Error
    }
}

impl Response {
    /// The response with the given status and no body.
    pub fn empty(status: u16) -> (response: Response)
        ensures
            response@ == ResponseView::empty(status),
    {
        Response { status, body: Body::Empty }
    }

    /// The response with the given status and a plain text body.
    pub fn text(status: u16, text: String) -> (response: Response)
        ensures
            response@ == ResponseView::text(status, text@),
    {
        Response { status, body: Body::Text(text) }
    }

    /// 200 with the user as its body.
    pub fn user(user: User) -> (response: Response)
        ensures
            response@ == ResponseView::user(user@),
    {
        Response { status: OK, body: Body::User(user) }
    }

    /// The response that reports a failure with the given status.
    pub fn error(status: u16, message: String) -> (response: Response)
        ensures
            response@ == ResponseView::error(status, message@),
    {
        Response { status, body: Body::Error(ErrorResponse { code: status, message }) }
    }

    /// A copy of this response.
    pub fn duplicate(&self) -> (copy: Response)
        ensures
            copy@ == self@,
    {
        let body = match &self.body {
            Body::Empty => Body::Empty,
            Body::Text(text) => Body::Text(text.clone()),
            Body::User(user) => Body::User(user.duplicate()),
            Body::Error(error) => Body::Error(
                ErrorResponse { code: error.code, message: error.message.clone() },
            ),
        };
        Response { status: self.status, body }
    }
}

} // verus!
