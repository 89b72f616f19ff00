//! The endpoints, each as a state machine.
//!
//! An endpoint never performs I/O. Its function takes the state it is in and
//! the [`Event`] that just happened, and returns the next state and the
//! [`Action`] to perform: a store round-trip, a mail to send, or the final
//! [`Response`]. The caller starts with [`Event::Begin`], performs each
//! action, and feeds back what came of it until it is handed a reply.

use vstd::prelude::*;
use vstd::string::StringExecFns;

use crate::models::app::{AppListResponse, AppListView, AppResponse, AppView};
use crate::models::article::{Article, ArticleView};
use crate::models::{
    AuthResponse, AuthResponseView, MessageResponse, UserResponse, UserResponseView,
};
use crate::store::{StoreReply, StoreReplyView, StoreRequest, StoreRequestView};
use crate::utils::email::{Mail, MailView};
use crate::utils::{
    AppError, AppErrorView, STATUS_BAD_REQUEST, STATUS_INTERNAL_ERROR, STATUS_NOT_FOUND,
};

pub mod app;
pub mod article;
pub mod auth;

verus! {

/// Status of a request that was served.
pub const STATUS_OK: u16 = 200;

/// Status of a request that created something.
pub const STATUS_CREATED: u16 = 201;

/// Why a request was refused.
#[derive(Debug, Clone, Copy, PartialEq, Eq, Structural)]
pub enum Rejection {
    /// The email already belongs to an account.
    DuplicateAccount,
    /// Unknown email, wrong code or expired code: never told apart.
    InvalidCredentials,
    /// The resource does not exist, or the caller may not see it.
    NotFound,
    /// The resource does not exist, or the caller does not own it.
    NotFoundOrForbidden,
    /// An update that names no field.
    NoFieldsToUpdate,
    /// An article status that is neither draft nor published.
    InvalidStatus,
    /// The identifier already belongs to an application.
    DuplicateIdentifier,
    /// A page whose row offset does not fit in 64 bits.
    InvalidPage,
    /// The store reported an error, or answered something else than asked.
    StoreFailure,
    /// The mail could not be sent.
    MailFailure,
    /// The session token could not be minted: its expiry does not fit.
    TokenFailure,
}

impl Rejection {
    /// The HTTP status a refusal is answered with: 400 for input that is
    /// refused, 404 for what is absent or hidden, 500 where the server
    /// failed.
    pub open spec fn spec_status(self) -> u16 {
        match self {
            Rejection::DuplicateAccount => STATUS_BAD_REQUEST,
            Rejection::InvalidCredentials => STATUS_BAD_REQUEST,
            Rejection::NoFieldsToUpdate => STATUS_BAD_REQUEST,
            Rejection::InvalidStatus => STATUS_BAD_REQUEST,
            Rejection::DuplicateIdentifier => STATUS_BAD_REQUEST,
            Rejection::InvalidPage => STATUS_BAD_REQUEST,
            Rejection::NotFound => STATUS_NOT_FOUND,
            Rejection::NotFoundOrForbidden => STATUS_NOT_FOUND,
            Rejection::StoreFailure => STATUS_INTERNAL_ERROR,
            Rejection::MailFailure => STATUS_INTERNAL_ERROR,
            Rejection::TokenFailure => STATUS_INTERNAL_ERROR,
        }
    }

    /// The error a refusal amounts to: a validation error for input that is
    /// refused, not found for what is absent or hidden, and an error of the
    /// store where the server failed.
    pub open spec fn error(self, message: Seq<char>) -> AppErrorView {
        match self {
            Rejection::DuplicateAccount => AppErrorView::ValidationError(message),
            Rejection::InvalidCredentials => AppErrorView::ValidationError(message),
            Rejection::NoFieldsToUpdate => AppErrorView::ValidationError(message),
            Rejection::InvalidStatus => AppErrorView::ValidationError(message),
            Rejection::DuplicateIdentifier => AppErrorView::ValidationError(message),
            Rejection::InvalidPage => AppErrorView::ValidationError(message),
            Rejection::NotFound => AppErrorView::NotFound(message),
            Rejection::NotFoundOrForbidden => AppErrorView::NotFound(message),
            Rejection::StoreFailure => AppErrorView::DatabaseError(message),
            Rejection::MailFailure => AppErrorView::DatabaseError(message),
            Rejection::TokenFailure => AppErrorView::DatabaseError(message),
        }
    }

    /// The error a refusal amounts to. It is answered with the same status.
    pub fn into_error(self, message: String) -> (e: AppError)
        ensures
            e@ == self.error(message@),
            e@.status() == self.status(),
    {
        match self {
            Rejection::DuplicateAccount => AppError::ValidationError(message),
            Rejection::InvalidCredentials => AppError::ValidationError(message),
            Rejection::NoFieldsToUpdate => AppError::ValidationError(message),
            Rejection::InvalidStatus => AppError::ValidationError(message),
            Rejection::DuplicateIdentifier => AppError::ValidationError(message),
            Rejection::InvalidPage => AppError::ValidationError(message),
            Rejection::NotFound => AppError::NotFound(message),
            Rejection::NotFoundOrForbidden => AppError::NotFound(message),
            Rejection::StoreFailure => AppError::DatabaseError(message),
            Rejection::MailFailure => AppError::DatabaseError(message),
            Rejection::TokenFailure => AppError::DatabaseError(message),
        }
    }

    /// The HTTP status a refusal is answered with.
    #[verifier::when_used_as_spec(spec_status)]
    pub fn status(self) -> (r: u16)
        ensures
            r == self.spec_status(),
    {
        match self {
            Rejection::DuplicateAccount => STATUS_BAD_REQUEST,
            Rejection::InvalidCredentials => STATUS_BAD_REQUEST,
            Rejection::NoFieldsToUpdate => STATUS_BAD_REQUEST,
            Rejection::InvalidStatus => STATUS_BAD_REQUEST,
            Rejection::DuplicateIdentifier => STATUS_BAD_REQUEST,
            Rejection::InvalidPage => STATUS_BAD_REQUEST,
            Rejection::NotFound => STATUS_NOT_FOUND,
            Rejection::NotFoundOrForbidden => STATUS_NOT_FOUND,
            Rejection::StoreFailure => STATUS_INTERNAL_ERROR,
            Rejection::MailFailure => STATUS_INTERNAL_ERROR,
            Rejection::TokenFailure => STATUS_INTERNAL_ERROR,
        }
    }
}

/// The body of a response.
#[derive(Debug, Clone, PartialEq, Eq)]
pub enum Body {
    /// A bare text.
    Text(String),
    /// A message for the client.
    Message(MessageResponse),
    /// A refusal: why, and the message for the client.
    Rejected { reason: Rejection, message: String },
    /// A session token with its account.
    Auth(AuthResponse),
    /// An account.
    User(UserResponse),
    /// An article.
    Article(Article),
    /// Articles.
    Articles(Vec<Article>),
    /// An application.
    App(AppResponse),
    /// One page of applications.
    Apps(AppListResponse),
}

/// The mathematical value of a [`Body`].
pub enum BodyView {
    Text(Seq<char>),
    Message(Seq<char>),
    Rejected { reason: Rejection, message: Seq<char> },
    Auth(AuthResponseView),
    User(UserResponseView),
    Article(ArticleView),
    Articles(Seq<ArticleView>),
    App(AppView),
    Apps(AppListView),
}

impl View for Body {
    type V = BodyView;

    open spec fn view(&self) -> BodyView {
        match self {
            Body::Text(t) => BodyView::Text(t@),
            Body::Message(m) => BodyView::Message(m.message@),
            Body::Rejected { reason, message } => BodyView::Rejected {
                reason: *reason,
                message: message@,
            },
            Body::Auth(a) => BodyView::Auth(a@),
            Body::User(u) => BodyView::User(u@),
            Body::Article(a) => BodyView::Article(a@),
            Body::Articles(rows) => BodyView::Articles(rows.deep_view()),
            Body::App(a) => BodyView::App(a@),
            Body::Apps(page) => BodyView::Apps(page@),
        }
    }
}

/// What the client is answered: an HTTP status and a body.
#[derive(Debug, Clone, PartialEq, Eq)]
pub struct Response {
    pub status: u16,
    pub body: Body,
}

/// The mathematical value of a [`Response`].
pub struct ResponseView {
    pub status: u16,
    pub body: BodyView,
}

impl View for Response {
    type V = ResponseView;

    open spec fn view(&self) -> ResponseView {
        ResponseView { status: self.status, body: self.body@ }
    }
}

impl ResponseView {
    /// A served request with `body`.
    pub open spec fn ok(body: BodyView) -> ResponseView {
        ResponseView { status: STATUS_OK, body }
    }

    /// A served request with a message.
    pub open spec fn message(status: u16, message: Seq<char>) -> ResponseView {
        ResponseView { status, body: BodyView::Message(message) }
    }

    /// A refusal for `reason`, answered with the status of that reason.
    pub open spec fn rejected(reason: Rejection, message: Seq<char>) -> ResponseView {
        ResponseView { status: reason.status(), body: BodyView::Rejected { reason, message } }
    }

    /// Whether the session token is not empty, where the response carries one.
    pub open spec fn token_is_present(self) -> bool {
        self.body matches BodyView::Auth(auth) ==> auth.token.len() > 0
    }

    /// Why the request was refused, if it was.
    pub open spec fn rejection(self) -> Option<Rejection> {
        match self.body {
            BodyView::Rejected { reason, message } => Some(reason),
            _ => None,
        }
    }
}

impl Response {
    /// A served request with `body`.
    pub fn ok(body: Body) -> (r: Response)
        ensures
            r@ == ResponseView::ok(body@),
    {
        Response { status: STATUS_OK, body }
    }

    /// A served request with a message.
    pub fn message(status: u16, message: &str) -> (r: Response)
        ensures
            r@ == ResponseView::message(status, message@),
    {
        Response { status, body: Body::Message(MessageResponse { message: String::from_str(message) }) }
    }

    /// A refusal for `reason`, answered with the status of that reason.
    pub fn rejected(reason: Rejection, message: &str) -> (r: Response)
        ensures
            r@ == ResponseView::rejected(reason, message@),
    {
        Response {
            status: reason.status(),
            body: Body::Rejected { reason, message: String::from_str(message) },
        }
    }

    /// Why the request was refused, if it was.
    pub fn rejection(&self) -> (r: Option<Rejection>)
        ensures
            r == self@.rejection(),
    {
        match &self.body {
            Body::Rejected { reason, message } => Some(*reason),
            _ => None,
        }
    }
}

/// What an endpoint asks its caller to do next.
#[derive(Debug, Clone, PartialEq, Eq)]
pub enum Action {
    /// Run the request against the store and report its reply.
    Query(StoreRequest),
    /// Send the mail and report whether it went out.
    SendMail(Mail),
    /// Answer the client: the endpoint is done.
    Reply(Response),
}

/// The mathematical value of an [`Action`].
pub enum ActionView {
    Query(StoreRequestView),
    SendMail(MailView),
    Reply(ResponseView),
}

impl ActionView {
    /// Whether the session token is not empty, where the action is a reply
    /// that carries one.
    pub open spec fn token_is_present(self) -> bool {
        self matches ActionView::Reply(response) ==> response.token_is_present()
    }
}

impl View for Action {
    type V = ActionView;

    open spec fn view(&self) -> ActionView {
        match self {
            Action::Query(q) => ActionView::Query(q@),
            Action::SendMail(m) => ActionView::SendMail(m@),
            Action::Reply(r) => ActionView::Reply(r@),
        }
    }
}

/// What happened since the endpoint's last action.
#[derive(Debug, Clone, PartialEq, Eq)]
pub enum Event {
    /// The request arrived.
    Begin,
    /// The store answered.
    Store(StoreReply),
    /// The mail went out.
    MailSent,
    /// The mail could not be sent.
    MailFailed,
}

/// The mathematical value of an [`Event`].
pub enum EventView {
    Begin,
    Store(StoreReplyView),
    MailSent,
    MailFailed,
}

impl View for Event {
    type V = EventView;

    open spec fn view(&self) -> EventView {
        match self {
            Event::Begin => EventView::Begin,
            Event::Store(reply) => EventView::Store(reply@),
            Event::MailSent => EventView::MailSent,
            Event::MailFailed => EventView::MailFailed,
        }
    }
}

/// Where an endpoint without data of its own stands.
#[derive(Debug, Clone, Copy, PartialEq, Eq, Structural)]
pub enum Step {
    /// Nothing has happened yet.
    Start,
    /// A lookup is on its way.
    Looking,
    /// A write is on its way.
    Writing,
    /// The written row is being read back.
    Fetching,
    /// The client has been answered.
    Done,
}

/// The step and action of an endpoint that is done with `response`.
pub open spec fn finish(response: ResponseView) -> (Step, ActionView) {
    (Step::Done, ActionView::Reply(response))
}

pub(crate) fn done(response: Response) -> (r: (Step, Action))
    ensures
        (r.0, r.1@) == finish(response@),
{
    (Step::Done, Action::Reply(response))
}

/// The answer to a failure that has no message of its own.
pub open spec fn internal_error() -> ResponseView {
    ResponseView::rejected(Rejection::StoreFailure, "Internal server error"@)
}

/// The liveness probe: always `200 OK`.
pub fn health_check() -> (r: Response)
    ensures
        r@ == ResponseView::ok(BodyView::Text("OK"@)),
{
    Response::ok(Body::Text(String::from_str("OK")))
}

} // verus!
