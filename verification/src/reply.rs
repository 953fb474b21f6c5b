//! What a handler answers: a status code, a body and, where a session
//! begins or ends, a cookie to set.

use crate::error::AppError;
use crate::model::{
    CommentModelResponse, CommentModelResponseView, FilteredUser, FilteredUserView,
    TicketModelResponse, TicketModelResponseView,
};
use crate::store::{Statement, StatementView};
use crate::utils::jwt::{ErrorResponse, ErrorResponseView};
use vstd::prelude::*;
use vstd::string::*;

verus! {

/// The status code of a request that went through.
pub const OK: u16 = 200;

/// The status code of a request that went through and has nothing to show.
pub const NO_CONTENT: u16 = 204;

/// The status code of a request that the service cannot take as it is.
pub const BAD_REQUEST: u16 = 400;

/// The status code of a request that the guard does not let through.
pub const UNAUTHORIZED: u16 = 401;

/// The status code of a request for something that is not there.
pub const NOT_FOUND: u16 = 404;

/// The status code of a request that breaches a uniqueness constraint.
pub const CONFLICT: u16 = 409;

/// The status code of a failure inside the service or the store.
pub const INTERNAL_SERVER_ERROR: u16 = 500;

/// The body of a reply. Each variant is one shape of JSON.
#[derive(Debug, Clone, PartialEq, Eq)]
pub enum Body {
    /// No body at all.
    Empty,
    /// `{"status": .., "message": ..}`.
    Message(ErrorResponse),
    /// `{"status": .., "result": ..}`.
    Outcome { status: &'static str, result: &'static str },
    /// `{"status": ..}`.
    Status { status: &'static str },
    /// `{"status": .., "token": .., "user": {..}}`.
    Session { status: &'static str, token: String, user: FilteredUser },
    /// `{"status": .., "data": {"user": {..}}}`.
    Profile { status: &'static str, user: FilteredUser },
    /// `{"access_token": ..}`, with `null` where there is none.
    AccessToken(Option<String>),
    /// A list of tickets.
    Tickets(Vec<TicketModelResponse>),
    /// One ticket.
    Ticket(TicketModelResponse),
    /// `{"ticket": {..}, "status": ..}`.
    Updated { ticket: TicketModelResponse, status: &'static str },
    /// A list of comments.
    Comments(Vec<CommentModelResponse>),
}

/// What a [`Body`] holds.
pub enum BodyView {
    Empty,
    Message(ErrorResponseView),
    Outcome { status: Seq<char>, result: Seq<char> },
    Status { status: Seq<char> },
    Session { status: Seq<char>, token: Seq<char>, user: FilteredUserView },
    Profile { status: Seq<char>, user: FilteredUserView },
    AccessToken(Option<Seq<char>>),
    Tickets(Seq<TicketModelResponseView>),
    Ticket(TicketModelResponseView),
    Updated { ticket: TicketModelResponseView, status: Seq<char> },
    Comments(Seq<CommentModelResponseView>),
}

impl View for Body {
    type V = BodyView;

    open spec fn view(&self) -> BodyView {
        match self {
            Body::Empty => BodyView::Empty,
            Body::Message(message) => BodyView::Message(message@),
            Body::Outcome { status, result } => BodyView::Outcome {
                status: status@,
                result: result@,
            },
            Body::Status { status } => BodyView::Status { status: status@ },
            Body::Session { status, token, user } => BodyView::Session {
                status: status@,
                token: token@,
                user: user@,
            },
            Body::Profile { status, user } => BodyView::Profile { status: status@, user: user@ },
            Body::AccessToken(token) => BodyView::AccessToken(token.deep_view()),
            Body::Tickets(tickets) => BodyView::Tickets(tickets.deep_view()),
            Body::Ticket(ticket) => BodyView::Ticket(ticket@),
            Body::Updated { ticket, status } => BodyView::Updated {
                ticket: ticket@,
                status: status@,
            },
            Body::Comments(comments) => BodyView::Comments(comments.deep_view()),
        }
    }
}

/// The answer to a request.
#[derive(Debug, Clone, PartialEq, Eq)]
pub struct Reply {
    /// The HTTP status code.
    pub status: u16,
    /// The value of a `Set-Cookie` header to send along, if any.
    pub set_cookie: Option<String>,
    pub body: Body,
}

/// What a [`Reply`] holds.
pub struct ReplyView {
    pub status: u16,
    pub set_cookie: Option<Seq<char>>,
    pub body: BodyView,
}

impl View for Reply {
    type V = ReplyView;

    open spec fn view(&self) -> ReplyView {
        ReplyView {
            status: self.status,
            set_cookie: self.set_cookie.deep_view(),
            body: self.body@,
        }
    }
}

impl ReplyView {
    /// A reply without a cookie.
    pub open spec fn plain(status: u16, body: BodyView) -> ReplyView {
        ReplyView { status, set_cookie: None, body }
    }

    /// A reply with a status word and a message for a body.
    pub open spec fn message(code: u16, status: Seq<char>, message: Seq<char>) -> ReplyView {
        ReplyView::plain(code, BodyView::Message(ErrorResponseView { status, message }))
    }

    /// The reply that reports `error`: its status code, and its message
    /// under the status word `error`.
    pub open spec fn failure(error: AppError) -> ReplyView {
        ReplyView::message(error.spec_status_code(), "error"@, error.spec_message())
    }

    /// The one reply to every failure inside the service or the store: it
    /// says nothing of what went wrong.
    pub open spec fn internal_error() -> ReplyView {
        ReplyView::failure(AppError::InternalServerError)
    }

    /// Whether the reply reports success.
    pub open spec fn is_success(self) -> bool {
        200 <= self.status < 300
    }
}

impl Reply {
    /// A reply without a cookie.
    pub fn plain(status: u16, body: Body) -> (reply: Reply)
        ensures
            reply@ == ReplyView::plain(status, body@),
    {
        Reply { status, set_cookie: None, body }
    }

    /// A reply with a status word and a message for a body.
    pub fn message(code: u16, status: &'static str, message: String) -> (reply: Reply)
        ensures
            reply@ == ReplyView::message(code, status@, message@),
    {
        Reply::plain(code, Body::Message(ErrorResponse { status, message }))
    }

    /// The reply that reports `error`.
    pub fn failure(error: AppError) -> (reply: Reply)
        ensures
            reply@ == ReplyView::failure(error),
    {
        Reply::message(error.status_code(), "error", error.message().to_string())
    }

    /// The one reply to every failure inside the service or the store.
    pub fn internal_error() -> (reply: Reply)
        ensures
            reply@ == ReplyView::internal_error(),
            reply.status == INTERNAL_SERVER_ERROR,
    {
        Reply::failure(AppError::InternalServerError)
    }

    /// Whether the reply reports success.
    pub fn is_success(&self) -> (success: bool)
        ensures
            success == self@.is_success(),
    {
        200 <= self.status && self.status < 300
    }
}

/// What a handler wants done next.
#[derive(Debug, Clone, PartialEq, Eq)]
pub enum Action {
    /// Run the statement and come back with its outcome.
    Run(Statement),
    /// Send the reply; the exchange is over.
    Respond(Reply),
}

/// What an [`Action`] holds.
pub enum ActionView {
    Run(StatementView),
    Respond(ReplyView),
}

impl View for Action {
    type V = ActionView;

    open spec fn view(&self) -> ActionView {
        match self {
            Action::Run(statement) => ActionView::Run(statement@),
            Action::Respond(reply) => ActionView::Respond(reply@),
        }
    }
}

/// Where a handler that sends one statement stands.
#[derive(Debug, Clone, Copy, PartialEq, Eq, Structural)]
pub enum Stage {
    /// Nothing has been done for the request yet.
    Start,
    /// The statement is out and its outcome is awaited.
    Waiting,
    /// The reply has been given.
    Done,
}

/// The view of a step of a handler that sends one statement.
pub open spec fn step_view(step: (Stage, Action)) -> (Stage, ActionView) {
    (step.0, step.1@)
}

/// The step that ends a handler with `reply`.
pub open spec fn finished(reply: ReplyView) -> (Stage, ActionView) {
    (Stage::Done, ActionView::Respond(reply))
}

/// The step that ends a handler with `reply`.
pub fn finish(reply: Reply) -> (step: (Stage, Action))
    ensures
        step_view(step) == finished(reply@),
{
    (Stage::Done, Action::Respond(reply))
}

} // verus!
