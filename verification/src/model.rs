//! The rows that the store holds and the projections that go out to clients.

use vstd::prelude::*;

verus! {

/// A point in time: whole seconds since the Unix epoch, UTC, and the
/// nanoseconds past that second.
#[derive(Debug, Clone, Copy, PartialEq, Eq, Structural)]
pub struct Timestamp {
    pub secs: i64,
    pub nanos: u32,
}

/// A user as shown to clients: the password hash is left out.
#[derive(Debug, Clone, PartialEq, Eq)]
pub struct FilteredUser {
    pub id: String,
    pub name: String,
    pub email: String,
    pub role: String,
}

/// What a [`FilteredUser`] holds.
pub struct FilteredUserView {
    pub id: Seq<char>,
    pub name: Seq<char>,
    pub email: Seq<char>,
    pub role: Seq<char>,
}

impl View for FilteredUser {
    type V = FilteredUserView;

    open spec fn view(&self) -> FilteredUserView {
        FilteredUserView { id: self.id@, name: self.name@, email: self.email@, role: self.role@ }
    }
}

/// The claims that a session token carries: the user it was issued to, as
/// decimal text, and the seconds since the epoch at which it expires and at
/// which it was issued.
#[derive(Debug, Clone, PartialEq, Eq)]
pub struct TokenClaims {
    pub sub: String,
    pub exp: u64,
    pub iat: u64,
}

/// What a [`TokenClaims`] holds.
pub struct TokenClaimsView {
    pub sub: Seq<char>,
    pub exp: u64,
    pub iat: u64,
}

impl View for TokenClaims {
    type V = TokenClaimsView;

    open spec fn view(&self) -> TokenClaimsView {
        TokenClaimsView { sub: self.sub@, exp: self.exp, iat: self.iat }
    }
}

/// A row of the user table. Every column but the id may be null.
#[derive(Debug, Clone, PartialEq, Eq)]
pub struct LoginModel {
    pub id: i64,
    pub name: Option<String>,
    pub email: Option<String>,
    pub password: Option<String>,
    pub role: Option<String>,
}

/// What a [`LoginModel`] holds.
pub struct LoginModelView {
    pub id: i64,
    pub name: Option<Seq<char>>,
    pub email: Option<Seq<char>>,
    pub password: Option<Seq<char>>,
    pub role: Option<Seq<char>>,
}

impl View for LoginModel {
    type V = LoginModelView;

    open spec fn view(&self) -> LoginModelView {
        LoginModelView {
            id: self.id,
            name: self.name.deep_view(),
            email: self.email.deep_view(),
            password: self.password.deep_view(),
            role: self.role.deep_view(),
        }
    }
}

impl DeepView for LoginModel {
    type V = LoginModelView;

    open spec fn deep_view(&self) -> LoginModelView {
        self@
    }
}

/// The columns of the user table that registration looks at.
#[derive(Debug, Clone, PartialEq, Eq)]
pub struct RegisterModel {
    pub email: Option<String>,
    pub password: Option<String>,
    pub name: Option<String>,
}

/// What a [`RegisterModel`] holds.
pub struct RegisterModelView {
    pub email: Option<Seq<char>>,
    pub password: Option<Seq<char>>,
    pub name: Option<Seq<char>>,
}

impl View for RegisterModel {
    type V = RegisterModelView;

    open spec fn view(&self) -> RegisterModelView {
        RegisterModelView {
            email: self.email.deep_view(),
            password: self.password.deep_view(),
            name: self.name.deep_view(),
        }
    }
}

impl DeepView for RegisterModel {
    type V = RegisterModelView;

    open spec fn deep_view(&self) -> RegisterModelView {
        self@
    }
}

/// A row of the ticket table. The store sets both dates.
#[derive(Debug, Clone, PartialEq, Eq)]
pub struct TicketModel {
    pub id: i64,
    pub summary: String,
    pub priority: String,
    pub status: String,
    pub create_date: Option<Timestamp>,
    pub update_date: Option<Timestamp>,
}

/// What a [`TicketModel`] holds.
pub struct TicketModelView {
    pub id: i64,
    pub summary: Seq<char>,
    pub priority: Seq<char>,
    pub status: Seq<char>,
    pub create_date: Option<Timestamp>,
    pub update_date: Option<Timestamp>,
}

impl View for TicketModel {
    type V = TicketModelView;

    open spec fn view(&self) -> TicketModelView {
        TicketModelView {
            id: self.id,
            summary: self.summary@,
            priority: self.priority@,
            status: self.status@,
            create_date: self.create_date,
            update_date: self.update_date,
        }
    }
}

impl DeepView for TicketModel {
    type V = TicketModelView;

    open spec fn deep_view(&self) -> TicketModelView {
        self@
    }
}

/// A ticket as shown to clients.
#[allow(non_snake_case)]
#[derive(Debug, Clone, PartialEq, Eq)]
pub struct TicketModelResponse {
    pub id: i64,
    pub summary: String,
    pub priority: String,
    pub status: String,
    pub createdAt: Timestamp,
    pub updatedAt: Timestamp,
}

/// What a [`TicketModelResponse`] holds.
#[allow(non_snake_case)]
pub struct TicketModelResponseView {
    pub id: i64,
    pub summary: Seq<char>,
    pub priority: Seq<char>,
    pub status: Seq<char>,
    pub createdAt: Timestamp,
    pub updatedAt: Timestamp,
}

impl View for TicketModelResponse {
    type V = TicketModelResponseView;

    open spec fn view(&self) -> TicketModelResponseView {
        TicketModelResponseView {
            id: self.id,
            summary: self.summary@,
            priority: self.priority@,
            status: self.status@,
            createdAt: self.createdAt,
            updatedAt: self.updatedAt,
        }
    }
}

impl DeepView for TicketModelResponse {
    type V = TicketModelResponseView;

    open spec fn deep_view(&self) -> TicketModelResponseView {
        self@
    }
}

/// A row of the comment table joined with the name of its author.
#[derive(Debug, Clone, PartialEq, Eq)]
pub struct CommentModel {
    pub id: i64,
    pub content: String,
    pub create_date: Option<Timestamp>,
    pub author_id: i64,
    pub name: Option<String>,
}

/// What a [`CommentModel`] holds.
pub struct CommentModelView {
    pub id: i64,
    pub content: Seq<char>,
    pub create_date: Option<Timestamp>,
    pub author_id: i64,
    pub name: Option<Seq<char>>,
}

impl View for CommentModel {
    type V = CommentModelView;

    open spec fn view(&self) -> CommentModelView {
        CommentModelView {
            id: self.id,
            content: self.content@,
            create_date: self.create_date,
            author_id: self.author_id,
            name: self.name.deep_view(),
        }
    }
}

impl DeepView for CommentModel {
    type V = CommentModelView;

    open spec fn deep_view(&self) -> CommentModelView {
        self@
    }
}

/// A comment as shown to clients, with the name of its author.
#[derive(Debug, Clone, PartialEq, Eq)]
pub struct CommentModelResponse {
    pub id: i64,
    pub content: String,
    pub author_id: i64,
    pub create_date: Option<Timestamp>,
    pub name: String,
}

/// What a [`CommentModelResponse`] holds.
pub struct CommentModelResponseView {
    pub id: i64,
    pub content: Seq<char>,
    pub author_id: i64,
    pub create_date: Option<Timestamp>,
    pub name: Seq<char>,
}

impl View for CommentModelResponse {
    type V = CommentModelResponseView;

    open spec fn view(&self) -> CommentModelResponseView {
        CommentModelResponseView {
            id: self.id,
            content: self.content@,
            author_id: self.author_id,
            create_date: self.create_date,
            name: self.name@,
        }
    }
}

impl DeepView for CommentModelResponse {
    type V = CommentModelResponseView;

    open spec fn deep_view(&self) -> CommentModelResponseView {
        self@
    }
}

} // verus!
