//! The request payloads that the handlers accept.

use vstd::prelude::*;

verus! {

/// Body of a registration request.
#[derive(Debug, Clone, PartialEq, Eq)]
pub struct RegisterSchema {
    pub email: String,
    pub password: String,
    pub name: String,
}

/// What a [`RegisterSchema`] holds, as plain sequences of characters.
pub struct RegisterSchemaView {
    pub email: Seq<char>,
    pub password: Seq<char>,
    pub name: Seq<char>,
}

impl View for RegisterSchema {
    type V = RegisterSchemaView;

    open spec fn view(&self) -> RegisterSchemaView {
        RegisterSchemaView { email: self.email@, password: self.password@, name: self.name@ }
    }
}

/// Body of a login request.
#[derive(Debug, Clone, PartialEq, Eq)]
pub struct LoginSchema {
    pub email: String,
    pub password: String,
}

/// What a [`LoginSchema`] holds.
pub struct LoginSchemaView {
    pub email: Seq<char>,
    pub password: Seq<char>,
}

impl View for LoginSchema {
    type V = LoginSchemaView;

    open spec fn view(&self) -> LoginSchemaView {
        LoginSchemaView { email: self.email@, password: self.password@ }
    }
}

/// Paging parameters of a listing request; both are optional.
#[derive(Debug, Clone, Copy, PartialEq, Eq)]
pub struct FilterOptions {
    pub page: Option<usize>,
    pub limit: Option<usize>,
}

impl Default for FilterOptions {
    fn default() -> (opts: FilterOptions)
        ensures
            opts.page is None,
            opts.limit is None,
    {
        FilterOptions { page: None, limit: None }
    }
}

/// Body of a request that creates a ticket: all three fields are required.
#[derive(Debug, Clone, PartialEq, Eq)]
pub struct CreateTicketSchema {
    pub summary: String,
    pub priority: String,
    pub status: String,
}

/// What a [`CreateTicketSchema`] holds.
pub struct CreateTicketSchemaView {
    pub summary: Seq<char>,
    pub priority: Seq<char>,
    pub status: Seq<char>,
}

impl View for CreateTicketSchema {
    type V = CreateTicketSchemaView;

    open spec fn view(&self) -> CreateTicketSchemaView {
        CreateTicketSchemaView {
            summary: self.summary@,
            priority: self.priority@,
            status: self.status@,
        }
    }
}

/// Body of a request that changes a ticket: a field left out keeps the
/// value that the ticket has.
#[derive(Debug, Clone, PartialEq, Eq)]
pub struct UpdateTicketSchema {
    pub summary: Option<String>,
    pub priority: Option<String>,
    pub status: Option<String>,
}

/// What an [`UpdateTicketSchema`] holds.
pub struct UpdateTicketSchemaView {
    pub summary: Option<Seq<char>>,
    pub priority: Option<Seq<char>>,
    pub status: Option<Seq<char>>,
}

impl View for UpdateTicketSchema {
    type V = UpdateTicketSchemaView;

    open spec fn view(&self) -> UpdateTicketSchemaView {
        UpdateTicketSchemaView {
            summary: self.summary.deep_view(),
            priority: self.priority.deep_view(),
            status: self.status.deep_view(),
        }
    }
}

/// Body of a request that adds a comment to a ticket.
#[derive(Debug, Clone, PartialEq, Eq)]
pub struct CreateCommentSchema {
    pub content: String,
    pub ticket_id: i64,
    pub author_id: i64,
}

/// What a [`CreateCommentSchema`] holds.
pub struct CreateCommentSchemaView {
    pub content: Seq<char>,
    pub ticket_id: i64,
    pub author_id: i64,
}

impl View for CreateCommentSchema {
    type V = CreateCommentSchemaView;

    open spec fn view(&self) -> CreateCommentSchemaView {
        CreateCommentSchemaView {
            content: self.content@,
            ticket_id: self.ticket_id,
            author_id: self.author_id,
        }
    }
}

} // verus!
