//! The relational store as the handlers see it: the statements they send
//! and what comes back. The handlers never reach the store themselves; the
//! host runs each statement and hands its outcome back.

use crate::model::{
    CommentModel, CommentModelView, LoginModel, LoginModelView, RegisterModel, RegisterModelView,
    TicketModel, TicketModelView, Timestamp,
};
use crate::text::occurs_in;
use vstd::prelude::*;
use vstd::string::*;

verus! {

/// A failure that the store reports.
#[derive(Debug, Clone, PartialEq, Eq)]
pub struct StoreError {
    /// Whether the failure is that a statement which must find a row found
    /// none.
    pub row_not_found: bool,
    /// The text of the failure.
    pub message: String,
}

/// What a [`StoreError`] holds.
pub struct StoreErrorView {
    pub row_not_found: bool,
    pub message: Seq<char>,
}

impl View for StoreError {
    type V = StoreErrorView;

    open spec fn view(&self) -> StoreErrorView {
        StoreErrorView { row_not_found: self.row_not_found, message: self.message@ }
    }
}

impl StoreErrorView {
    /// Whether the failure is the breach of a uniqueness constraint: the
    /// store marks those with the words `Duplicate entry`.
    pub open spec fn is_duplicate(self) -> bool {
        occurs_in("Duplicate entry"@, self.message)
    }
}

impl StoreError {
    /// Whether the failure is the breach of a uniqueness constraint.
    pub fn is_duplicate(&self) -> (duplicate: bool)
        ensures
            duplicate == self@.is_duplicate(),
    {
        crate::text::contains(self.message.as_str(), "Duplicate entry")
    }
}

/// A value bound to a placeholder of a statement.
#[derive(Debug, Clone, PartialEq, Eq)]
pub enum Param {
    Text(String),
    Int(i64),
    Time(Timestamp),
}

/// What a [`Param`] holds.
pub enum ParamView {
    Text(Seq<char>),
    Int(i64),
    Time(Timestamp),
}

impl View for Param {
    type V = ParamView;

    open spec fn view(&self) -> ParamView {
        match self {
            Param::Text(text) => ParamView::Text(text@),
            Param::Int(number) => ParamView::Int(*number),
            Param::Time(time) => ParamView::Time(*time),
        }
    }
}

impl DeepView for Param {
    type V = ParamView;

    open spec fn deep_view(&self) -> ParamView {
        self@
    }
}

/// A statement that a handler sends to the store.
#[derive(Debug, Clone, PartialEq, Eq)]
pub enum Statement {
    /// Email and password hash of the user with this email, if there is one.
    CredentialsByEmail { email: String },
    /// The user with this email, if there is one.
    UserByEmail { email: String },
    /// The user with this id, if there is one.
    UserById { id: i64 },
    /// A new user; the store assigns the id.
    InsertUser { name: String, email: String, password: String },
    /// Up to `limit` tickets after the first `offset`, newest first.
    TicketPage { limit: i64, offset: i64 },
    /// A new ticket; the store assigns the id and both dates.
    InsertTicket { summary: String, priority: String, status: String },
    /// The ticket with this id; it is a failure if there is none.
    TicketById { id: i64 },
    /// New values for the ticket with this id.
    UpdateTicket { id: i64, summary: String, status: String, priority: String, update_date: Timestamp },
    /// Removal of the ticket with this id.
    DeleteTicket { id: i64 },
    /// A new comment on a ticket; the store assigns id and date.
    InsertComment { content: String, ticket_id: i64, author_id: i64 },
    /// The comments on a ticket, each with the name of its author.
    CommentsByTicket { ticket_id: i64 },
}

/// What a [`Statement`] holds.
pub enum StatementView {
    CredentialsByEmail { email: Seq<char> },
    UserByEmail { email: Seq<char> },
    UserById { id: i64 },
    InsertUser { name: Seq<char>, email: Seq<char>, password: Seq<char> },
    TicketPage { limit: i64, offset: i64 },
    InsertTicket { summary: Seq<char>, priority: Seq<char>, status: Seq<char> },
    TicketById { id: i64 },
    UpdateTicket {
        id: i64,
        summary: Seq<char>,
        status: Seq<char>,
        priority: Seq<char>,
        update_date: Timestamp,
    },
    DeleteTicket { id: i64 },
    InsertComment { content: Seq<char>, ticket_id: i64, author_id: i64 },
    CommentsByTicket { ticket_id: i64 },
}

impl View for Statement {
    type V = StatementView;

    open spec fn view(&self) -> StatementView {
        match self {
            Statement::CredentialsByEmail { email } => StatementView::CredentialsByEmail {
                email: email@,
            },
            Statement::UserByEmail { email } => StatementView::UserByEmail { email: email@ },
            Statement::UserById { id } => StatementView::UserById { id: *id },
            Statement::InsertUser { name, email, password } => StatementView::InsertUser {
                name: name@,
                email: email@,
                password: password@,
            },
            Statement::TicketPage { limit, offset } => StatementView::TicketPage {
                limit: *limit,
                offset: *offset,
            },
            Statement::InsertTicket { summary, priority, status } => StatementView::InsertTicket {
                summary: summary@,
                priority: priority@,
                status: status@,
            },
            Statement::TicketById { id } => StatementView::TicketById { id: *id },
            Statement::UpdateTicket {
                id,
                summary,
                status,
                priority,
                update_date,
            } => StatementView::UpdateTicket {
                id: *id,
                summary: summary@,
                status: status@,
                priority: priority@,
                update_date: *update_date,
            },
            Statement::DeleteTicket { id } => StatementView::DeleteTicket { id: *id },
            Statement::InsertComment { content, ticket_id, author_id } => StatementView::InsertComment {
                content: content@,
                ticket_id: *ticket_id,
                author_id: *author_id,
            },
            Statement::CommentsByTicket { ticket_id } => StatementView::CommentsByTicket {
                ticket_id: *ticket_id,
            },
        }
    }
}

impl StatementView {
    /// The SQL text of the statement, with `?` for each bound value.
    pub open spec fn sql(self) -> Seq<char> {
        match self {
            StatementView::CredentialsByEmail { .. } => "SELECT email, password FROM login WHERE email = ?"@,
            StatementView::UserByEmail { .. } => "SELECT * FROM login WHERE email = ?"@,
            StatementView::UserById { .. } => "SELECT * FROM login WHERE id = ?"@,
            StatementView::InsertUser { .. } => "INSERT INTO login (name, email, password) VALUES (?, ?, ?)"@,
            StatementView::TicketPage { .. } => "SELECT * FROM tickets ORDER BY create_date DESC LIMIT ? OFFSET ?"@,
            StatementView::InsertTicket { .. } => "INSERT INTO tickets (summary, priority, status) VALUES (?, ?, ?)"@,
            StatementView::TicketById { .. } => "SELECT * FROM tickets WHERE id = ?"@,
            StatementView::UpdateTicket { .. } => "UPDATE tickets SET summary = ?, status = ?, priority = ?, update_date = ? WHERE id = ?"@,
            StatementView::DeleteTicket { .. } => "DELETE FROM tickets WHERE id = ?"@,
            StatementView::InsertComment { .. } => "INSERT INTO comments (content, ticket_id, author_id) VALUES (?, ?, ?)"@,
            StatementView::CommentsByTicket { .. } => "SELECT c.id, c.content, c.create_date, c.author_id, login.name FROM comments c JOIN login ON c.author_id = login.id WHERE c.ticket_id = ?"@,
        }
    }

    /// The values bound to the placeholders of the statement, in the order
    /// of the placeholders.
    pub open spec fn params(self) -> Seq<ParamView> {
        match self {
            StatementView::CredentialsByEmail { email } => seq![ParamView::Text(email)],
            StatementView::UserByEmail { email } => seq![ParamView::Text(email)],
            StatementView::UserById { id } => seq![ParamView::Int(id)],
            StatementView::InsertUser { name, email, password } => seq![
                ParamView::Text(name),
                ParamView::Text(email),
                ParamView::Text(password),
            ],
            StatementView::TicketPage { limit, offset } => seq![
                ParamView::Int(limit),
                ParamView::Int(offset),
            ],
            StatementView::InsertTicket { summary, priority, status } => seq![
                ParamView::Text(summary),
                ParamView::Text(priority),
                ParamView::Text(status),
            ],
            StatementView::TicketById { id } => seq![ParamView::Int(id)],
            StatementView::UpdateTicket { id, summary, status, priority, update_date } => seq![
                ParamView::Text(summary),
                ParamView::Text(status),
                ParamView::Text(priority),
                ParamView::Time(update_date),
                ParamView::Int(id),
            ],
            StatementView::DeleteTicket { id } => seq![ParamView::Int(id)],
            StatementView::InsertComment { content, ticket_id, author_id } => seq![
                ParamView::Text(content),
                ParamView::Int(ticket_id),
                ParamView::Int(author_id),
            ],
            StatementView::CommentsByTicket { ticket_id } => seq![ParamView::Int(ticket_id)],
        }
    }
}

impl Statement {
    /// The SQL text of the statement, with `?` for each bound value.
    pub fn sql(&self) -> (text: &'static str)
        ensures
            text@ == self@.sql(),
    {
        match self {
            Statement::CredentialsByEmail { .. } => "SELECT email, password FROM login WHERE email = ?",
            Statement::UserByEmail { .. } => "SELECT * FROM login WHERE email = ?",
            Statement::UserById { .. } => "SELECT * FROM login WHERE id = ?",
            Statement::InsertUser { .. } => "INSERT INTO login (name, email, password) VALUES (?, ?, ?)",
            Statement::TicketPage { .. } => "SELECT * FROM tickets ORDER BY create_date DESC LIMIT ? OFFSET ?",
            Statement::InsertTicket { .. } => "INSERT INTO tickets (summary, priority, status) VALUES (?, ?, ?)",
            Statement::TicketById { .. } => "SELECT * FROM tickets WHERE id = ?",
            Statement::UpdateTicket { .. } => "UPDATE tickets SET summary = ?, status = ?, priority = ?, update_date = ? WHERE id = ?",
            Statement::DeleteTicket { .. } => "DELETE FROM tickets WHERE id = ?",
            Statement::InsertComment { .. } => "INSERT INTO comments (content, ticket_id, author_id) VALUES (?, ?, ?)",
            Statement::CommentsByTicket { .. } => "SELECT c.id, c.content, c.create_date, c.author_id, login.name FROM comments c JOIN login ON c.author_id = login.id WHERE c.ticket_id = ?",
        }
    }

    /// The values bound to the placeholders of the statement, in the order
    /// of the placeholders.
    pub fn params(&self) -> (bound: Vec<Param>)
        ensures
            bound.deep_view() == self@.params(),
    {
        let mut bound: Vec<Param> = Vec::new();
        match self {
            Statement::CredentialsByEmail { email } => {
                bound.push(Param::Text(email.clone()));
            },
            Statement::UserByEmail { email } => {
                bound.push(Param::Text(email.clone()));
            },
            Statement::UserById { id } => {
                bound.push(Param::Int(*id));
            },
            Statement::InsertUser { name, email, password } => {
                bound.push(Param::Text(name.clone()));
                bound.push(Param::Text(email.clone()));
                bound.push(Param::Text(password.clone()));
            },
            Statement::TicketPage { limit, offset } => {
                bound.push(Param::Int(*limit));
                bound.push(Param::Int(*offset));
            },
            Statement::InsertTicket { summary, priority, status } => {
                bound.push(Param::Text(summary.clone()));
                bound.push(Param::Text(priority.clone()));
                bound.push(Param::Text(status.clone()));
            },
            Statement::TicketById { id } => {
                bound.push(Param::Int(*id));
            },
            Statement::UpdateTicket { id, summary, status, priority, update_date } => {
                bound.push(Param::Text(summary.clone()));
                bound.push(Param::Text(status.clone()));
                bound.push(Param::Text(priority.clone()));
                bound.push(Param::Time(*update_date));
                bound.push(Param::Int(*id));
            },
            Statement::DeleteTicket { id } => {
                bound.push(Param::Int(*id));
            },
            Statement::InsertComment { content, ticket_id, author_id } => {
                bound.push(Param::Text(content.clone()));
                bound.push(Param::Int(*ticket_id));
                bound.push(Param::Int(*author_id));
            },
            Statement::CommentsByTicket { ticket_id } => {
                bound.push(Param::Int(*ticket_id));
            },
        }
        assert(bound.deep_view() =~= self@.params());
        bound
    }
}

/// What the store hands back for a statement.
#[derive(Debug, Clone, PartialEq, Eq)]
pub enum Outcome {
    /// The answer to [`Statement::CredentialsByEmail`].
    Credentials(Option<RegisterModel>),
    /// The answer to [`Statement::UserByEmail`] and [`Statement::UserById`].
    User(Option<LoginModel>),
    /// The answer to [`Statement::TicketPage`].
    Tickets(Vec<TicketModel>),
    /// The answer to [`Statement::TicketById`] where the ticket is there.
    Ticket(TicketModel),
    /// The answer to [`Statement::CommentsByTicket`].
    Comments(Vec<CommentModel>),
    /// The answer to a statement that writes: the number of rows it changed.
    Written { rows_affected: u64 },
    /// The statement failed.
    Failed(StoreError),
}

/// What an [`Outcome`] holds.
pub enum OutcomeView {
    Credentials(Option<RegisterModelView>),
    User(Option<LoginModelView>),
    Tickets(Seq<TicketModelView>),
    Ticket(TicketModelView),
    Comments(Seq<CommentModelView>),
    Written { rows_affected: u64 },
    Failed(StoreErrorView),
}

impl View for Outcome {
    type V = OutcomeView;

    open spec fn view(&self) -> OutcomeView {
        match self {
            Outcome::Credentials(row) => OutcomeView::Credentials(row.deep_view()),
            Outcome::User(row) => OutcomeView::User(row.deep_view()),
            Outcome::Tickets(rows) => OutcomeView::Tickets(rows.deep_view()),
            Outcome::Ticket(row) => OutcomeView::Ticket(row@),
            Outcome::Comments(rows) => OutcomeView::Comments(rows.deep_view()),
            Outcome::Written { rows_affected } => OutcomeView::Written {
                rows_affected: *rows_affected,
            },
            Outcome::Failed(error) => OutcomeView::Failed(error@),
        }
    }
}

impl DeepView for Outcome {
    type V = OutcomeView;

    open spec fn deep_view(&self) -> OutcomeView {
        self@
    }
}

} // verus!
