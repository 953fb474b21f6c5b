//! The relational store in the abstract: its tables as sequences of rows,
//! and the answer that each statement gets from a store that keeps the
//! constraints of the schema. Nothing here runs. It is what the handlers
//! are held against when a whole exchange, or two in a row, is reasoned
//! about.
//!
//! Texts are compared as they are. A store whose collation takes `A` and
//! `a` for one letter finds more rows by email than are found here.

use crate::model::{CommentModelView, LoginModelView, RegisterModelView, TicketModelView, Timestamp};
use crate::reply::{ActionView, ReplyView};
use crate::store::{OutcomeView, StatementView, StoreErrorView};
use vstd::prelude::*;

verus! {

/// A row of the comment table.
pub struct CommentRow {
    pub id: i64,
    pub content: Seq<char>,
    pub ticket_id: i64,
    pub author_id: i64,
    pub create_date: Option<Timestamp>,
}

/// The tables of the store. Tickets stand in the order in which they are
/// listed: the newest first.
pub struct Tables {
    pub users: Seq<LoginModelView>,
    pub tickets: Seq<TicketModelView>,
    pub comments: Seq<CommentRow>,
}

/// What the store picks by itself while it answers a statement: the id of
/// a new row, the time, and the text of a failure.
pub struct Fresh {
    pub id: i64,
    pub now: Timestamp,
    pub failure: Seq<char>,
}

/// The failure that the breach of a uniqueness constraint is reported with.
pub open spec fn duplicate_entry() -> StoreErrorView {
    StoreErrorView { row_not_found: false, message: "Duplicate entry"@ }
}

impl Tables {
    /// Whether a user has this email.
    pub open spec fn has_email(self, email: Seq<char>) -> bool {
        exists|i: int| 0 <= i < self.users.len() && (#[trigger] self.users[i]).email == Some(email)
    }

    /// A user with this email.
    pub open spec fn user_with_email(self, email: Seq<char>) -> LoginModelView {
        self.users[choose|i: int|
            0 <= i < self.users.len() && (#[trigger] self.users[i]).email == Some(email)]
    }

    /// Whether a user has this id.
    pub open spec fn has_user(self, id: i64) -> bool {
        exists|i: int| 0 <= i < self.users.len() && (#[trigger] self.users[i]).id == id
    }

    /// A user with this id.
    pub open spec fn user(self, id: i64) -> LoginModelView {
        self.users[choose|i: int| 0 <= i < self.users.len() && (#[trigger] self.users[i]).id == id]
    }

    /// Whether a ticket has this id.
    pub open spec fn has_ticket(self, id: i64) -> bool {
        exists|i: int| 0 <= i < self.tickets.len() && (#[trigger] self.tickets[i]).id == id
    }

    /// The place of a ticket with this id.
    pub open spec fn ticket_index(self, id: i64) -> int {
        choose|i: int| 0 <= i < self.tickets.len() && (#[trigger] self.tickets[i]).id == id
    }

    /// Whether the keys of the tables are in order: no two users have one
    /// id or one email, and no two tickets have one id.
    pub open spec fn keys_distinct(self) -> bool {
        &&& forall|i: int, j: int|
            0 <= i < self.users.len() && 0 <= j < self.users.len() && (#[trigger] self.users[i]).id
                == (#[trigger] self.users[j]).id ==> i == j
        &&& forall|i: int, j: int|
            0 <= i < self.users.len() && 0 <= j < self.users.len() && (
            #[trigger] self.users[i]).email is Some && self.users[i].email == (
            #[trigger] self.users[j]).email ==> i == j
        &&& self.ticket_ids_distinct()
    }

    /// Whether no two tickets have one id.
    pub open spec fn ticket_ids_distinct(self) -> bool {
        forall|i: int, j: int|
            0 <= i < self.tickets.len() && 0 <= j < self.tickets.len() && (
            #[trigger] self.tickets[i]).id == (#[trigger] self.tickets[j]).id ==> i == j
    }

    /// Whether every ticket has both of its dates, as every ticket has
    /// that the store made.
    pub open spec fn tickets_dated(self) -> bool {
        forall|i: int|
            0 <= i < self.tickets.len() ==> (#[trigger] self.tickets[i]).create_date is Some
                && self.tickets[i].update_date is Some
    }

    /// Up to `limit` tickets after the first `offset`, in listing order.
    pub open spec fn page(self, limit: i64, offset: i64) -> Seq<TicketModelView> {
        let count = self.tickets.len() as int;
        if limit < 0 || offset < 0 || offset >= count {
            Seq::<TicketModelView>::empty()
        } else if offset + limit >= count {
            self.tickets.subrange(offset as int, count)
        } else {
            self.tickets.subrange(offset as int, offset + limit)
        }
    }

    /// The comments on a ticket whose author is known, each with the name
    /// of its author.
    pub open spec fn comments_on(self, ticket_id: i64) -> Seq<CommentModelView> {
        self.comments.filter(
            |row: CommentRow| row.ticket_id == ticket_id && self.has_user(row.author_id),
        ).map_values(
            |row: CommentRow|
                CommentModelView {
                    id: row.id,
                    content: row.content,
                    create_date: row.create_date,
                    author_id: row.author_id,
                    name: self.user(row.author_id).name,
                },
        )
    }

    /// The tables after a statement, and what the statement is answered
    /// with. Emails are unique among users: a second user with an email
    /// is refused. A comment needs its ticket and its author to be there.
    pub open spec fn answer(self, statement: StatementView, fresh: Fresh) -> (Tables, OutcomeView) {
        match statement {
            StatementView::CredentialsByEmail { email } => (
                self,
                OutcomeView::Credentials(
                    if self.has_email(email) {
                        let user = self.user_with_email(email);
                        Some(
                            RegisterModelView {
                                email: user.email,
                                password: user.password,
                                name: None,
                            },
                        )
                    } else {
                        None
                    },
                ),
            ),
            StatementView::UserByEmail { email } => (
                self,
                OutcomeView::User(
                    if self.has_email(email) {
                        Some(self.user_with_email(email))
                    } else {
                        None
                    },
                ),
            ),
            StatementView::UserById { id } => (
                self,
                OutcomeView::User(
                    if self.has_user(id) {
                        Some(self.user(id))
                    } else {
                        None
                    },
                ),
            ),
            StatementView::InsertUser { name, email, password } => if self.has_email(email) {
                (self, OutcomeView::Failed(duplicate_entry()))
            } else {
                (
                    Tables {
                        users: self.users.push(
                            LoginModelView {
                                id: fresh.id,
                                name: Some(name),
                                email: Some(email),
                                password: Some(password),
                                role: None,
                            },
                        ),
                        ..self
                    },
                    OutcomeView::Written { rows_affected: 1 },
                )
            },
            StatementView::TicketPage { limit, offset } => (
                self,
                OutcomeView::Tickets(self.page(limit, offset)),
            ),
            StatementView::InsertTicket { summary, priority, status } => (
                Tables {
                    tickets: seq![
                        TicketModelView {
                            id: fresh.id,
                            summary,
                            priority,
                            status,
                            create_date: Some(fresh.now),
                            update_date: Some(fresh.now),
                        },
                    ] + self.tickets,
                    ..self
                },
                OutcomeView::Written { rows_affected: 1 },
            ),
            StatementView::TicketById { id } => (
                self,
                if self.has_ticket(id) {
                    OutcomeView::Ticket(self.tickets[self.ticket_index(id)])
                } else {
                    OutcomeView::Failed(
                        StoreErrorView { row_not_found: true, message: fresh.failure },
                    )
                },
            ),
            StatementView::UpdateTicket {
                id,
                summary,
                status,
                priority,
                update_date,
            } => if self.has_ticket(id) {
                let at = self.ticket_index(id);
                (
                    Tables {
                        tickets: self.tickets.update(
                            at,
                            TicketModelView {
                                summary,
                                status,
                                priority,
                                update_date: Some(update_date),
                                ..self.tickets[at]
                            },
                        ),
                        ..self
                    },
                    OutcomeView::Written { rows_affected: 1 },
                )
            } else {
                (self, OutcomeView::Written { rows_affected: 0 })
            },
            StatementView::DeleteTicket { id } => if self.has_ticket(id) {
                (
                    Tables { tickets: self.tickets.remove(self.ticket_index(id)), ..self },
                    OutcomeView::Written { rows_affected: 1 },
                )
            } else {
                (self, OutcomeView::Written { rows_affected: 0 })
            },
            StatementView::InsertComment { content, ticket_id, author_id } => if self.has_ticket(
                ticket_id,
            ) && self.has_user(author_id) {
                (
                    Tables {
                        comments: self.comments.push(
                            CommentRow {
                                id: fresh.id,
                                content,
                                ticket_id,
                                author_id,
                                create_date: Some(fresh.now),
                            },
                        ),
                        ..self
                    },
                    OutcomeView::Written { rows_affected: 1 },
                )
            } else {
                (
                    self,
                    OutcomeView::Failed(
                        StoreErrorView { row_not_found: false, message: fresh.failure },
                    ),
                )
            },
            StatementView::CommentsByTicket { ticket_id } => (
                self,
                OutcomeView::Comments(self.comments_on(ticket_id)),
            ),
        }
    }
}

/// Whatever statement is answered, the keys of the tables stay in order
/// and dated tickets stay dated, as long as the id that the store picks
/// for a new row is not in use.
pub proof fn lemma_answer_keeps_keys(tables: Tables, statement: StatementView, fresh: Fresh)
    requires
        tables.keys_distinct(),
        tables.tickets_dated(),
        !tables.has_user(fresh.id),
        !tables.has_ticket(fresh.id),
    ensures
        tables.answer(statement, fresh).0.keys_distinct(),
        tables.answer(statement, fresh).0.tickets_dated(),
{
    let after = tables.answer(statement, fresh).0;
    match statement {
        StatementView::InsertUser { name, email, password } => {
            if !tables.has_email(email) {
                let added = tables.users.len() as int;
                assert forall|i: int, j: int|
                    0 <= i < after.users.len() && 0 <= j < after.users.len() && (
                    #[trigger] after.users[i]).id == (#[trigger] after.users[j]).id implies i
                    == j by {
                    if i < added && j < added {
                        assert(tables.users[i].id == tables.users[j].id);
                    } else if i < added {
                        assert(tables.users[i].id == fresh.id);
                    } else if j < added {
                        assert(tables.users[j].id == fresh.id);
                    }
                }
                assert forall|i: int, j: int|
                    0 <= i < after.users.len() && 0 <= j < after.users.len() && (
                    #[trigger] after.users[i]).email is Some && after.users[i].email == (
                    #[trigger] after.users[j]).email implies i == j by {
                    if i < added && j < added {
                        assert(tables.users[i].email == tables.users[j].email);
                    } else if i < added {
                        assert(tables.users[i].email == Some(email));
                    } else if j < added {
                        assert(tables.users[j].email == Some(email));
                    }
                }
            }
        },
        StatementView::InsertTicket { summary, priority, status } => {
            assert forall|i: int, j: int|
                0 <= i < after.tickets.len() && 0 <= j < after.tickets.len() && (
                #[trigger] after.tickets[i]).id == (#[trigger] after.tickets[j]).id implies i
                == j by {
                if i > 0 && j > 0 {
                    assert(tables.tickets[i - 1].id == tables.tickets[j - 1].id);
                } else if i > 0 {
                    assert(tables.tickets[i - 1].id == fresh.id);
                } else if j > 0 {
                    assert(tables.tickets[j - 1].id == fresh.id);
                }
            }
            assert forall|i: int| 0 <= i < after.tickets.len() implies (
            #[trigger] after.tickets[i]).create_date is Some && after.tickets[i].update_date
                is Some by {
                if i > 0 {
                    assert(after.tickets[i] == tables.tickets[i - 1]);
                }
            }
        },
        StatementView::UpdateTicket { id, summary, status, priority, update_date } => {
            if tables.has_ticket(id) {
                let at = tables.ticket_index(id);
                assert forall|i: int, j: int|
                    0 <= i < after.tickets.len() && 0 <= j < after.tickets.len() && (
                    #[trigger] after.tickets[i]).id == (#[trigger] after.tickets[j]).id implies i
                    == j by {
                    assert(after.tickets[i].id == tables.tickets[i].id);
                    assert(after.tickets[j].id == tables.tickets[j].id);
                }
                assert forall|i: int| 0 <= i < after.tickets.len() implies (
                #[trigger] after.tickets[i]).create_date is Some && after.tickets[i].update_date
                    is Some by {
                    assert(after.tickets[i].create_date == tables.tickets[i].create_date);
                    if i != at {
                        assert(after.tickets[i] == tables.tickets[i]);
                    }
                }
            }
        },
        StatementView::DeleteTicket { id } => {
            if tables.has_ticket(id) {
                let at = tables.ticket_index(id);
                assert forall|i: int, j: int|
                    0 <= i < after.tickets.len() && 0 <= j < after.tickets.len() && (
                    #[trigger] after.tickets[i]).id == (#[trigger] after.tickets[j]).id implies i
                    == j by {
                    let from = if i < at {
                        i
                    } else {
                        i + 1
                    };
                    let to = if j < at {
                        j
                    } else {
                        j + 1
                    };
                    assert(after.tickets[i] == tables.tickets[from]);
                    assert(after.tickets[j] == tables.tickets[to]);
                }
                assert forall|i: int| 0 <= i < after.tickets.len() implies (
                #[trigger] after.tickets[i]).create_date is Some && after.tickets[i].update_date
                    is Some by {
                    let from = if i < at {
                        i
                    } else {
                        i + 1
                    };
                    assert(after.tickets[i] == tables.tickets[from]);
                }
            }
        },
        _ => {},
    }
}

/// A whole exchange: the handler `step` is called again and again, each
/// statement it sends is answered from the tables, until it replies. The
/// result is the tables as they are then, and the reply. `rounds` bounds
/// the number of calls; a handler that has not replied by then is taken to
/// have failed.
pub open spec fn exchange<S>(
    tables: Tables,
    step: spec_fn(S, Option<OutcomeView>) -> (S, ActionView),
    stage: S,
    outcome: Option<OutcomeView>,
    fresh: Fresh,
    rounds: nat,
) -> (Tables, ReplyView)
    decreases rounds,
{
    if rounds == 0 {
        (tables, ReplyView::internal_error())
    } else {
        let (next, action) = step(stage, outcome);
        match action {
            ActionView::Respond(reply) => (tables, reply),
            ActionView::Run(statement) => {
                let (after, answered) = tables.answer(statement, fresh);
                exchange(after, step, next, Some(answered), fresh, (rounds - 1) as nat)
            },
        }
    }
}

} // verus!
