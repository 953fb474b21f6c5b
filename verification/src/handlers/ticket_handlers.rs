//! Tickets: listing, creating, reading, changing and removing them.

use crate::clock::now_utc;
use crate::model::{TicketModel, TicketModelResponse, TicketModelResponseView, TicketModelView, Timestamp};
use crate::reply::{
    finish, finished, step_view, Action, ActionView, Body, BodyView, Reply, ReplyView, Stage,
    CONFLICT, NOT_FOUND, NO_CONTENT, OK,
};
use crate::schema::{
    CreateTicketSchema, CreateTicketSchemaView, FilterOptions, UpdateTicketSchema,
    UpdateTicketSchemaView,
};
use crate::store::{Outcome, OutcomeView, Statement, StatementView};
use crate::text::{decimal, i64_to_decimal};
use vstd::prelude::*;
use vstd::string::*;

verus! {

/// The number of tickets on a page where the request names none.
pub const DEFAULT_LIMIT: usize = 20;

/// The page that is shown where the request names none. Pages count from
/// one.
pub const DEFAULT_PAGE: usize = 1;

/// Where the handler that changes a ticket stands.
#[derive(Debug, Clone, Copy, PartialEq, Eq, Structural)]
pub enum EditStage {
    /// Nothing has been done for the request yet.
    Start,
    /// The ticket as it is has been asked for.
    Fetching,
    /// The new values have been sent.
    Updating,
    /// The ticket as it is now has been asked for.
    Refetching,
    /// The reply has been given.
    Done,
}

/// The view of a step of the handler that changes a ticket.
pub open spec fn edit_step_view(step: (EditStage, Action)) -> (EditStage, ActionView) {
    (step.0, step.1@)
}

/// The end of the handler that changes a ticket.
pub open spec fn edit_finished(reply: ReplyView) -> (EditStage, ActionView) {
    (EditStage::Done, ActionView::Respond(reply))
}

/// The limit and the offset of the page that `opts` asks for: `limit` rows
/// after the first `(page - 1) * limit`. There is none where the page is
/// zero or where a number does not fit the store's 64-bit integers.
pub open spec fn page_window(opts: FilterOptions) -> Option<(i64, i64)> {
    let limit: int = match opts.limit {
        Some(limit) => limit as int,
        None => DEFAULT_LIMIT as int,
    };
    let page: int = match opts.page {
        Some(page) => page as int,
        None => DEFAULT_PAGE as int,
    };
    let offset = (page - 1) * limit;
    if page >= 1 && limit <= i64::MAX && offset <= i64::MAX {
        Some((limit as i64, offset as i64))
    } else {
        None
    }
}

/// The message that says that there is no ticket `id`.
pub open spec fn not_found_message(id: i64) -> Seq<char> {
    "Ticket with ID: "@ + decimal(id as int) + " not found"@
}

/// The reply that says that there is no ticket `id`, under the status word
/// `status`.
pub open spec fn not_found(status: Seq<char>, id: i64) -> ReplyView {
    ReplyView::message(NOT_FOUND, status, not_found_message(id))
}

/// The ticket as shown to clients. There is none where the row lacks one of
/// its dates.
pub open spec fn ticket_response(ticket: TicketModelView) -> Option<TicketModelResponseView> {
    match (ticket.create_date, ticket.update_date) {
        (Some(created), Some(updated)) => Some(
            TicketModelResponseView {
                id: ticket.id,
                summary: ticket.summary,
                priority: ticket.priority,
                status: ticket.status,
                createdAt: created,
                updatedAt: updated,
            },
        ),
        _ => None,
    }
}

/// The tickets as shown to clients, in the order of the rows. There is no
/// list where a row lacks one of its dates.
pub open spec fn ticket_responses(rows: Seq<TicketModelView>) -> Option<
    Seq<TicketModelResponseView>,
> {
    if forall|i: int| 0 <= i < rows.len() ==> (#[trigger] ticket_response(rows[i])) is Some {
        Some(Seq::new(rows.len(), |i: int| ticket_response(rows[i])->0))
    } else {
        None
    }
}

/// The reply that shows one ticket, as the answer to a change where
/// `updated` is set.
pub open spec fn shown_ticket(ticket: TicketModelView, updated: bool) -> ReplyView {
    match ticket_response(ticket) {
        Some(shown) => ReplyView::plain(
            OK,
            if updated {
                BodyView::Updated { ticket: shown, status: "success"@ }
            } else {
                BodyView::Ticket(shown)
            },
        ),
        None => ReplyView::internal_error(),
    }
}

/// The values that a change leaves a ticket with: those of the request
/// where it names them, those of the ticket where it does not.
pub open spec fn merged(ticket: TicketModelView, body: UpdateTicketSchemaView) -> (
    Seq<char>,
    Seq<char>,
    Seq<char>,
) {
    (
        match body.summary {
            Some(summary) => summary,
            None => ticket.summary,
        },
        match body.status {
            Some(status) => status,
            None => ticket.status,
        },
        match body.priority {
            Some(priority) => priority,
            None => ticket.priority,
        },
    )
}

/// The statement that changes ticket `id` as `body` asks, given the ticket
/// as it is and the time of the change.
pub open spec fn update_statement(
    id: i64,
    ticket: TicketModelView,
    body: UpdateTicketSchemaView,
    now: Timestamp,
) -> StatementView {
    let (summary, status, priority) = merged(ticket, body);
    StatementView::UpdateTicket { id, summary, status, priority, update_date: now }
}

/// One step of listing tickets: the page is asked for; the rows that come
/// back are shown in their order.
pub open spec fn ticket_list_step(opts: FilterOptions, stage: Stage, outcome: Option<OutcomeView>) -> (
    Stage,
    ActionView,
) {
    match stage {
        Stage::Start => match page_window(opts) {
            Some((limit, offset)) => (
                Stage::Waiting,
                ActionView::Run(StatementView::TicketPage { limit, offset }),
            ),
            None => finished(ReplyView::internal_error()),
        },
        Stage::Waiting => match outcome {
            Some(OutcomeView::Tickets(rows)) => match ticket_responses(rows) {
                Some(shown) => finished(ReplyView::plain(OK, BodyView::Tickets(shown))),
                None => finished(ReplyView::internal_error()),
            },
            _ => finished(ReplyView::internal_error()),
        },
        Stage::Done => finished(ReplyView::internal_error()),
    }
}

/// One step of creating a ticket: the row is inserted; a breach of a
/// uniqueness constraint is a conflict, any other failure an internal error.
pub open spec fn create_ticket_step(
    body: CreateTicketSchemaView,
    stage: Stage,
    outcome: Option<OutcomeView>,
) -> (Stage, ActionView) {
    match stage {
        Stage::Start => (
            Stage::Waiting,
            ActionView::Run(
                StatementView::InsertTicket {
                    summary: body.summary,
                    priority: body.priority,
                    status: body.status,
                },
            ),
        ),
        Stage::Waiting => match outcome {
            Some(OutcomeView::Written { .. }) => finished(
                ReplyView::plain(OK, BodyView::Status { status: "success"@ }),
            ),
            Some(OutcomeView::Failed(error)) => if error.is_duplicate() {
                finished(
                    ReplyView::message(
                        CONFLICT,
                        "error"@,
                        "Ticket with that title already exists"@,
                    ),
                )
            } else {
                finished(ReplyView::internal_error())
            },
            _ => finished(ReplyView::internal_error()),
        },
        Stage::Done => finished(ReplyView::internal_error()),
    }
}

/// One step of reading a ticket: the row is asked for and shown; that there
/// is none is answered with "not found".
pub open spec fn get_ticket_step(id: i64, stage: Stage, outcome: Option<OutcomeView>) -> (
    Stage,
    ActionView,
) {
    match stage {
        Stage::Start => (Stage::Waiting, ActionView::Run(StatementView::TicketById { id })),
        Stage::Waiting => match outcome {
            Some(OutcomeView::Ticket(ticket)) => finished(shown_ticket(ticket, false)),
            Some(OutcomeView::Failed(error)) => if error.row_not_found {
                finished(not_found("fail"@, id))
            } else {
                finished(ReplyView::internal_error())
            },
            _ => finished(ReplyView::internal_error()),
        },
        Stage::Done => finished(ReplyView::internal_error()),
    }
}

/// One step of changing a ticket, given the time of the change: the row is
/// asked for, the merged values are written with that time, and the row is
/// asked for again and shown. That there is no such row, at first or at the
/// time of writing, is answered with "not found".
pub open spec fn edit_ticket_step(
    id: i64,
    body: UpdateTicketSchemaView,
    stage: EditStage,
    outcome: Option<OutcomeView>,
    now: Timestamp,
) -> (EditStage, ActionView) {
    match stage {
        EditStage::Start => (
            EditStage::Fetching,
            ActionView::Run(StatementView::TicketById { id }),
        ),
        EditStage::Fetching => match outcome {
            Some(OutcomeView::Ticket(ticket)) => (
                EditStage::Updating,
                ActionView::Run(update_statement(id, ticket, body, now)),
            ),
            Some(OutcomeView::Failed(error)) => if error.row_not_found {
                edit_finished(not_found("error"@, id))
            } else {
                edit_finished(ReplyView::internal_error())
            },
            _ => edit_finished(ReplyView::internal_error()),
        },
        EditStage::Updating => match outcome {
            Some(OutcomeView::Written { rows_affected }) => if rows_affected == 0 {
                edit_finished(not_found("error"@, id))
            } else {
                (EditStage::Refetching, ActionView::Run(StatementView::TicketById { id }))
            },
            _ => edit_finished(ReplyView::internal_error()),
        },
        EditStage::Refetching => match outcome {
            Some(OutcomeView::Ticket(ticket)) => edit_finished(shown_ticket(ticket, true)),
            _ => edit_finished(ReplyView::internal_error()),
        },
        EditStage::Done => edit_finished(ReplyView::internal_error()),
    }
}

/// Whether a step of changing a ticket reads the clock.
pub open spec fn edit_reads_clock(stage: EditStage, outcome: Option<OutcomeView>) -> bool {
    stage == EditStage::Fetching && outcome matches Some(OutcomeView::Ticket(_))
}

/// One step of removing a ticket: the row is deleted; that none was there
/// is answered with "not found".
pub open spec fn delete_ticket_step(id: i64, stage: Stage, outcome: Option<OutcomeView>) -> (
    Stage,
    ActionView,
) {
    match stage {
        Stage::Start => (Stage::Waiting, ActionView::Run(StatementView::DeleteTicket { id })),
        Stage::Waiting => match outcome {
            Some(OutcomeView::Written { rows_affected }) => if rows_affected == 0 {
                finished(not_found("error"@, id))
            } else {
                finished(ReplyView::plain(NO_CONTENT, BodyView::Empty))
            },
            _ => finished(ReplyView::internal_error()),
        },
        Stage::Done => finished(ReplyView::internal_error()),
    }
}

/// The reply of the health probe.
pub open spec fn health_reply() -> ReplyView {
    ReplyView::message(OK, "success"@, "Rust CRUD API Example with Axum Framework and MySQL"@)
}

/// The limit and the offset of the page that `opts` asks for.
pub fn page_of(opts: &FilterOptions) -> (window: Option<(i64, i64)>)
    ensures
        window == page_window(*opts),
{
    let limit: u64 = match opts.limit {
        Some(limit) => limit as u64,
        None => DEFAULT_LIMIT as u64,
    };
    let page: u64 = match opts.page {
        Some(page) => page as u64,
        None => DEFAULT_PAGE as u64,
    };
    if page < 1 || limit > i64::MAX as u64 {
        return None;
    }
    match (page - 1).checked_mul(limit) {
        Some(offset) => if offset <= i64::MAX as u64 {
            Some((limit as i64, offset as i64))
        } else {
            None
        },
        None => None,
    }
}

/// The reply that says that there is no ticket `id`.
fn not_found_reply(status: &'static str, id: i64) -> (reply: Reply)
    ensures
        reply@ == not_found(status@, id),
{
    let number = i64_to_decimal(id);
    let message = String::from_str("Ticket with ID: ").concat(number.as_str()).concat(" not found");
    Reply::message(NOT_FOUND, status, message)
}

/// The ticket as shown to clients. There is none where the row lacks one of
/// its dates.
pub fn filter_db_record(ticket: &TicketModel) -> (shown: Option<TicketModelResponse>)
    ensures
        shown.deep_view() == ticket_response(ticket@),
{
    match (ticket.create_date, ticket.update_date) {
        (Some(created), Some(updated)) => Some(
            TicketModelResponse {
                id: ticket.id,
                summary: ticket.summary.clone(),
                priority: ticket.priority.clone(),
                status: ticket.status.clone(),
                createdAt: created,
                updatedAt: updated,
            },
        ),
        _ => None,
    }
}

/// The tickets as shown to clients, in the order of the rows.
fn filter_db_records(rows: &Vec<TicketModel>) -> (shown: Option<Vec<TicketModelResponse>>)
    ensures
        shown.deep_view() == ticket_responses(rows.deep_view()),
{
    let mut shown: Vec<TicketModelResponse> = Vec::new();
    let mut i: usize = 0;
    while i < rows.len()
        invariant
            i <= rows.len(),
            shown.len() == i,
            forall|j: int|
                0 <= j < i ==> ticket_response(#[trigger] rows.deep_view()[j]) == Some(shown[j]@),
        decreases rows.len() - i,
    {
        assert(rows.deep_view()[i as int] == rows[i as int]@);
        match filter_db_record(&rows[i]) {
            Some(ticket) => {
                shown.push(ticket);
            },
            None => {
                assert(ticket_response(rows.deep_view()[i as int]) is None);
                return None;
            },
        }
        i += 1;
    }
    assert(shown.deep_view() =~= ticket_responses(rows.deep_view())->0);
    Some(shown)
}

/// The reply that shows one ticket.
fn show_ticket(ticket: &TicketModel, updated: bool) -> (reply: Reply)
    ensures
        reply@ == shown_ticket(ticket@, updated),
{
    match filter_db_record(ticket) {
        Some(shown) => Reply::plain(
            OK,
            if updated {
                Body::Updated { ticket: shown, status: "success" }
            } else {
                Body::Ticket(shown)
            },
        ),
        None => Reply::internal_error(),
    }
}

/// A step that ends the handler that changes a ticket.
fn edit_finish(reply: Reply) -> (step: (EditStage, Action))
    ensures
        edit_step_view(step) == edit_finished(reply@),
{
    (EditStage::Done, Action::Respond(reply))
}

/// Lists tickets, newest first: `limit` of them (20 where none is named)
/// from page `page` on (the first where none is named).
pub fn ticket_list_handler(opts: &FilterOptions, stage: Stage, outcome: Option<Outcome>) -> (step: (
    Stage,
    Action,
))
    ensures
        step_view(step) == ticket_list_step(*opts, stage, outcome.deep_view()),
{
    match stage {
        Stage::Start => match page_of(opts) {
            Some((limit, offset)) => (
                Stage::Waiting,
                Action::Run(Statement::TicketPage { limit, offset }),
            ),
            None => finish(Reply::internal_error()),
        },
        Stage::Waiting => match outcome {
            Some(Outcome::Tickets(rows)) => match filter_db_records(&rows) {
                Some(shown) => finish(Reply::plain(OK, Body::Tickets(shown))),
                None => finish(Reply::internal_error()),
            },
            _ => finish(Reply::internal_error()),
        },
        Stage::Done => finish(Reply::internal_error()),
    }
}

/// Creates a ticket from the three fields of `body`.
pub fn create_ticket_handler(body: &CreateTicketSchema, stage: Stage, outcome: Option<Outcome>) -> (step:
    (Stage, Action))
    ensures
        step_view(step) == create_ticket_step(body@, stage, outcome.deep_view()),
{
    match stage {
        Stage::Start => (
            Stage::Waiting,
            Action::Run(
                Statement::InsertTicket {
                    summary: body.summary.clone(),
                    priority: body.priority.clone(),
                    status: body.status.clone(),
                },
            ),
        ),
        Stage::Waiting => match outcome {
            Some(Outcome::Written { .. }) => finish(
                Reply::plain(OK, Body::Status { status: "success" }),
            ),
            Some(Outcome::Failed(error)) => if error.is_duplicate() {
                finish(
                    Reply::message(
                        CONFLICT,
                        "error",
                        "Ticket with that title already exists".to_string(),
                    ),
                )
            } else {
                finish(Reply::internal_error())
            },
            _ => finish(Reply::internal_error()),
        },
        Stage::Done => finish(Reply::internal_error()),
    }
}

/// Reads the ticket `id`.
pub fn get_ticket_handler(id: i64, stage: Stage, outcome: Option<Outcome>) -> (step: (
    Stage,
    Action,
))
    ensures
        step_view(step) == get_ticket_step(id, stage, outcome.deep_view()),
{
    match stage {
        Stage::Start => (Stage::Waiting, Action::Run(Statement::TicketById { id })),
        Stage::Waiting => match outcome {
            Some(Outcome::Ticket(ticket)) => finish(show_ticket(&ticket, false)),
            Some(Outcome::Failed(error)) => if error.row_not_found {
                finish(not_found_reply("fail", id))
            } else {
                finish(Reply::internal_error())
            },
            _ => finish(Reply::internal_error()),
        },
        Stage::Done => finish(Reply::internal_error()),
    }
}

/// The statement that changes ticket `id` as `body` asks.
fn update_of(id: i64, ticket: &TicketModel, body: &UpdateTicketSchema, now: Timestamp) -> (statement:
    Statement)
    ensures
        statement@ == update_statement(id, ticket@, body@, now),
{
    let summary = match &body.summary {
        Some(summary) => summary.clone(),
        None => ticket.summary.clone(),
    };
    let status = match &body.status {
        Some(status) => status.clone(),
        None => ticket.status.clone(),
    };
    let priority = match &body.priority {
        Some(priority) => priority.clone(),
        None => ticket.priority.clone(),
    };
    Statement::UpdateTicket { id, summary, status, priority, update_date: now }
}

/// One step of changing the ticket `id` as `body` asks, with `now` as the
/// time of the change.
pub fn edit_ticket_at(
    id: i64,
    body: &UpdateTicketSchema,
    stage: EditStage,
    outcome: Option<Outcome>,
    now: Timestamp,
) -> (step: (EditStage, Action))
    ensures
        edit_step_view(step) == edit_ticket_step(id, body@, stage, outcome.deep_view(), now),
{
    match stage {
        EditStage::Start => (EditStage::Fetching, Action::Run(Statement::TicketById { id })),
        EditStage::Fetching => match outcome {
            Some(Outcome::Ticket(ticket)) => (
                EditStage::Updating,
                Action::Run(update_of(id, &ticket, body, now)),
            ),
            Some(Outcome::Failed(error)) => if error.row_not_found {
                edit_finish(not_found_reply("error", id))
            } else {
                edit_finish(Reply::internal_error())
            },
            _ => edit_finish(Reply::internal_error()),
        },
        EditStage::Updating => match outcome {
            Some(Outcome::Written { rows_affected }) => if rows_affected == 0 {
                edit_finish(not_found_reply("error", id))
            } else {
                (EditStage::Refetching, Action::Run(Statement::TicketById { id }))
            },
            _ => edit_finish(Reply::internal_error()),
        },
        EditStage::Refetching => match outcome {
            Some(Outcome::Ticket(ticket)) => edit_finish(show_ticket(&ticket, true)),
            _ => edit_finish(Reply::internal_error()),
        },
        EditStage::Done => edit_finish(Reply::internal_error()),
    }
}

/// Whether a step of changing a ticket reads the clock.
fn needs_clock(stage: EditStage, outcome: &Option<Outcome>) -> (needed: bool)
    ensures
        needed == edit_reads_clock(stage, outcome.deep_view()),
{
    match stage {
        EditStage::Fetching => match outcome {
            Some(Outcome::Ticket(_)) => true,
            _ => false,
        },
        _ => false,
    }
}

/// Changes the ticket `id`: a field that `body` leaves out keeps its value,
/// and the date of the last change becomes the present time.
pub fn edit_ticket_handler(
    id: i64,
    body: &UpdateTicketSchema,
    stage: EditStage,
    outcome: Option<Outcome>,
) -> (step: (EditStage, Action))
    ensures
        exists|now: Timestamp|
            edit_step_view(step) == #[trigger] edit_ticket_step(
                id,
                body@,
                stage,
                outcome.deep_view(),
                now,
            ),
        !edit_reads_clock(stage, outcome.deep_view()) ==> forall|now: Timestamp|
            edit_step_view(step) == #[trigger] edit_ticket_step(
                id,
                body@,
                stage,
                outcome.deep_view(),
                now,
            ),
{
    let now = if needs_clock(stage, &outcome) {
        now_utc()
    } else {
        Timestamp { secs: 0, nanos: 0 }
    };
    let step = edit_ticket_at(id, body, stage, outcome, now);
    assert(edit_step_view(step) == edit_ticket_step(id, body@, stage, outcome.deep_view(), now));
    step
}

/// Removes the ticket `id`.
pub fn delete_ticket_handler(id: i64, stage: Stage, outcome: Option<Outcome>) -> (step: (
    Stage,
    Action,
))
    ensures
        step_view(step) == delete_ticket_step(id, stage, outcome.deep_view()),
{
    match stage {
        Stage::Start => (Stage::Waiting, Action::Run(Statement::DeleteTicket { id })),
        Stage::Waiting => match outcome {
            Some(Outcome::Written { rows_affected }) => if rows_affected == 0 {
                finish(not_found_reply("error", id))
            } else {
                finish(Reply::plain(NO_CONTENT, Body::Empty))
            },
            _ => finish(Reply::internal_error()),
        },
        Stage::Done => finish(Reply::internal_error()),
    }
}

/// Answers the health probe.
pub fn health_checker_handler() -> (reply: Reply)
    ensures
        reply@ == health_reply(),
{
    Reply::message(
        OK,
        "success",
        "Rust CRUD API Example with Axum Framework and MySQL".to_string(),
    )
}

} // verus!
