//! Comments on tickets: adding one and listing those of a ticket.

use crate::model::{CommentModel, CommentModelResponse, CommentModelResponseView, CommentModelView};
use crate::reply::{
    finish, finished, step_view, Action, ActionView, Body, BodyView, Reply, ReplyView, Stage,
    CONFLICT, OK,
};
use crate::schema::{CreateCommentSchema, CreateCommentSchemaView};
use crate::store::{Outcome, OutcomeView, Statement, StatementView};
use vstd::prelude::*;
use vstd::string::*;

verus! {

/// A comment as shown to clients. The name of the author is empty where
/// the row has none.
pub open spec fn comment_response(comment: CommentModelView) -> CommentModelResponseView {
    CommentModelResponseView {
        id: comment.id,
        content: comment.content,
        author_id: comment.author_id,
        create_date: comment.create_date,
        name: match comment.name {
            Some(name) => name,
            None => Seq::<char>::empty(),
        },
    }
}

/// The comments as shown to clients, in the order of the rows.
pub open spec fn comment_responses(rows: Seq<CommentModelView>) -> Seq<CommentModelResponseView> {
    Seq::new(rows.len(), |i: int| comment_response(rows[i]))
}

/// One step of adding a comment: the row is inserted; a breach of a
/// uniqueness constraint is a conflict, any other failure, such as a
/// ticket or an author that the store does not know, an internal error.
pub open spec fn create_comment_step(
    body: CreateCommentSchemaView,
    stage: Stage,
    outcome: Option<OutcomeView>,
) -> (Stage, ActionView) {
    match stage {
        Stage::Start => (
            Stage::Waiting,
            ActionView::Run(
                StatementView::InsertComment {
                    content: body.content,
                    ticket_id: body.ticket_id,
                    author_id: body.author_id,
                },
            ),
        ),
        Stage::Waiting => match outcome {
            Some(OutcomeView::Written { .. }) => finished(
                ReplyView::plain(OK, BodyView::Status { status: "success"@ }),
            ),
            Some(OutcomeView::Failed(error)) => if error.is_duplicate() {
                finished(
                    ReplyView::message(
                        CONFLICT,
                        "error"@,
                        "Ticket with that title already exists"@,
                    ),
                )
            } else {
                finished(ReplyView::internal_error())
            },
            _ => finished(ReplyView::internal_error()),
        },
        Stage::Done => finished(ReplyView::internal_error()),
    }
}

/// One step of listing the comments of a ticket: they are asked for and
/// shown in the order in which they come back.
pub open spec fn comments_list_step(ticket_id: i64, stage: Stage, outcome: Option<OutcomeView>) -> (
    Stage,
    ActionView,
) {
    match stage {
        Stage::Start => (
            Stage::Waiting,
            ActionView::Run(StatementView::CommentsByTicket { ticket_id }),
        ),
        Stage::Waiting => match outcome {
            Some(OutcomeView::Comments(rows)) => finished(
                ReplyView::plain(OK, BodyView::Comments(comment_responses(rows))),
            ),
            _ => finished(ReplyView::internal_error()),
        },
        Stage::Done => finished(ReplyView::internal_error()),
    }
}

/// A comment as shown to clients.
pub fn filter_comment_record(comment: &CommentModel) -> (shown: CommentModelResponse)
    ensures
        shown@ == comment_response(comment@),
{
    CommentModelResponse {
        id: comment.id,
        content: comment.content.clone(),
        author_id: comment.author_id,
        create_date: comment.create_date,
        name: match &comment.name {
            Some(name) => name.clone(),
            None => String::new(),
        },
    }
}

/// The comments as shown to clients, in the order of the rows.
fn filter_comment_records(rows: &Vec<CommentModel>) -> (shown: Vec<CommentModelResponse>)
    ensures
        shown.deep_view() == comment_responses(rows.deep_view()),
{
    let mut shown: Vec<CommentModelResponse> = Vec::new();
    let mut i: usize = 0;
    while i < rows.len()
        invariant
            i <= rows.len(),
            shown.len() == i,
            forall|j: int| 0 <= j < i ==> (#[trigger] shown[j])@ == comment_response(rows[j]@),
        decreases rows.len() - i,
    {
        shown.push(filter_comment_record(&rows[i]));
        i += 1;
    }
    assert(shown.deep_view() =~= comment_responses(rows.deep_view()));
    shown
}

/// Adds a comment by the user `author_id` to the ticket `ticket_id`. That
/// both exist is left to the store.
pub fn create_comment_handler(body: &CreateCommentSchema, stage: Stage, outcome: Option<Outcome>) -> (step:
    (Stage, Action))
    ensures
        step_view(step) == create_comment_step(body@, stage, outcome.deep_view()),
{
    match stage {
        Stage::Start => (
            Stage::Waiting,
            Action::Run(
                Statement::InsertComment {
                    content: body.content.clone(),
                    ticket_id: body.ticket_id,
                    author_id: body.author_id,
                },
            ),
        ),
        Stage::Waiting => match outcome {
            Some(Outcome::Written { .. }) => finish(
                Reply::plain(OK, Body::Status { status: "success" }),
            ),
            Some(Outcome::Failed(error)) => if error.is_duplicate() {
                finish(
                    Reply::message(
                        CONFLICT,
                        "error",
                        "Ticket with that title already exists".to_string(),
                    ),
                )
            } else {
                finish(Reply::internal_error())
            },
            _ => finish(Reply::internal_error()),
        },
        Stage::Done => finish(Reply::internal_error()),
    }
}

/// Lists the comments on the ticket `ticket_id`, each with the name of its
/// author.
pub fn comments_list_handler(ticket_id: i64, stage: Stage, outcome: Option<Outcome>) -> (step: (
    Stage,
    Action,
))
    ensures
        step_view(step) == comments_list_step(ticket_id, stage, outcome.deep_view()),
{
    match stage {
        Stage::Start => (Stage::Waiting, Action::Run(Statement::CommentsByTicket { ticket_id })),
        Stage::Waiting => match outcome {
            Some(Outcome::Comments(rows)) => finish(
                Reply::plain(OK, Body::Comments(filter_comment_records(&rows))),
            ),
            _ => finish(Reply::internal_error()),
        },
        Stage::Done => finish(Reply::internal_error()),
    }
}

} // verus!
