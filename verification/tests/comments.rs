use ticket_api::handlers::comment_handlers::{
    comments_list_handler, create_comment_handler, filter_comment_record,
};
use ticket_api::model::{CommentModel, CommentModelResponse, Timestamp};
use ticket_api::reply::{Action, Body, Reply, Stage};
use ticket_api::schema::CreateCommentSchema;
use ticket_api::store::{Outcome, Statement, StoreError};
use ticket_api::utils::jwt::ErrorResponse;

fn done(reply: Reply) -> (Stage, Action) {
    (Stage::Done, Action::Respond(reply))
}

fn message(code: u16, status: &'static str, text: &str) -> Reply {
    Reply {
        status: code,
        set_cookie: None,
        body: Body::Message(ErrorResponse { status, message: text.to_string() }),
    }
}

fn failed(text: &str) -> Option<Outcome> {
    Some(Outcome::Failed(StoreError { row_not_found: false, message: text.to_string() }))
}

fn body() -> CreateCommentSchema {
    CreateCommentSchema { content: "me too".to_string(), ticket_id: 5, author_id: 42 }
}

#[test]
fn comment_is_inserted_as_it_came() {
    assert_eq!(
        create_comment_handler(&body(), Stage::Start, None),
        (
            Stage::Waiting,
            Action::Run(Statement::InsertComment {
                content: "me too".to_string(),
                ticket_id: 5,
                author_id: 42,
            })
        )
    );
    assert_eq!(
        create_comment_handler(&body(), Stage::Waiting, Some(Outcome::Written { rows_affected: 1 })),
        done(Reply { status: 200, set_cookie: None, body: Body::Status { status: "success" } })
    );
}

#[test]
fn comment_on_a_missing_ticket_fails() {
    let refused = failed(
        "1452 (23000): Cannot add or update a child row: a foreign key constraint fails",
    );
    assert_eq!(
        create_comment_handler(&body(), Stage::Waiting, refused),
        done(message(500, "error", "An internal server error occured"))
    );
}

#[test]
fn comment_that_is_a_duplicate_is_a_conflict() {
    assert_eq!(
        create_comment_handler(&body(), Stage::Waiting, failed("Duplicate entry '1' for key 'PRIMARY'")),
        done(message(409, "error", "Ticket with that title already exists"))
    );
}

#[test]
fn comments_are_listed_with_the_names_of_their_authors() {
    let rows = vec![
        CommentModel {
            id: 1,
            content: "first".to_string(),
            create_date: Some(Timestamp { secs: 10, nanos: 0 }),
            author_id: 42,
            name: Some("Ada".to_string()),
        },
        CommentModel { id: 2, content: "second".to_string(), create_date: None, author_id: 43, name: None },
    ];
    assert_eq!(
        comments_list_handler(5, Stage::Start, None),
        (Stage::Waiting, Action::Run(Statement::CommentsByTicket { ticket_id: 5 }))
    );
    assert_eq!(
        comments_list_handler(5, Stage::Waiting, Some(Outcome::Comments(rows))),
        done(Reply {
            status: 200,
            set_cookie: None,
            body: Body::Comments(vec![
                CommentModelResponse {
                    id: 1,
                    content: "first".to_string(),
                    author_id: 42,
                    create_date: Some(Timestamp { secs: 10, nanos: 0 }),
                    name: "Ada".to_string(),
                },
                CommentModelResponse {
                    id: 2,
                    content: "second".to_string(),
                    author_id: 43,
                    create_date: None,
                    name: String::new(),
                },
            ]),
        })
    );
    assert_eq!(
        comments_list_handler(5, Stage::Waiting, Some(Outcome::Comments(vec![]))),
        done(Reply { status: 200, set_cookie: None, body: Body::Comments(vec![]) })
    );
    assert_eq!(
        comments_list_handler(5, Stage::Waiting, failed("connection reset")),
        done(message(500, "error", "An internal server error occured"))
    );
}

#[test]
fn comment_record_without_a_name_has_an_empty_one() {
    let row = CommentModel { id: 2, content: "c".to_string(), create_date: None, author_id: 43, name: None };
    assert_eq!(
        filter_comment_record(&row),
        CommentModelResponse {
            id: 2,
            content: "c".to_string(),
            author_id: 43,
            create_date: None,
            name: String::new(),
        }
    );
}
