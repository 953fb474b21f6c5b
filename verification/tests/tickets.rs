use ticket_api::handlers::ticket_handlers::{
    create_ticket_handler, delete_ticket_handler, edit_ticket_at, edit_ticket_handler,
    filter_db_record, get_ticket_handler, health_checker_handler, page_of, ticket_list_handler,
    EditStage,
};
use ticket_api::model::{TicketModel, TicketModelResponse, Timestamp};
use ticket_api::reply::{Action, Body, Reply, Stage};
use ticket_api::schema::{CreateTicketSchema, FilterOptions, UpdateTicketSchema};
use ticket_api::store::{Outcome, Param, Statement, StoreError};
use ticket_api::utils::jwt::ErrorResponse;

fn at(secs: i64) -> Timestamp {
    Timestamp { secs, nanos: 0 }
}

fn ticket(id: i64) -> TicketModel {
    TicketModel {
        id,
        summary: format!("summary {}", id),
        priority: "high".to_string(),
        status: "open".to_string(),
        create_date: Some(at(1000 + id)),
        update_date: Some(at(2000 + id)),
    }
}

fn shown(id: i64) -> TicketModelResponse {
    TicketModelResponse {
        id,
        summary: format!("summary {}", id),
        priority: "high".to_string(),
        status: "open".to_string(),
        createdAt: at(1000 + id),
        updatedAt: at(2000 + id),
    }
}

fn message(code: u16, status: &'static str, text: &str) -> Reply {
    Reply {
        status: code,
        set_cookie: None,
        body: Body::Message(ErrorResponse { status, message: text.to_string() }),
    }
}

fn internal_error() -> Reply {
    message(500, "error", "An internal server error occured")
}

fn failure(row_not_found: bool, text: &str) -> Option<Outcome> {
    Some(Outcome::Failed(StoreError { row_not_found, message: text.to_string() }))
}

fn done(reply: Reply) -> (Stage, Action) {
    (Stage::Done, Action::Respond(reply))
}

#[test]
fn page_defaults_to_the_first_twenty() {
    assert_eq!(page_of(&FilterOptions::default()), Some((20, 0)));
    assert_eq!(page_of(&FilterOptions { page: None, limit: Some(7) }), Some((7, 0)));
    assert_eq!(page_of(&FilterOptions { page: Some(3), limit: None }), Some((20, 40)));
}

#[test]
fn page_two_of_five_starts_after_five_rows() {
    assert_eq!(page_of(&FilterOptions { page: Some(2), limit: Some(5) }), Some((5, 5)));
    assert_eq!(page_of(&FilterOptions { page: Some(1), limit: Some(5) }), Some((5, 0)));
    assert_eq!(page_of(&FilterOptions { page: Some(11), limit: Some(10) }), Some((10, 100)));
    assert_eq!(page_of(&FilterOptions { page: Some(9), limit: Some(0) }), Some((0, 0)));
}

#[test]
fn page_that_does_not_fit_is_none() {
    assert_eq!(page_of(&FilterOptions { page: Some(0), limit: Some(5) }), None);
    assert_eq!(page_of(&FilterOptions { page: Some(0), limit: None }), None);
    assert_eq!(page_of(&FilterOptions { page: Some(usize::MAX), limit: Some(usize::MAX) }), None);
    assert_eq!(page_of(&FilterOptions { page: Some(usize::MAX), limit: Some(2) }), None);
    let most = i64::MAX as usize;
    assert_eq!(page_of(&FilterOptions { page: Some(2), limit: Some(most) }), Some((i64::MAX, i64::MAX)));
    assert_eq!(page_of(&FilterOptions { page: Some(3), limit: Some(most) }), None);
    assert_eq!(page_of(&FilterOptions { page: Some(1), limit: Some(most + 1) }), None);
}

#[test]
fn list_asks_for_the_page() {
    let opts = FilterOptions { page: Some(2), limit: Some(5) };
    assert_eq!(
        ticket_list_handler(&opts, Stage::Start, None),
        (Stage::Waiting, Action::Run(Statement::TicketPage { limit: 5, offset: 5 }))
    );
    let bad = FilterOptions { page: Some(0), limit: Some(5) };
    assert_eq!(ticket_list_handler(&bad, Stage::Start, None), done(internal_error()));
}

#[test]
fn list_shows_the_rows_in_their_order() {
    let opts = FilterOptions::default();
    let rows = vec![ticket(9), ticket(3), ticket(5)];
    assert_eq!(
        ticket_list_handler(&opts, Stage::Waiting, Some(Outcome::Tickets(rows))),
        done(Reply {
            status: 200,
            set_cookie: None,
            body: Body::Tickets(vec![shown(9), shown(3), shown(5)]),
        })
    );
}

#[test]
fn list_of_an_empty_table_is_an_empty_list() {
    let opts = FilterOptions::default();
    assert_eq!(
        ticket_list_handler(&opts, Stage::Waiting, Some(Outcome::Tickets(vec![]))),
        done(Reply { status: 200, set_cookie: None, body: Body::Tickets(vec![]) })
    );
}

#[test]
fn list_fails_on_a_store_failure_and_on_an_undated_row() {
    let opts = FilterOptions::default();
    assert_eq!(
        ticket_list_handler(&opts, Stage::Waiting, failure(false, "connection lost")),
        done(internal_error())
    );
    let mut undated = ticket(2);
    undated.update_date = None;
    assert_eq!(
        ticket_list_handler(&opts, Stage::Waiting, Some(Outcome::Tickets(vec![ticket(1), undated]))),
        done(internal_error())
    );
    assert_eq!(ticket_list_handler(&opts, Stage::Waiting, None), done(internal_error()));
    assert_eq!(ticket_list_handler(&opts, Stage::Done, None), done(internal_error()));
}

#[test]
fn record_needs_both_dates() {
    assert_eq!(filter_db_record(&ticket(4)), Some(shown(4)));
    let mut no_created = ticket(4);
    no_created.create_date = None;
    assert_eq!(filter_db_record(&no_created), None);
    let mut no_updated = ticket(4);
    no_updated.update_date = None;
    assert_eq!(filter_db_record(&no_updated), None);
}

#[test]
fn create_inserts_the_three_fields() {
    let body = CreateTicketSchema {
        summary: "printer on fire".to_string(),
        priority: "high".to_string(),
        status: "open".to_string(),
    };
    assert_eq!(
        create_ticket_handler(&body, Stage::Start, None),
        (
            Stage::Waiting,
            Action::Run(Statement::InsertTicket {
                summary: "printer on fire".to_string(),
                priority: "high".to_string(),
                status: "open".to_string(),
            })
        )
    );
    assert_eq!(
        create_ticket_handler(&body, Stage::Waiting, Some(Outcome::Written { rows_affected: 1 })),
        done(Reply { status: 200, set_cookie: None, body: Body::Status { status: "success" } })
    );
}

#[test]
fn create_reports_a_duplicate_as_conflict() {
    let body = CreateTicketSchema {
        summary: "s".to_string(),
        priority: "p".to_string(),
        status: "t".to_string(),
    };
    assert_eq!(
        create_ticket_handler(
            &body,
            Stage::Waiting,
            failure(false, "error returned from database: 1062 (23000): Duplicate entry 's' for key 'summary'")
        ),
        done(message(409, "error", "Ticket with that title already exists"))
    );
    assert_eq!(
        create_ticket_handler(&body, Stage::Waiting, failure(false, "duplicate entry")),
        done(internal_error())
    );
    assert_eq!(
        create_ticket_handler(&body, Stage::Waiting, failure(false, "Data too long for column")),
        done(internal_error())
    );
}

#[test]
fn get_shows_the_ticket() {
    assert_eq!(
        get_ticket_handler(12, Stage::Start, None),
        (Stage::Waiting, Action::Run(Statement::TicketById { id: 12 }))
    );
    assert_eq!(
        get_ticket_handler(12, Stage::Waiting, Some(Outcome::Ticket(ticket(12)))),
        done(Reply { status: 200, set_cookie: None, body: Body::Ticket(shown(12)) })
    );
}

#[test]
fn get_of_a_missing_ticket_is_not_found() {
    assert_eq!(
        get_ticket_handler(12, Stage::Waiting, failure(true, "no rows returned")),
        done(message(404, "fail", "Ticket with ID: 12 not found"))
    );
    assert_eq!(
        get_ticket_handler(-3, Stage::Waiting, failure(true, "")),
        done(message(404, "fail", "Ticket with ID: -3 not found"))
    );
    assert_eq!(
        get_ticket_handler(12, Stage::Waiting, failure(false, "no rows returned")),
        done(internal_error())
    );
}

#[test]
fn edit_merges_the_request_into_the_ticket() {
    let body = UpdateTicketSchema {
        summary: None,
        priority: Some("low".to_string()),
        status: None,
    };
    assert_eq!(
        edit_ticket_at(5, &body, EditStage::Start, None, at(77)),
        (EditStage::Fetching, Action::Run(Statement::TicketById { id: 5 }))
    );
    assert_eq!(
        edit_ticket_at(5, &body, EditStage::Fetching, Some(Outcome::Ticket(ticket(5))), at(77)),
        (
            EditStage::Updating,
            Action::Run(Statement::UpdateTicket {
                id: 5,
                summary: "summary 5".to_string(),
                status: "open".to_string(),
                priority: "low".to_string(),
                update_date: at(77),
            })
        )
    );
    assert_eq!(
        edit_ticket_at(5, &body, EditStage::Updating, Some(Outcome::Written { rows_affected: 1 }), at(77)),
        (EditStage::Refetching, Action::Run(Statement::TicketById { id: 5 }))
    );
    assert_eq!(
        edit_ticket_at(5, &body, EditStage::Refetching, Some(Outcome::Ticket(ticket(5))), at(77)),
        (
            EditStage::Done,
            Action::Respond(Reply {
                status: 200,
                set_cookie: None,
                body: Body::Updated { ticket: shown(5), status: "success" },
            })
        )
    );
}

#[test]
fn edit_with_an_empty_request_keeps_every_field() {
    let body = UpdateTicketSchema { summary: None, priority: None, status: None };
    let now = Timestamp { secs: 1_700_000_000, nanos: 5 };
    assert_eq!(
        edit_ticket_at(5, &body, EditStage::Fetching, Some(Outcome::Ticket(ticket(5))), now),
        (
            EditStage::Updating,
            Action::Run(Statement::UpdateTicket {
                id: 5,
                summary: "summary 5".to_string(),
                status: "open".to_string(),
                priority: "high".to_string(),
                update_date: now,
            })
        )
    );
}

#[test]
fn edit_with_a_full_request_replaces_every_field() {
    let body = UpdateTicketSchema {
        summary: Some("a".to_string()),
        priority: Some("b".to_string()),
        status: Some("c".to_string()),
    };
    assert_eq!(
        edit_ticket_at(5, &body, EditStage::Fetching, Some(Outcome::Ticket(ticket(5))), at(1)),
        (
            EditStage::Updating,
            Action::Run(Statement::UpdateTicket {
                id: 5,
                summary: "a".to_string(),
                status: "c".to_string(),
                priority: "b".to_string(),
                update_date: at(1),
            })
        )
    );
}

#[test]
fn edit_of_a_missing_ticket_is_not_found() {
    let body = UpdateTicketSchema { summary: None, priority: None, status: None };
    let gone = (
        EditStage::Done,
        Action::Respond(message(404, "error", "Ticket with ID: 5 not found")),
    );
    assert_eq!(
        edit_ticket_at(5, &body, EditStage::Fetching, failure(true, "no rows"), at(1)),
        gone
    );
    assert_eq!(
        edit_ticket_at(5, &body, EditStage::Updating, Some(Outcome::Written { rows_affected: 0 }), at(1)),
        gone
    );
    let broken = (EditStage::Done, Action::Respond(internal_error()));
    assert_eq!(
        edit_ticket_at(5, &body, EditStage::Fetching, failure(false, "no rows"), at(1)),
        broken
    );
    assert_eq!(
        edit_ticket_at(5, &body, EditStage::Updating, failure(false, "x"), at(1)),
        broken
    );
    assert_eq!(
        edit_ticket_at(5, &body, EditStage::Refetching, failure(true, "no rows"), at(1)),
        broken
    );
    assert_eq!(edit_ticket_at(5, &body, EditStage::Done, None, at(1)), broken);
}

#[test]
fn edit_stamps_the_change_with_the_present_time() {
    let body = UpdateTicketSchema { summary: None, priority: None, status: None };
    let step = edit_ticket_handler(5, &body, EditStage::Fetching, Some(Outcome::Ticket(ticket(5))));
    match step {
        (
            EditStage::Updating,
            Action::Run(Statement::UpdateTicket { id, summary, status, priority, update_date }),
        ) => {
            assert_eq!(id, 5);
            assert_eq!(summary, "summary 5");
            assert_eq!(status, "open");
            assert_eq!(priority, "high");
            assert!(update_date.secs > 1_700_000_000);
            assert!(update_date.nanos < 2_000_000_000);
        }
        other => panic!("{:?}", other),
    }
    assert_eq!(
        edit_ticket_handler(5, &body, EditStage::Start, None),
        (EditStage::Fetching, Action::Run(Statement::TicketById { id: 5 }))
    );
}

#[test]
fn delete_of_a_missing_ticket_is_not_found() {
    assert_eq!(
        delete_ticket_handler(8, Stage::Start, None),
        (Stage::Waiting, Action::Run(Statement::DeleteTicket { id: 8 }))
    );
    assert_eq!(
        delete_ticket_handler(8, Stage::Waiting, Some(Outcome::Written { rows_affected: 0 })),
        done(message(404, "error", "Ticket with ID: 8 not found"))
    );
}

#[test]
fn delete_of_a_ticket_has_no_content() {
    assert_eq!(
        delete_ticket_handler(8, Stage::Waiting, Some(Outcome::Written { rows_affected: 1 })),
        done(Reply { status: 204, set_cookie: None, body: Body::Empty })
    );
    assert_eq!(
        delete_ticket_handler(8, Stage::Waiting, failure(false, "locked")),
        done(internal_error())
    );
}

#[test]
fn health_probe() {
    assert_eq!(
        health_checker_handler(),
        message(200, "success", "Rust CRUD API Example with Axum Framework and MySQL")
    );
}

#[test]
fn statements_carry_their_text_and_values() {
    let update = Statement::UpdateTicket {
        id: 5,
        summary: "a".to_string(),
        status: "c".to_string(),
        priority: "b".to_string(),
        update_date: at(9),
    };
    assert_eq!(
        update.sql(),
        "UPDATE tickets SET summary = ?, status = ?, priority = ?, update_date = ? WHERE id = ?"
    );
    assert_eq!(
        update.params(),
        vec![
            Param::Text("a".to_string()),
            Param::Text("c".to_string()),
            Param::Text("b".to_string()),
            Param::Time(at(9)),
            Param::Int(5),
        ]
    );
    let page = Statement::TicketPage { limit: 5, offset: 10 };
    assert_eq!(page.sql(), "SELECT * FROM tickets ORDER BY create_date DESC LIMIT ? OFFSET ?");
    assert_eq!(page.params(), vec![Param::Int(5), Param::Int(10)]);
    let all = [
        Statement::CredentialsByEmail { email: "e".to_string() },
        Statement::UserByEmail { email: "e".to_string() },
        Statement::UserById { id: 1 },
        Statement::InsertUser { name: "n".to_string(), email: "e".to_string(), password: "p".to_string() },
        page,
        Statement::InsertTicket { summary: "s".to_string(), priority: "p".to_string(), status: "t".to_string() },
        Statement::TicketById { id: 1 },
        update,
        Statement::DeleteTicket { id: 1 },
        Statement::InsertComment { content: "c".to_string(), ticket_id: 1, author_id: 2 },
        Statement::CommentsByTicket { ticket_id: 1 },
    ];
    for statement in &all {
        let placeholders = statement.sql().matches('?').count();
        assert_eq!(placeholders, statement.params().len(), "{:?}", statement);
    }
    assert_eq!(
        all[3].params(),
        vec![Param::Text("n".to_string()), Param::Text("e".to_string()), Param::Text("p".to_string())]
    );
    assert_eq!(
        all[9].params(),
        vec![Param::Text("c".to_string()), Param::Int(1), Param::Int(2)]
    );
}
