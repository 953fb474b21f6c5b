use ticket_api::error::AppError;
use ticket_api::handlers::auth_handlers::{login_handler, register_handler, RegisterStage};
use ticket_api::handlers::comment_handlers::{comments_list_handler, create_comment_handler};
use ticket_api::handlers::ticket_handlers::{
    create_ticket_handler, delete_ticket_handler, edit_ticket_handler, get_ticket_handler,
    ticket_list_handler, EditStage,
};
use ticket_api::model::{CommentModel, LoginModel, RegisterModel, TicketModel, Timestamp};
use ticket_api::reply::{Action, Body, Reply, Stage};
use ticket_api::schema::{
    CreateCommentSchema, CreateTicketSchema, FilterOptions, LoginSchema, RegisterSchema,
    UpdateTicketSchema,
};
use ticket_api::store::{Outcome, Statement, StoreError};
use ticket_api::utils::guard::{auth_guard, GuardAction};
use ticket_api::utils::jwt::ErrorResponse;

const SECRET: &str = "my_ultra_secure_secret";

struct Comment {
    id: i64,
    content: String,
    ticket_id: i64,
    author_id: i64,
    created: Timestamp,
}

/// A store in memory that keeps the constraints of the schema: emails are
/// unique, and a comment needs its ticket and its author.
struct Memory {
    users: Vec<LoginModel>,
    tickets: Vec<TicketModel>,
    comments: Vec<Comment>,
    next_id: i64,
    clock: i64,
    statements: Vec<Statement>,
}

impl Memory {
    fn new() -> Memory {
        Memory { users: vec![], tickets: vec![], comments: vec![], next_id: 1, clock: 1000, statements: vec![] }
    }

    fn fresh_id(&mut self) -> i64 {
        let id = self.next_id;
        self.next_id += 1;
        id
    }

    fn tick(&mut self) -> Timestamp {
        self.clock += 1;
        Timestamp { secs: self.clock, nanos: 0 }
    }

    fn failed(text: &str) -> Outcome {
        Outcome::Failed(StoreError { row_not_found: false, message: text.to_string() })
    }

    fn run(&mut self, statement: Statement) -> Outcome {
        self.statements.push(statement.clone());
        match statement {
            Statement::CredentialsByEmail { email } => Outcome::Credentials(
                self.users.iter().find(|u| u.email.as_deref() == Some(email.as_str())).map(|u| {
                    RegisterModel { email: u.email.clone(), password: u.password.clone(), name: None }
                }),
            ),
            Statement::UserByEmail { email } => Outcome::User(
                self.users.iter().find(|u| u.email.as_deref() == Some(email.as_str())).cloned(),
            ),
            Statement::UserById { id } => {
                Outcome::User(self.users.iter().find(|u| u.id == id).cloned())
            }
            Statement::InsertUser { name, email, password } => {
                if self.users.iter().any(|u| u.email.as_deref() == Some(email.as_str())) {
                    return Memory::failed("1062 (23000): Duplicate entry for key 'login.email'");
                }
                let id = self.fresh_id();
                self.users.push(LoginModel {
                    id,
                    name: Some(name),
                    email: Some(email),
                    password: Some(password),
                    role: None,
                });
                Outcome::Written { rows_affected: 1 }
            }
            Statement::TicketPage { limit, offset } => {
                let mut rows = self.tickets.clone();
                rows.sort_by_key(|t| std::cmp::Reverse(t.create_date.map(|d| d.secs)));
                Outcome::Tickets(
                    rows.into_iter().skip(offset as usize).take(limit as usize).collect(),
                )
            }
            Statement::InsertTicket { summary, priority, status } => {
                let id = self.fresh_id();
                let now = self.tick();
                self.tickets.push(TicketModel {
                    id,
                    summary,
                    priority,
                    status,
                    create_date: Some(now),
                    update_date: Some(now),
                });
                Outcome::Written { rows_affected: 1 }
            }
            Statement::TicketById { id } => match self.tickets.iter().find(|t| t.id == id) {
                Some(ticket) => Outcome::Ticket(ticket.clone()),
                None => Outcome::Failed(StoreError {
                    row_not_found: true,
                    message: "no rows returned by a query that expected to return at least one row"
                        .to_string(),
                }),
            },
            Statement::UpdateTicket { id, summary, status, priority, update_date } => {
                match self.tickets.iter_mut().find(|t| t.id == id) {
                    Some(ticket) => {
                        ticket.summary = summary;
                        ticket.status = status;
                        ticket.priority = priority;
                        ticket.update_date = Some(update_date);
                        Outcome::Written { rows_affected: 1 }
                    }
                    None => Outcome::Written { rows_affected: 0 },
                }
            }
            Statement::DeleteTicket { id } => {
                let before = self.tickets.len();
                self.tickets.retain(|t| t.id != id);
                Outcome::Written { rows_affected: (before - self.tickets.len()) as u64 }
            }
            Statement::InsertComment { content, ticket_id, author_id } => {
                let ticket_known = self.tickets.iter().any(|t| t.id == ticket_id);
                let author_known = self.users.iter().any(|u| u.id == author_id);
                if !ticket_known || !author_known {
                    return Memory::failed(
                        "1452 (23000): Cannot add or update a child row: a foreign key constraint fails",
                    );
                }
                let id = self.fresh_id();
                let created = self.tick();
                self.comments.push(Comment { id, content, ticket_id, author_id, created });
                Outcome::Written { rows_affected: 1 }
            }
            Statement::CommentsByTicket { ticket_id } => Outcome::Comments(
                self.comments
                    .iter()
                    .filter(|c| c.ticket_id == ticket_id)
                    .filter_map(|c| {
                        self.users.iter().find(|u| u.id == c.author_id).map(|u| CommentModel {
                            id: c.id,
                            content: c.content.clone(),
                            create_date: Some(c.created),
                            author_id: c.author_id,
                            name: u.name.clone(),
                        })
                    })
                    .collect(),
            ),
        }
    }
}

fn register(store: &mut Memory, req: &RegisterSchema) -> Reply {
    let mut stage = RegisterStage::Start;
    let mut outcome = None;
    loop {
        match register_handler(req, stage, outcome) {
            (next, Action::Run(statement)) => {
                outcome = Some(store.run(statement));
                stage = next;
            }
            (_, Action::Respond(reply)) => return reply,
        }
    }
}

fn edit(store: &mut Memory, id: i64, body: &UpdateTicketSchema) -> Reply {
    let mut stage = EditStage::Start;
    let mut outcome = None;
    loop {
        match edit_ticket_handler(id, body, stage, outcome) {
            (next, Action::Run(statement)) => {
                outcome = Some(store.run(statement));
                stage = next;
            }
            (_, Action::Respond(reply)) => return reply,
        }
    }
}

fn exchange(store: &mut Memory, handler: &dyn Fn(Stage, Option<Outcome>) -> (Stage, Action)) -> Reply {
    let mut stage = Stage::Start;
    let mut outcome = None;
    loop {
        match handler(stage, outcome) {
            (next, Action::Run(statement)) => {
                outcome = Some(store.run(statement));
                stage = next;
            }
            (_, Action::Respond(reply)) => return reply,
        }
    }
}

fn guard(store: &mut Memory, cookie: Option<&str>, authorization: Option<&str>) -> Result<LoginModel, Reply> {
    let mut stage = Stage::Start;
    let mut outcome = None;
    loop {
        match auth_guard(cookie, authorization, SECRET, stage, outcome) {
            (next, GuardAction::Run(statement)) => {
                outcome = Some(store.run(statement));
                stage = next;
            }
            (_, GuardAction::Reject(reply)) => return Err(reply),
            (_, GuardAction::Admit(user)) => return Ok(user),
        }
    }
}

fn ada() -> RegisterSchema {
    RegisterSchema {
        email: "ada@example.com".to_string(),
        password: "hunter2".to_string(),
        name: "Ada".to_string(),
    }
}

fn new_ticket(store: &mut Memory, summary: &str) {
    let body = CreateTicketSchema {
        summary: summary.to_string(),
        priority: "low".to_string(),
        status: "open".to_string(),
    };
    let reply = exchange(store, &|stage, outcome| create_ticket_handler(&body, stage, outcome));
    assert_eq!(reply.status, 200);
}

fn message(code: u16, status: &'static str, text: &str) -> Reply {
    Reply {
        status: code,
        set_cookie: None,
        body: Body::Message(ErrorResponse { status, message: text.to_string() }),
    }
}

fn summaries(reply: &Reply) -> Vec<String> {
    match &reply.body {
        Body::Tickets(tickets) => tickets.iter().map(|t| t.summary.clone()).collect(),
        other => panic!("{:?}", other),
    }
}

#[test]
fn registering_an_email_twice_succeeds_once() {
    let mut store = Memory::new();
    let first = register(&mut store, &ada());
    assert_eq!(
        first,
        Reply {
            status: 200,
            set_cookie: None,
            body: Body::Outcome { status: "success", result: "User successfully registered" },
        }
    );
    assert_eq!(store.users.len(), 1);
    let second = register(&mut store, &ada());
    assert_eq!(
        second,
        message(400, "error", "User already exists")
    );
    assert_eq!(second, AppError::UserAlreadyExits.into_response());
    assert_eq!(store.users.len(), 1);
    assert_eq!(store.statements.len(), 3);
}

#[test]
fn registering_stores_a_hash_and_not_the_password() {
    let mut store = Memory::new();
    register(&mut store, &ada());
    let stored = store.users[0].password.clone().unwrap();
    assert_ne!(stored, "hunter2");
    assert!(ticket_api::password::verify_password("hunter2", &stored));
}

#[test]
fn login_after_registration_opens_the_guard() {
    let mut store = Memory::new();
    register(&mut store, &ada());
    let wrong = LoginSchema { email: "ada@example.com".to_string(), password: "hunter3".to_string() };
    let refused = exchange(&mut store, &|stage, outcome| login_handler(&wrong, SECRET, stage, outcome));
    assert_eq!(refused, message(400, "fail", "Invalid password"));
    let unknown = LoginSchema { email: "bob@example.com".to_string(), password: "hunter2".to_string() };
    let refused = exchange(&mut store, &|stage, outcome| login_handler(&unknown, SECRET, stage, outcome));
    assert_eq!(refused, message(400, "error", "Invalid email"));
    let right = LoginSchema { email: "Ada@Example.com".to_string(), password: "hunter2".to_string() };
    let reply = exchange(&mut store, &|stage, outcome| login_handler(&right, SECRET, stage, outcome));
    assert_eq!(reply.status, 200);
    let token = match reply.body {
        Body::Session { token, user, .. } => {
            assert_eq!(user.id, "1");
            assert_eq!(user.email, "ada@example.com");
            token
        }
        other => panic!("{:?}", other),
    };
    let user = guard(&mut store, Some(&token), None).unwrap();
    assert_eq!(user.id, 1);
    assert_eq!(user.name, Some("Ada".to_string()));
    let user = guard(&mut store, None, Some(&format!("Bearer {}", token))).unwrap();
    assert_eq!(user.id, 1);
    store.users.clear();
    assert_eq!(
        guard(&mut store, Some(&token), None),
        Err(message(401, "Error", "The user belonging to this token no longer exists"))
    );
    assert_eq!(
        guard(&mut store, None, None),
        Err(message(401, "Error", "You are not logged in, please provide token"))
    );
}

#[test]
fn empty_update_changes_the_date_only() {
    let mut store = Memory::new();
    new_ticket(&mut store, "printer on fire");
    new_ticket(&mut store, "coffee machine empty");
    let before = store.tickets.clone();
    let body = UpdateTicketSchema { summary: None, priority: None, status: None };
    let reply = edit(&mut store, 1, &body);
    assert_eq!(reply.status, 200);
    let after = store.tickets.clone();
    assert_eq!(after[1], before[1]);
    assert_eq!(after[0].id, before[0].id);
    assert_eq!(after[0].summary, before[0].summary);
    assert_eq!(after[0].priority, before[0].priority);
    assert_eq!(after[0].status, before[0].status);
    assert_eq!(after[0].create_date, before[0].create_date);
    assert_ne!(after[0].update_date, before[0].update_date);
    match reply.body {
        Body::Updated { ticket, status } => {
            assert_eq!(status, "success");
            assert_eq!(ticket.summary, "printer on fire");
            assert_eq!(Some(ticket.updatedAt), after[0].update_date);
            assert_eq!(Some(ticket.createdAt), before[0].create_date);
        }
        other => panic!("{:?}", other),
    }
}

#[test]
fn partial_update_changes_the_named_field() {
    let mut store = Memory::new();
    new_ticket(&mut store, "printer on fire");
    let body = UpdateTicketSchema { summary: None, priority: None, status: Some("closed".to_string()) };
    assert_eq!(edit(&mut store, 1, &body).status, 200);
    assert_eq!(store.tickets[0].status, "closed");
    assert_eq!(store.tickets[0].summary, "printer on fire");
    assert_eq!(store.tickets[0].priority, "low");
    assert_eq!(edit(&mut store, 9, &body), message(404, "error", "Ticket with ID: 9 not found"));
}

#[test]
fn deleting_a_missing_ticket_is_not_found() {
    let mut store = Memory::new();
    new_ticket(&mut store, "printer on fire");
    let reply = exchange(&mut store, &|stage, outcome| delete_ticket_handler(7, stage, outcome));
    assert_eq!(reply, message(404, "error", "Ticket with ID: 7 not found"));
    assert_eq!(store.tickets.len(), 1);
    let reply = exchange(&mut store, &|stage, outcome| delete_ticket_handler(1, stage, outcome));
    assert_eq!(reply, Reply { status: 204, set_cookie: None, body: Body::Empty });
    assert_eq!(store.tickets.len(), 0);
    let reply = exchange(&mut store, &|stage, outcome| delete_ticket_handler(1, stage, outcome));
    assert_eq!(reply.status, 404);
    let reply = exchange(&mut store, &|stage, outcome| get_ticket_handler(1, stage, outcome));
    assert_eq!(reply, message(404, "fail", "Ticket with ID: 1 not found"));
}

#[test]
fn second_page_of_five_shows_rows_six_to_ten() {
    let mut store = Memory::new();
    for n in 1..=12 {
        new_ticket(&mut store, &format!("ticket {}", n));
    }
    let opts = FilterOptions { page: Some(2), limit: Some(5) };
    let reply = exchange(&mut store, &|stage, outcome| ticket_list_handler(&opts, stage, outcome));
    assert_eq!(reply.status, 200);
    assert_eq!(summaries(&reply), ["ticket 7", "ticket 6", "ticket 5", "ticket 4", "ticket 3"]);
    let opts = FilterOptions { page: Some(3), limit: Some(5) };
    let reply = exchange(&mut store, &|stage, outcome| ticket_list_handler(&opts, stage, outcome));
    assert_eq!(summaries(&reply), ["ticket 2", "ticket 1"]);
    let opts = FilterOptions { page: Some(4), limit: Some(5) };
    let reply = exchange(&mut store, &|stage, outcome| ticket_list_handler(&opts, stage, outcome));
    assert_eq!(summaries(&reply), Vec::<String>::new());
    let opts = FilterOptions::default();
    let reply = exchange(&mut store, &|stage, outcome| ticket_list_handler(&opts, stage, outcome));
    assert_eq!(summaries(&reply).len(), 12);
    assert_eq!(summaries(&reply)[0], "ticket 12");
}

#[test]
fn listing_an_empty_table_gives_an_empty_list() {
    let mut store = Memory::new();
    let opts = FilterOptions { page: Some(2), limit: Some(5) };
    let reply = exchange(&mut store, &|stage, outcome| ticket_list_handler(&opts, stage, outcome));
    assert_eq!(reply, Reply { status: 200, set_cookie: None, body: Body::Tickets(vec![]) });
}

#[test]
fn comment_needs_its_ticket() {
    let mut store = Memory::new();
    register(&mut store, &ada());
    new_ticket(&mut store, "printer on fire");
    let ticket_id = store.tickets[0].id;
    let author_id = store.users[0].id;
    let orphan = CreateCommentSchema { content: "hello".to_string(), ticket_id: 99, author_id };
    let reply = exchange(&mut store, &|stage, outcome| create_comment_handler(&orphan, stage, outcome));
    assert_eq!(reply, message(500, "error", "An internal server error occured"));
    assert_eq!(store.comments.len(), 0);
    let anonymous = CreateCommentSchema { content: "hello".to_string(), ticket_id, author_id: 99 };
    let reply = exchange(&mut store, &|stage, outcome| create_comment_handler(&anonymous, stage, outcome));
    assert_eq!(reply.status, 500);
    assert_eq!(store.comments.len(), 0);
    let fine = CreateCommentSchema { content: "hello".to_string(), ticket_id, author_id };
    let reply = exchange(&mut store, &|stage, outcome| create_comment_handler(&fine, stage, outcome));
    assert_eq!(reply, Reply { status: 200, set_cookie: None, body: Body::Status { status: "success" } });
    let reply = exchange(&mut store, &|stage, outcome| comments_list_handler(ticket_id, stage, outcome));
    match reply.body {
        Body::Comments(comments) => {
            assert_eq!(comments.len(), 1);
            assert_eq!(comments[0].content, "hello");
            assert_eq!(comments[0].name, "Ada");
            assert_eq!(comments[0].author_id, author_id);
        }
        other => panic!("{:?}", other),
    }
}
