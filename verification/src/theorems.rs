//! What holds of whole exchanges between the handlers and a store that
//! keeps the constraints of the schema.

use crate::error::AppError;
use crate::handlers::auth_handlers::{
    invalid_password, login_step, register_finished, register_step, registered, session_reply,
    stored_password_matches, RegisterStage,
};
use crate::handlers::comment_handlers::{comments_list_step, create_comment_step};
use crate::handlers::ticket_handlers::{
    create_ticket_step, delete_ticket_step, edit_ticket_step, get_ticket_step, not_found,
    page_window, shown_ticket, ticket_list_step, ticket_response, ticket_responses,
    update_statement, EditStage,
};
use crate::model::{LoginModelView, TicketModelResponseView, TicketModelView, Timestamp};
use crate::password::password_matches;
use crate::relations::{duplicate_entry, exchange, Fresh, Tables};
use crate::reply::{ActionView, BodyView, ReplyView, Stage, NO_CONTENT, OK};
use crate::schema::{
    CreateCommentSchemaView, CreateTicketSchemaView, FilterOptions, LoginSchemaView,
    RegisterSchemaView, UpdateTicketSchemaView,
};
use crate::store::{OutcomeView, StatementView};
use crate::text::{ascii_lowercase, decimal, lemma_parse_decimal, occurs_at};
use crate::utils::guard::{guard_step, rejected, GuardActionView};
use crate::utils::jwt::{
    accepted_for_its_lifetime, checked_claims, hs256_claims, invalid_token, issued_token,
    CLOCK_LEEWAY_SECS, TOKEN_LIFETIME_SECS,
};
use vstd::prelude::*;

verus! {

/// A registration from the request to the reply.
pub open spec fn registration(
    tables: Tables,
    req: RegisterSchemaView,
    hashed: Option<Seq<char>>,
    fresh: Fresh,
) -> (Tables, ReplyView) {
    exchange(
        tables,
        |stage: RegisterStage, outcome: Option<OutcomeView>|
            register_step(req, stage, outcome, hashed),
        RegisterStage::Start,
        None,
        fresh,
        3,
    )
}

/// A login from the request to the reply.
pub open spec fn login(
    tables: Tables,
    req: LoginSchemaView,
    secret: Seq<char>,
    now: int,
    fresh: Fresh,
) -> (Tables, ReplyView) {
    exchange(
        tables,
        |stage: Stage, outcome: Option<OutcomeView>| login_step(req, secret, stage, outcome, now),
        Stage::Start,
        None,
        fresh,
        2,
    )
}

/// The listing of a page of tickets from the request to the reply.
pub open spec fn listing(tables: Tables, opts: FilterOptions, fresh: Fresh) -> (Tables, ReplyView) {
    exchange(
        tables,
        |stage: Stage, outcome: Option<OutcomeView>| ticket_list_step(opts, stage, outcome),
        Stage::Start,
        None,
        fresh,
        2,
    )
}

/// The change of a ticket from the request to the reply.
pub open spec fn edit(
    tables: Tables,
    id: i64,
    body: UpdateTicketSchemaView,
    now: Timestamp,
    fresh: Fresh,
) -> (Tables, ReplyView) {
    exchange(
        tables,
        |stage: EditStage, outcome: Option<OutcomeView>|
            edit_ticket_step(id, body, stage, outcome, now),
        EditStage::Start,
        None,
        fresh,
        4,
    )
}

/// The removal of a ticket from the request to the reply.
pub open spec fn deletion(tables: Tables, id: i64, fresh: Fresh) -> (Tables, ReplyView) {
    exchange(
        tables,
        |stage: Stage, outcome: Option<OutcomeView>| delete_ticket_step(id, stage, outcome),
        Stage::Start,
        None,
        fresh,
        2,
    )
}

/// The addition of a comment from the request to the reply.
pub open spec fn commenting(tables: Tables, body: CreateCommentSchemaView, fresh: Fresh) -> (
    Tables,
    ReplyView,
) {
    exchange(
        tables,
        |stage: Stage, outcome: Option<OutcomeView>| create_comment_step(body, stage, outcome),
        Stage::Start,
        None,
        fresh,
        2,
    )
}

/// A request that changes nothing of a ticket.
pub open spec fn empty_update() -> UpdateTicketSchemaView {
    UpdateTicketSchemaView { summary: None, priority: None, status: None }
}

/// A registration under an email that no user has, with a password that
/// could be hashed, goes through: the user is added with the hash for a
/// password, and nothing else changes.
pub proof fn registration_adds_the_user(
    tables: Tables,
    req: RegisterSchemaView,
    hash: Seq<char>,
    fresh: Fresh,
)
    requires
        req.email.len() > 0,
        req.password.len() > 0,
        !tables.has_email(req.email),
    ensures
        ({
            let (after, reply) = registration(tables, req, Some(hash), fresh);
            &&& reply == registered()
            &&& reply.status == 200
            &&& after.users == tables.users.push(
                LoginModelView {
                    id: fresh.id,
                    name: Some(req.name),
                    email: Some(req.email),
                    password: Some(hash),
                    role: None,
                },
            )
            &&& after.tickets == tables.tickets
            &&& after.comments == tables.comments
        }),
{
    reveal_with_fuel(exchange, 4);
}

/// Who has registered can log in with the same email and password, as
/// long as the email has no capital letters (a login looks the email up in
/// lower case): the reply begins a session for the new user, or reports
/// that no token could be made.
pub proof fn registered_user_can_log_in(
    tables: Tables,
    req: RegisterSchemaView,
    hash: Seq<char>,
    secret: Seq<char>,
    now: int,
    first_fresh: Fresh,
    second_fresh: Fresh,
)
    requires
        req.email.len() > 0,
        req.password.len() > 0,
        !tables.has_email(req.email),
        ascii_lowercase(req.email) == req.email,
        password_matches(req.password, hash),
    ensures
        ({
            let (after, _) = registration(tables, req, Some(hash), first_fresh);
            let again = LoginSchemaView { email: req.email, password: req.password };
            let user = LoginModelView {
                id: first_fresh.id,
                name: Some(req.name),
                email: Some(req.email),
                password: Some(hash),
                role: None,
            };
            login(after, again, secret, now, second_fresh) == (
                after,
                session_reply(issued_token(decimal(first_fresh.id as int), secret, now), user),
            )
        }),
{
    registration_adds_the_user(tables, req, hash, first_fresh);
    reveal_with_fuel(exchange, 3);
    let (after, _) = registration(tables, req, Some(hash), first_fresh);
    let added = tables.users.len() as int;
    assert(after.users[added].email == Some(req.email));
    assert(after.has_email(req.email));
    let found = choose|i: int|
        0 <= i < after.users.len() && (#[trigger] after.users[i]).email == Some(req.email);
    assert(found == added) by {
        if found < added {
            assert(tables.users[found].email == Some(req.email));
        }
    }
}

/// Where the store refuses a new user because the email has been taken in
/// the meantime, the registration is refused like one whose email was found
/// to be taken.
pub proof fn late_duplicate_is_refused(req: RegisterSchemaView, hashed: Option<Seq<char>>)
    ensures
        duplicate_entry().is_duplicate(),
        register_step(
            req,
            RegisterStage::Inserting,
            Some(OutcomeView::Failed(duplicate_entry())),
            hashed,
        ) == register_finished(ReplyView::failure(AppError::UserAlreadyExits)),
{
    let words = "Duplicate entry"@;
    assert(words.subrange(0, words.len() as int) =~= words);
    assert(occurs_at(words, words, 0));
}

/// Where a registration has gone through, a second one with the same
/// request is refused because the user exists already, with status 400,
/// and leaves the store as it is.
pub proof fn second_registration_is_refused(
    tables: Tables,
    req: RegisterSchemaView,
    first_hash: Option<Seq<char>>,
    second_hash: Option<Seq<char>>,
    first_fresh: Fresh,
    second_fresh: Fresh,
)
    ensures
        ({
            let (after, first) = registration(tables, req, first_hash, first_fresh);
            let (last, second) = registration(after, req, second_hash, second_fresh);
            first.is_success() ==> {
                &&& first == registered()
                &&& after.has_email(req.email)
                &&& second == ReplyView::failure(AppError::UserAlreadyExits)
                &&& second.status == 400
                &&& last == after
            }
        }),
{
    reveal_with_fuel(exchange, 4);
    let (after, first) = registration(tables, req, first_hash, first_fresh);
    if first.is_success() {
        assert(req.email.len() > 0 && req.password.len() > 0);
        assert(!tables.has_email(req.email));
        assert(first_hash is Some);
        let added = tables.users.len() as int;
        assert(after.users == tables.users.push(after.users[added]));
        assert(after.users[added].email == Some(req.email));
        assert(after.has_email(req.email));
    }
}

/// A login with the email of a user and a password that does not match
/// the stored hash is refused with status 400; the reply carries no token,
/// neither in its body nor in a cookie.
pub proof fn wrong_password_is_refused(
    tables: Tables,
    req: LoginSchemaView,
    secret: Seq<char>,
    now: int,
    fresh: Fresh,
)
    requires
        tables.has_email(ascii_lowercase(req.email)),
        !stored_password_matches(
            req.password,
            tables.user_with_email(ascii_lowercase(req.email)).password,
        ),
    ensures
        login(tables, req, secret, now, fresh) == (tables, invalid_password()),
        invalid_password().status == 400,
        invalid_password().set_cookie is None,
        invalid_password().body is Message,
{
    reveal_with_fuel(exchange, 3);
}

/// Whatever the store hands back, a step of a login gives a token out, in
/// the body or in a cookie, only where a user was found whose stored hash
/// the password matches.
pub proof fn token_needs_matching_password(
    req: LoginSchemaView,
    secret: Seq<char>,
    stage: Stage,
    outcome: Option<OutcomeView>,
    now: int,
)
    ensures
        ({
            let step = login_step(req, secret, stage, outcome, now);
            step.1 matches ActionView::Respond(reply) && (reply.set_cookie is Some
                || reply.body is Session) ==> (outcome matches Some(
                OutcomeView::User(Some(user)),
            ) && stored_password_matches(req.password, user.password))
        }),
{
}

/// A token that was issued to the user `id` at the time `issued_at` passes
/// the guard one second later, and up to the end of the leeway past its
/// expiry date: the guard asks for that user. From then on the guard
/// refuses it as an invalid token with status 401.
pub proof fn issued_token_passes_guard(
    token: Seq<char>,
    secret: Seq<char>,
    id: i64,
    issued_at: int,
    now: int,
    authorization: Option<Seq<char>>,
)
    requires
        accepted_for_its_lifetime(token, secret, decimal(id as int), issued_at),
    ensures
        guard_step(Some(token), authorization, secret, Stage::Start, None, issued_at + 1) == (
            Stage::Waiting,
            GuardActionView::Run(StatementView::UserById { id }),
        ),
        issued_at <= now <= issued_at + TOKEN_LIFETIME_SECS + CLOCK_LEEWAY_SECS ==> guard_step(
            Some(token),
            authorization,
            secret,
            Stage::Start,
            None,
            now,
        ) == (Stage::Waiting, GuardActionView::Run(StatementView::UserById { id })),
        now > issued_at + TOKEN_LIFETIME_SECS + CLOCK_LEEWAY_SECS && now >= issued_at
            ==> guard_step(Some(token), authorization, secret, Stage::Start, None, now)
            == rejected(ReplyView::plain(invalid_token().0, BodyView::Message(invalid_token().1))),
        invalid_token().0 == 401,
{
    lemma_parse_decimal(id);
    assert(checked_claims(hs256_claims(token, secret), issued_at + 1) is Ok);
    if issued_at <= now {
        assert(checked_claims(hs256_claims(token, secret), now) is Ok <==> now <= issued_at
            + TOKEN_LIFETIME_SECS + CLOCK_LEEWAY_SECS);
    }
}

/// A change that names no field leaves the ticket with the values it had:
/// the statement that is sent carries them.
pub proof fn empty_update_sends_old_values(id: i64, ticket: TicketModelView, now: Timestamp)
    ensures
        update_statement(id, ticket, empty_update(), now) == (StatementView::UpdateTicket {
            id,
            summary: ticket.summary,
            status: ticket.status,
            priority: ticket.priority,
            update_date: now,
        }),
{
}

/// A change that names no field leaves every table as it was, but for the
/// date of the last change of that ticket, which becomes the time of the
/// change; the reply shows the ticket so.
pub proof fn empty_update_changes_only_the_date(tables: Tables, id: i64, now: Timestamp, fresh: Fresh)
    requires
        tables.has_ticket(id),
        tables.tickets_dated(),
        tables.ticket_ids_distinct(),
    ensures
        ({
            let (after, reply) = edit(tables, id, empty_update(), now, fresh);
            let at = tables.ticket_index(id);
            let changed = TicketModelView { update_date: Some(now), ..tables.tickets[at] };
            &&& after.tickets == tables.tickets.update(at, changed)
            &&& after.users == tables.users
            &&& after.comments == tables.comments
            &&& reply == shown_ticket(changed, true)
            &&& reply.status == 200
        }),
{
    reveal_with_fuel(exchange, 5);
    let at = tables.ticket_index(id);
    let old = tables.tickets[at];
    let changed = TicketModelView { update_date: Some(now), ..old };
    let fetched = tables.answer(StatementView::TicketById { id }, fresh);
    assert(fetched.1 == OutcomeView::Ticket(old));
    let written = tables.answer(update_statement(id, old, empty_update(), now), fresh);
    let after = written.0;
    assert(after.tickets == tables.tickets.update(at, changed));
    assert(after.tickets[at].id == id);
    assert(after.has_ticket(id));
    let found = after.ticket_index(id);
    assert(after.tickets[found].id == id);
    assert(tables.tickets[found].id == id || found == at);
    assert(found == at);
    assert(old.create_date is Some);
}

/// The removal of a ticket that is not there is answered with status 404,
/// not with 500, and leaves the store as it is.
pub proof fn deleting_missing_ticket_is_not_found(tables: Tables, id: i64, fresh: Fresh)
    requires
        !tables.has_ticket(id),
    ensures
        deletion(tables, id, fresh) == (tables, not_found("error"@, id)),
        not_found("error"@, id).status == 404,
{
    reveal_with_fuel(exchange, 3);
}

/// The removal of a ticket that is there takes one row out and is answered
/// with status 204.
pub proof fn deleting_ticket_removes_it(tables: Tables, id: i64, fresh: Fresh)
    requires
        tables.has_ticket(id),
    ensures
        ({
            let (after, reply) = deletion(tables, id, fresh);
            &&& after.tickets == tables.tickets.remove(tables.ticket_index(id))
            &&& reply == ReplyView::plain(NO_CONTENT, BodyView::Empty)
        }),
{
    reveal_with_fuel(exchange, 3);
}

/// Every row of a table whose tickets are dated can be shown.
pub proof fn lemma_dated_rows_are_shown(tables: Tables, limit: i64, offset: i64)
    requires
        tables.tickets_dated(),
    ensures
        ticket_responses(tables.page(limit, offset)) is Some,
        ticket_responses(tables.page(limit, offset))->0.len() == tables.page(limit, offset).len(),
{
    let rows = tables.page(limit, offset);
    assert forall|i: int| 0 <= i < rows.len() implies (#[trigger] ticket_response(rows[i])) is Some by {
        let from = offset as int;
        assert(rows[i] == tables.tickets[from + i]);
    }
}

/// The listing of page `page` with `limit` rows to a page shows the rows
/// from `(page - 1) * limit` on, up to `limit` of them, in listing order,
/// and changes nothing.
pub proof fn listing_shows_the_page(tables: Tables, opts: FilterOptions, fresh: Fresh)
    requires
        tables.tickets_dated(),
        page_window(opts) is Some,
    ensures
        ({
            let (limit, offset) = page_window(opts)->0;
            let rows = tables.page(limit, offset);
            &&& ticket_responses(rows) is Some
            &&& listing(tables, opts, fresh) == (
                tables,
                ReplyView::plain(OK, BodyView::Tickets(ticket_responses(rows)->0)),
            )
        }),
{
    reveal_with_fuel(exchange, 3);
    let (limit, offset) = page_window(opts)->0;
    lemma_dated_rows_are_shown(tables, limit, offset);
}

/// Page two with five rows to a page is made of the sixth to the tenth
/// row, and a table without rows gives an empty list with status 200.
pub proof fn listing_second_page_of_five(tables: Tables, fresh: Fresh)
    requires
        tables.tickets_dated(),
    ensures
        ({
            let opts = FilterOptions { page: Some(2), limit: Some(5) };
            let (after, reply) = listing(tables, opts, fresh);
            &&& page_window(opts) == Some((5i64, 5i64))
            &&& after == tables
            &&& reply.status == 200
            &&& tables.tickets.len() >= 10 ==> reply.body == BodyView::Tickets(
                ticket_responses(tables.tickets.subrange(5, 10))->0,
            )
            &&& tables.tickets.len() == 0 ==> reply.body == BodyView::Tickets(
                Seq::<TicketModelResponseView>::empty(),
            )
        }),
{
    let opts = FilterOptions { page: Some(2), limit: Some(5) };
    assert(page_window(opts) == Some((5i64, 5i64)));
    listing_shows_the_page(tables, opts, fresh);
    if tables.tickets.len() == 0 {
        assert(ticket_responses(tables.page(5, 5))->0 =~= Seq::<TicketModelResponseView>::empty());
    }
}

/// A comment on a ticket that is not there is not added: the store
/// refuses the row, and the reply reports a failure.
pub proof fn comment_on_missing_ticket_fails(
    tables: Tables,
    body: CreateCommentSchemaView,
    fresh: Fresh,
)
    requires
        !tables.has_ticket(body.ticket_id),
    ensures
        ({
            let (after, reply) = commenting(tables, body, fresh);
            &&& after == tables
            &&& !reply.is_success()
            &&& reply.status == 500 || reply.status == 409
        }),
{
    reveal_with_fuel(exchange, 3);
}

/// Whether a step of a handler with one statement moves on: it sends its
/// statement from the start only, and with a reply it is done.
pub open spec fn moves_on(stage: Stage, step: (Stage, ActionView)) -> bool {
    match step.1 {
        ActionView::Run(_) => stage == Stage::Start && step.0 == Stage::Waiting,
        ActionView::Respond(_) => step.0 == Stage::Done,
    }
}

/// Whether a reply with status 500 is one of the two that say nothing of
/// what went wrong inside.
pub open spec fn failure_is_uniform(reply: ReplyView) -> bool {
    reply.status == 500 ==> reply == ReplyView::internal_error() || reply == ReplyView::failure(
        AppError::TokenCreation,
    )
}

/// Whether the reply of a step, where it gives one, is uniform in failure.
pub open spec fn step_is_uniform(action: ActionView) -> bool {
    action matches ActionView::Respond(reply) ==> failure_is_uniform(reply)
}

/// Whatever the store hands back, each handler with one statement sends
/// its statement at the first call and replies at the second: the host
/// never runs more than one statement for it.
pub proof fn one_statement_handlers_move_on(
    stage: Stage,
    outcome: Option<OutcomeView>,
    id: i64,
    opts: FilterOptions,
    ticket: CreateTicketSchemaView,
    comment: CreateCommentSchemaView,
    credentials: LoginSchemaView,
    secret: Seq<char>,
    now: int,
)
    ensures
        moves_on(stage, ticket_list_step(opts, stage, outcome)),
        moves_on(stage, create_ticket_step(ticket, stage, outcome)),
        moves_on(stage, get_ticket_step(id, stage, outcome)),
        moves_on(stage, delete_ticket_step(id, stage, outcome)),
        moves_on(stage, create_comment_step(comment, stage, outcome)),
        moves_on(stage, comments_list_step(id, stage, outcome)),
        moves_on(stage, login_step(credentials, secret, stage, outcome, now)),
{
}

/// Whatever the request carries and the store hands back, the guard asks
/// for the user at the first call only, and decides at the second at the
/// latest; where it refuses with status 500, it says nothing of what went
/// wrong.
pub proof fn guard_moves_on(
    cookie: Option<Seq<char>>,
    authorization: Option<Seq<char>>,
    secret: Seq<char>,
    stage: Stage,
    outcome: Option<OutcomeView>,
    now: int,
)
    ensures
        ({
            let step = guard_step(cookie, authorization, secret, stage, outcome, now);
            match step.1 {
                GuardActionView::Run(_) => stage == Stage::Start && step.0 == Stage::Waiting,
                GuardActionView::Reject(reply) => step.0 == Stage::Done && failure_is_uniform(
                    reply,
                ),
                GuardActionView::Admit(_) => step.0 == Stage::Done && stage == Stage::Waiting,
            }
        }),
{
}

/// Whatever the store hands back, a registration takes at most two
/// statements and a change of a ticket at most three: each call either
/// replies and is done, or sends a statement and stands one stage further.
pub proof fn longer_handlers_move_on(
    outcome: Option<OutcomeView>,
    id: i64,
    body: UpdateTicketSchemaView,
    now: Timestamp,
    req: RegisterSchemaView,
    hashed: Option<Seq<char>>,
    register_stage: RegisterStage,
    edit_stage: EditStage,
)
    ensures
        ({
            let step = register_step(req, register_stage, outcome, hashed);
            match step.1 {
                ActionView::Respond(_) => step.0 == RegisterStage::Done,
                ActionView::Run(_) => (register_stage == RegisterStage::Start && step.0
                    == RegisterStage::Finding) || (register_stage == RegisterStage::Finding
                    && step.0 == RegisterStage::Inserting),
            }
        }),
        ({
            let step = edit_ticket_step(id, body, edit_stage, outcome, now);
            match step.1 {
                ActionView::Respond(_) => step.0 == EditStage::Done,
                ActionView::Run(_) => (edit_stage == EditStage::Start && step.0
                    == EditStage::Fetching) || (edit_stage == EditStage::Fetching && step.0
                    == EditStage::Updating) || (edit_stage == EditStage::Updating && step.0
                    == EditStage::Refetching),
            }
        }),
{
}

/// Whatever the store hands back, a reply with status 500 says nothing of
/// what went wrong: it is the same for every failure inside the service or
/// the store, but for the one that says that no token could be made.
pub proof fn internal_failures_are_uniform(
    stage: Stage,
    outcome: Option<OutcomeView>,
    id: i64,
    opts: FilterOptions,
    ticket: CreateTicketSchemaView,
    comment: CreateCommentSchemaView,
    credentials: LoginSchemaView,
    secret: Seq<char>,
    now: int,
    body: UpdateTicketSchemaView,
    time: Timestamp,
    req: RegisterSchemaView,
    hashed: Option<Seq<char>>,
    register_stage: RegisterStage,
    edit_stage: EditStage,
)
    ensures
        step_is_uniform(ticket_list_step(opts, stage, outcome).1),
        step_is_uniform(create_ticket_step(ticket, stage, outcome).1),
        step_is_uniform(get_ticket_step(id, stage, outcome).1),
        step_is_uniform(delete_ticket_step(id, stage, outcome).1),
        step_is_uniform(create_comment_step(comment, stage, outcome).1),
        step_is_uniform(comments_list_step(id, stage, outcome).1),
        step_is_uniform(login_step(credentials, secret, stage, outcome, now).1),
        step_is_uniform(register_step(req, register_stage, outcome, hashed).1),
        step_is_uniform(edit_ticket_step(id, body, edit_stage, outcome, time).1),
{
}

} // verus!
