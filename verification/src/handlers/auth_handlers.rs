//! Accounts and sessions: registration, login, logout and the profile of
//! the user behind a session.

use crate::clock::now_utc;
use crate::cookie::{header_text, CookieSpec, CookieSpecView, SameSitePolicy};
use crate::error::AppError;
use crate::model::{FilteredUser, FilteredUserView, LoginModel, LoginModelView};
use crate::password::{hash_password, password_matches, verify_password};
use crate::reply::{
    finish, finished, step_view, Action, ActionView, Body, BodyView, Reply, ReplyView, Stage,
    BAD_REQUEST, OK,
};
use crate::schema::{LoginSchema, LoginSchemaView, RegisterSchema, RegisterSchemaView};
use crate::store::{Outcome, OutcomeView, Statement, StatementView};
use crate::text::{ascii_lowercase, decimal, i64_to_decimal, to_ascii_lowercase};
use crate::utils::guard::{bearer, bearer_token};
use crate::utils::jwt::{accepted_for_its_lifetime, encoded_view, issued_token, token_encode_at};
use vstd::prelude::*;
use vstd::string::*;

verus! {

/// The seconds for which a browser keeps the cookie of a session: as long
/// as the token lives.
pub const SESSION_COOKIE_SECS: i64 = 3600;

/// The age of the cookie that ends a session: a negative one, so that the
/// browser drops the cookie at once.
pub const EXPIRED_COOKIE_SECS: i64 = -3600;

/// Where the handler that registers a user stands.
#[derive(Debug, Clone, Copy, PartialEq, Eq, Structural)]
pub enum RegisterStage {
    /// Nothing has been done for the request yet.
    Start,
    /// A user with the email of the request has been asked for.
    Finding,
    /// The new user has been sent.
    Inserting,
    /// The reply has been given.
    Done,
}

/// The view of a step of the handler that registers a user.
pub open spec fn register_step_view(step: (RegisterStage, Action)) -> (RegisterStage, ActionView) {
    (step.0, step.1@)
}

/// The end of the handler that registers a user.
pub open spec fn register_finished(reply: ReplyView) -> (RegisterStage, ActionView) {
    (RegisterStage::Done, ActionView::Respond(reply))
}

/// The text of a column, or the empty text where the column is null.
pub open spec fn text_or_empty(column: Option<Seq<char>>) -> Seq<char> {
    match column {
        Some(text) => text,
        None => Seq::<char>::empty(),
    }
}

/// A user as shown to clients: the id in decimal, then name, email and
/// role, each empty where the row has none. The password hash is left out.
pub open spec fn user_record(user: LoginModelView) -> FilteredUserView {
    FilteredUserView {
        id: decimal(user.id as int),
        name: text_or_empty(user.name),
        email: text_or_empty(user.email),
        role: text_or_empty(user.role),
    }
}

/// The cookie that carries the session token `token`: it lives as long as
/// the token does.
pub open spec fn session_cookie(token: Seq<char>) -> CookieSpecView {
    CookieSpecView {
        name: "token"@,
        value: token,
        path: "/"@,
        max_age_secs: SESSION_COOKIE_SECS,
        same_site: SameSitePolicy::Lax,
        http_only: true,
    }
}

/// The cookie that ends a session: it is empty and has expired already.
pub open spec fn expired_cookie() -> CookieSpecView {
    CookieSpecView {
        name: "token"@,
        value: Seq::<char>::empty(),
        path: "/"@,
        max_age_secs: EXPIRED_COOKIE_SECS,
        same_site: SameSitePolicy::Lax,
        http_only: true,
    }
}

/// The reply that begins a session: the token in the body and in a cookie,
/// and the user it was issued to. Where the token could not be made, the
/// reply reports that.
pub open spec fn session_reply(token: Result<Seq<char>, AppError>, user: LoginModelView) -> ReplyView {
    match token {
        Ok(token) => ReplyView {
            status: OK,
            set_cookie: Some(header_text(session_cookie(token))),
            body: BodyView::Session { status: "success"@, token, user: user_record(user) },
        },
        Err(error) => ReplyView::failure(error),
    }
}

/// The token that a reply hands out, where it begins a session.
pub open spec fn session_token(reply: ReplyView) -> Option<Seq<char>> {
    match reply.body {
        BodyView::Session { token, .. } => Some(token),
        _ => None,
    }
}

/// Whether the token that a step hands out, where it hands one out, is
/// accepted under `secret` from the time `now` on for its lifetime, as one
/// of the user that the store handed back.
pub open spec fn hands_out_live_token(
    step: (Stage, ActionView),
    secret: Seq<char>,
    outcome: Option<OutcomeView>,
    now: int,
) -> bool {
    (step.1 matches ActionView::Respond(reply) && session_token(reply) is Some) ==> (
    outcome matches Some(OutcomeView::User(Some(user))) && accepted_for_its_lifetime(
        session_token(step.1->Respond_0)->0,
        secret,
        decimal(user.id as int),
        now,
    ))
}

/// The reply to a wrong password.
pub open spec fn invalid_password() -> ReplyView {
    ReplyView::message(BAD_REQUEST, "fail"@, "Invalid password"@)
}

/// The reply to an email that no user has.
pub open spec fn invalid_email() -> ReplyView {
    ReplyView::message(BAD_REQUEST, "error"@, "Invalid email"@)
}

/// Whether `password` is the one whose hash the row holds. A row without a
/// hash matches no password.
pub open spec fn stored_password_matches(password: Seq<char>, stored: Option<Seq<char>>) -> bool {
    stored matches Some(hash) && password_matches(password, hash)
}

/// The reply to a login as the user `user`, given the reading of the
/// clock: a wrong password is refused, a right one begins a session.
pub open spec fn login_reply(
    req: LoginSchemaView,
    secret: Seq<char>,
    user: LoginModelView,
    now: int,
) -> ReplyView {
    if stored_password_matches(req.password, user.password) {
        session_reply(issued_token(decimal(user.id as int), secret, now), user)
    } else {
        invalid_password()
    }
}

/// One step of a login, given the reading of the clock: the user with the
/// email of the request, in lower case, is asked for; an unknown email and
/// a wrong password are refused; a right password begins a session.
pub open spec fn login_step(
    req: LoginSchemaView,
    secret: Seq<char>,
    stage: Stage,
    outcome: Option<OutcomeView>,
    now: int,
) -> (Stage, ActionView) {
    match stage {
        Stage::Start => (
            Stage::Waiting,
            ActionView::Run(StatementView::UserByEmail { email: ascii_lowercase(req.email) }),
        ),
        Stage::Waiting => match outcome {
            Some(OutcomeView::User(Some(user))) => finished(login_reply(req, secret, user, now)),
            Some(OutcomeView::User(None)) => finished(invalid_email()),
            _ => finished(ReplyView::internal_error()),
        },
        Stage::Done => finished(ReplyView::internal_error()),
    }
}

/// Whether a step of a login reads the clock.
pub open spec fn login_reads_clock(
    req: LoginSchemaView,
    stage: Stage,
    outcome: Option<OutcomeView>,
) -> bool {
    stage == Stage::Waiting && (outcome matches Some(OutcomeView::User(Some(user)))
        && stored_password_matches(req.password, user.password))
}

/// The reply to a registration that went through.
pub open spec fn registered() -> ReplyView {
    ReplyView::plain(
        OK,
        BodyView::Outcome { status: "success"@, result: "User successfully registered"@ },
    )
}

/// One step of a registration, given the hash of the password where one
/// was made. A request without email or password is refused. Then a user
/// with that email is asked for: where there is one the request is
/// refused, else the user is inserted with the hash for a password. A
/// breach of the uniqueness of emails at that point is refused like a user
/// that was found.
pub open spec fn register_step(
    req: RegisterSchemaView,
    stage: RegisterStage,
    outcome: Option<OutcomeView>,
    hashed: Option<Seq<char>>,
) -> (RegisterStage, ActionView) {
    match stage {
        RegisterStage::Start => if req.email.len() == 0 || req.password.len() == 0 {
            register_finished(ReplyView::failure(AppError::MissingCredential))
        } else {
            (
                RegisterStage::Finding,
                ActionView::Run(StatementView::CredentialsByEmail { email: req.email }),
            )
        },
        RegisterStage::Finding => match outcome {
            Some(OutcomeView::Credentials(None)) => match hashed {
                Some(password) => (
                    RegisterStage::Inserting,
                    ActionView::Run(
                        StatementView::InsertUser { name: req.name, email: req.email, password },
                    ),
                ),
                None => register_finished(ReplyView::failure(AppError::InternalServerError)),
            },
            Some(OutcomeView::Credentials(Some(_))) => register_finished(
                ReplyView::failure(AppError::UserAlreadyExits),
            ),
            _ => register_finished(ReplyView::failure(AppError::InternalServerError)),
        },
        RegisterStage::Inserting => match outcome {
            Some(OutcomeView::Written { rows_affected }) => if rows_affected < 1 {
                register_finished(ReplyView::failure(AppError::InternalServerError))
            } else {
                register_finished(registered())
            },
            Some(OutcomeView::Failed(error)) => if error.is_duplicate() {
                register_finished(ReplyView::failure(AppError::UserAlreadyExits))
            } else {
                register_finished(ReplyView::failure(AppError::InternalServerError))
            },
            _ => register_finished(ReplyView::failure(AppError::InternalServerError)),
        },
        RegisterStage::Done => register_finished(
            ReplyView::failure(AppError::InternalServerError),
        ),
    }
}

/// Whether a step of a registration hashes the password.
pub open spec fn register_hashes(stage: RegisterStage, outcome: Option<OutcomeView>) -> bool {
    stage == RegisterStage::Finding && outcome == Some(OutcomeView::Credentials(None))
}

/// The reply that shows the user behind a session.
pub open spec fn profile_reply(user: LoginModelView) -> ReplyView {
    ReplyView::plain(OK, BodyView::Profile { status: "success"@, user: user_record(user) })
}

/// The reply that ends a session: it takes the cookie back.
pub open spec fn logout_reply() -> ReplyView {
    ReplyView {
        status: OK,
        set_cookie: Some(header_text(expired_cookie())),
        body: BodyView::Message(
            crate::utils::jwt::ErrorResponseView {
                status: "success"@,
                message: "successfully logged out"@,
            },
        ),
    }
}

/// The reply that hands back the token of an `Authorization` header.
pub open spec fn refresh_reply(authorization: Option<Seq<char>>) -> ReplyView {
    ReplyView::plain(
        OK,
        BodyView::AccessToken(
            match authorization {
                Some(header) => bearer(header),
                None => None,
            },
        ),
    )
}

/// A copy of the text of a column, or the empty text where it is null.
fn column_text(column: &Option<String>) -> (text: String)
    ensures
        text@ == text_or_empty(column.deep_view()),
{
    match column {
        Some(text) => text.clone(),
        None => String::new(),
    }
}

/// A user as shown to clients.
pub fn filter_user_record(user: &LoginModel) -> (shown: FilteredUser)
    ensures
        shown@ == user_record(user@),
{
    FilteredUser {
        id: i64_to_decimal(user.id),
        name: column_text(&user.name),
        email: column_text(&user.email),
        role: column_text(&user.role),
    }
}

/// A step that ends the handler that registers a user.
fn register_finish(reply: Reply) -> (step: (RegisterStage, Action))
    ensures
        register_step_view(step) == register_finished(reply@),
{
    (RegisterStage::Done, Action::Respond(reply))
}

/// Hands back the token that the `Authorization` header carries.
pub fn refresh_token_handler(authorization: Option<&str>) -> (reply: Reply)
    ensures
        reply@ == refresh_reply(authorization.deep_view()),
{
    let token = match authorization {
        Some(header) => bearer_token(header),
        None => None,
    };
    Reply::plain(OK, Body::AccessToken(token))
}

/// Shows the user that the guard attached to the request.
pub fn get_me_handler(user: &LoginModel) -> (reply: Reply)
    ensures
        reply@ == profile_reply(user@),
{
    Reply::plain(OK, Body::Profile { status: "success", user: filter_user_record(user) })
}

/// Ends a session: the client is told to drop the cookie. The token itself
/// stays valid until it expires.
pub fn logout_handler() -> (reply: Reply)
    ensures
        reply@ == logout_reply(),
{
    let cookie = CookieSpec {
        name: "token".to_string(),
        value: String::new(),
        path: "/".to_string(),
        max_age_secs: EXPIRED_COOKIE_SECS,
        same_site: SameSitePolicy::Lax,
        http_only: true,
    };
    Reply {
        status: OK,
        set_cookie: Some(cookie.to_header()),
        body: Body::Message(
            crate::utils::jwt::ErrorResponse {
                status: "success",
                message: "successfully logged out".to_string(),
            },
        ),
    }
}

/// One step of a registration, with `hashed` as the hash of the password.
pub fn register_at(
    req: &RegisterSchema,
    stage: RegisterStage,
    outcome: Option<Outcome>,
    hashed: Option<String>,
) -> (step: (RegisterStage, Action))
    ensures
        register_step_view(step) == register_step(
            req@,
            stage,
            outcome.deep_view(),
            hashed.deep_view(),
        ),
{
    match stage {
        RegisterStage::Start => if req.email.as_str().is_empty() || req.password.as_str().is_empty() {
            register_finish(Reply::failure(AppError::MissingCredential))
        } else {
            (
                RegisterStage::Finding,
                Action::Run(Statement::CredentialsByEmail { email: req.email.clone() }),
            )
        },
        RegisterStage::Finding => match outcome {
            Some(Outcome::Credentials(None)) => match hashed {
                Some(password) => (
                    RegisterStage::Inserting,
                    Action::Run(
                        Statement::InsertUser {
                            name: req.name.clone(),
                            email: req.email.clone(),
                            password,
                        },
                    ),
                ),
                None => register_finish(Reply::failure(AppError::InternalServerError)),
            },
            Some(Outcome::Credentials(Some(_))) => register_finish(
                Reply::failure(AppError::UserAlreadyExits),
            ),
            _ => register_finish(Reply::failure(AppError::InternalServerError)),
        },
        RegisterStage::Inserting => match outcome {
            Some(Outcome::Written { rows_affected }) => if rows_affected < 1 {
                register_finish(Reply::failure(AppError::InternalServerError))
            } else {
                register_finish(
                    Reply::plain(
                        OK,
                        Body::Outcome { status: "success", result: "User successfully registered" },
                    ),
                )
            },
            Some(Outcome::Failed(error)) => if error.is_duplicate() {
                register_finish(Reply::failure(AppError::UserAlreadyExits))
            } else {
                register_finish(Reply::failure(AppError::InternalServerError))
            },
            _ => register_finish(Reply::failure(AppError::InternalServerError)),
        },
        RegisterStage::Done => register_finish(Reply::failure(AppError::InternalServerError)),
    }
}

/// Whether a step of a registration hashes the password.
fn needs_hash(stage: RegisterStage, outcome: &Option<Outcome>) -> (needed: bool)
    ensures
        needed == register_hashes(stage, outcome.deep_view()),
{
    match stage {
        RegisterStage::Finding => match outcome {
            Some(Outcome::Credentials(None)) => true,
            _ => false,
        },
        _ => false,
    }
}

/// Registers a user under the name, email and password of `req`. The
/// password is stored as a salted hash that it matches.
pub fn register_handler(req: &RegisterSchema, stage: RegisterStage, outcome: Option<Outcome>) -> (step:
    (RegisterStage, Action))
    ensures
        exists|hashed: Option<Seq<char>>|
            {
                &&& register_step_view(step) == #[trigger] register_step(
                    req@,
                    stage,
                    outcome.deep_view(),
                    hashed,
                )
                &&& hashed matches Some(hash) ==> password_matches(req@.password, hash)
            },
        !register_hashes(stage, outcome.deep_view()) ==> register_step_view(step) == register_step(
            req@,
            stage,
            outcome.deep_view(),
            None,
        ),
{
    let hashed = if needs_hash(stage, &outcome) {
        match hash_password(req.password.as_str()) {
            Ok(hash) => Some(hash),
            Err(_) => None,
        }
    } else {
        None
    };
    let step = register_at(req, stage, outcome, hashed);
    assert(register_step_view(step) == register_step(
        req@,
        stage,
        outcome.deep_view(),
        hashed.deep_view(),
    ));
    step
}

/// The reply that begins a session for `user` with the token `token`, or
/// reports that no token could be made.
pub fn session_outcome(token: Result<String, AppError>, user: &LoginModel) -> (reply: Reply)
    ensures
        reply@ == session_reply(encoded_view(token), user@),
{
    match token {
        Ok(token) => {
            let cookie = CookieSpec {
                name: "token".to_string(),
                value: token.clone(),
                path: "/".to_string(),
                max_age_secs: SESSION_COOKIE_SECS,
                same_site: SameSitePolicy::Lax,
                http_only: true,
            };
            Reply {
                status: OK,
                set_cookie: Some(cookie.to_header()),
                body: Body::Session { status: "success", token, user: filter_user_record(user) },
            }
        },
        Err(error) => Reply::failure(error),
    }
}

/// Whether `password` is the one whose hash the row holds.
fn stored_matches(password: &str, stored: &Option<String>) -> (same: bool)
    ensures
        same == stored_password_matches(password@, stored.deep_view()),
{
    match stored {
        Some(hash) => verify_password(password, hash.as_str()),
        None => false,
    }
}

/// The reply to a login as the user `user`, given whether the password
/// matched the stored hash, as if the clock read `now` seconds since the
/// epoch.
pub fn login_checked(matched: bool, secret: &str, user: &LoginModel, now: i64) -> (reply: Reply)
    ensures
        reply@ == if matched {
            session_reply(issued_token(decimal(user.id as int), secret@, now as int), user@)
        } else {
            invalid_password()
        },
        session_token(reply@) matches Some(token) ==> accepted_for_its_lifetime(
            token,
            secret@,
            decimal(user.id as int),
            now as int,
        ),
{
    if matched {
        session_outcome(token_encode_at(i64_to_decimal(user.id), secret, now), user)
    } else {
        Reply::message(BAD_REQUEST, "fail", "Invalid password".to_string())
    }
}

/// The reply to a login as the user `user`, as if the clock read `now`
/// seconds since the epoch.
pub fn login_as(req: &LoginSchema, secret: &str, user: &LoginModel, now: i64) -> (reply: Reply)
    ensures
        reply@ == login_reply(req@, secret@, user@, now as int),
        session_token(reply@) matches Some(token) ==> accepted_for_its_lifetime(
            token,
            secret@,
            decimal(user.id as int),
            now as int,
        ),
{
    login_checked(stored_matches(req.password.as_str(), &user.password), secret, user, now)
}

/// One step of a login as if the clock read `now` seconds since the epoch.
pub fn login_at(
    req: &LoginSchema,
    secret: &str,
    stage: Stage,
    outcome: Option<Outcome>,
    now: i64,
) -> (step: (Stage, Action))
    ensures
        step_view(step) == login_step(req@, secret@, stage, outcome.deep_view(), now as int),
        hands_out_live_token(step_view(step), secret@, outcome.deep_view(), now as int),
{
    match stage {
        Stage::Start => (
            Stage::Waiting,
            Action::Run(Statement::UserByEmail { email: to_ascii_lowercase(req.email.as_str()) }),
        ),
        Stage::Waiting => match outcome {
            Some(Outcome::User(Some(user))) => finish(login_as(req, secret, &user, now)),
            Some(Outcome::User(None)) => finish(
                Reply::message(BAD_REQUEST, "error", "Invalid email".to_string()),
            ),
            _ => finish(Reply::internal_error()),
        },
        Stage::Done => finish(Reply::internal_error()),
    }
}

/// Logs a user in: where email and password fit a user, a token is issued
/// to that user and handed out in the body and in a cookie. The guard
/// accepts that token from now on for its lifetime.
pub fn login_handler(req: &LoginSchema, secret: &str, stage: Stage, outcome: Option<Outcome>) -> (step:
    (Stage, Action))
    ensures
        exists|now: int|
            {
                &&& step_view(step) == #[trigger] login_step(
                    req@,
                    secret@,
                    stage,
                    outcome.deep_view(),
                    now,
                )
                &&& hands_out_live_token(step_view(step), secret@, outcome.deep_view(), now)
            },
        !login_reads_clock(req@, stage, outcome.deep_view()) ==> forall|now: int|
            step_view(step) == #[trigger] login_step(
                req@,
                secret@,
                stage,
                outcome.deep_view(),
                now,
            ),
{
    match (stage, outcome) {
        (Stage::Waiting, Some(Outcome::User(Some(user)))) => {
            let matched = stored_matches(req.password.as_str(), &user.password);
            let now = if matched {
                now_utc().secs
            } else {
                0
            };
            let step = finish(login_checked(matched, secret, &user, now));
            assert(step_view(step) == login_step(
                req@,
                secret@,
                stage,
                outcome.deep_view(),
                now as int,
            ));
            step
        },
        (stage, outcome) => {
            let step = login_at(req, secret, stage, outcome, 0);
            assert(step_view(step) == login_step(req@, secret@, stage, outcome.deep_view(), 0));
            step
        },
    }
}

} // verus!
