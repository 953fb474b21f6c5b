//! The guard in front of protected routes: it lets a request through only
//! where it carries a live session token of a user that the store knows.

use crate::model::{LoginModel, LoginModelView, TokenClaims, TokenClaimsView};
use crate::reply::{Reply, ReplyView, Stage, UNAUTHORIZED};
use crate::store::{Outcome, OutcomeView, Statement, StatementView};
use crate::text::{parse_i64, spec_parse_i64, strip_prefix, without_prefix};
pub use crate::utils::jwt::ErrorResponse;
use crate::utils::jwt::{
    checked_claims, decoded_view, hs256_claims, token_decode, token_decode_at, ErrorResponseView,
};
use vstd::prelude::*;
use vstd::string::*;

verus! {

/// What the guard wants done next.
#[derive(Debug, Clone, PartialEq, Eq)]
pub enum GuardAction {
    /// Run the statement and come back with its outcome.
    Run(Statement),
    /// Refuse the request with this reply.
    Reject(Reply),
    /// Let the request through, with this user attached to it.
    Admit(LoginModel),
}

/// What a [`GuardAction`] holds.
pub enum GuardActionView {
    Run(StatementView),
    Reject(ReplyView),
    Admit(LoginModelView),
}

impl View for GuardAction {
    type V = GuardActionView;

    open spec fn view(&self) -> GuardActionView {
        match self {
            GuardAction::Run(statement) => GuardActionView::Run(statement@),
            GuardAction::Reject(reply) => GuardActionView::Reject(reply@),
            GuardAction::Admit(user) => GuardActionView::Admit(user@),
        }
    }
}

/// The view of a step of the guard.
pub open spec fn guard_view(step: (Stage, GuardAction)) -> (Stage, GuardActionView) {
    (step.0, step.1@)
}

/// The end of the guard with a refusal.
pub open spec fn rejected(reply: ReplyView) -> (Stage, GuardActionView) {
    (Stage::Done, GuardActionView::Reject(reply))
}

/// The token in the value of an `Authorization` header: what follows the
/// scheme `Bearer` and one space. There is none where the value does not
/// begin so.
pub open spec fn bearer(header: Seq<char>) -> Option<Seq<char>> {
    without_prefix(header, "Bearer "@)
}

/// The token that a request presents: that of the cookie where there is
/// one, else that of the `Authorization` header.
pub open spec fn presented_token(cookie: Option<Seq<char>>, authorization: Option<Seq<char>>) -> Option<
    Seq<char>,
> {
    match cookie {
        Some(token) => Some(token),
        None => match authorization {
            Some(header) => bearer(header),
            None => None,
        },
    }
}

/// What the guard does with the claims of a token that was accepted: it
/// asks for the user that the subject names, or refuses where the subject
/// is no number.
pub open spec fn claims_step(claims: TokenClaimsView) -> (Stage, GuardActionView) {
    match spec_parse_i64(claims.sub) {
        Some(id) => (Stage::Waiting, GuardActionView::Run(StatementView::UserById { id })),
        None => rejected(ReplyView::message(UNAUTHORIZED, "Error"@, "Invalid id"@)),
    }
}

/// What the guard does once the token has been looked at.
pub open spec fn decoded_step(decoded: Result<TokenClaimsView, (u16, ErrorResponseView)>) -> (
    Stage,
    GuardActionView,
) {
    match decoded {
        Ok(claims) => claims_step(claims),
        Err((status, body)) => rejected(
            ReplyView::plain(status, crate::reply::BodyView::Message(body)),
        ),
    }
}

/// One step of the guard, given the reading of the clock. At the start it
/// refuses a request without a token, one whose token is not accepted and
/// one whose subject is no number, and asks for the user otherwise. Then it
/// admits the request with the user that was found, and refuses it where
/// there is none.
pub open spec fn guard_step(
    cookie: Option<Seq<char>>,
    authorization: Option<Seq<char>>,
    secret: Seq<char>,
    stage: Stage,
    outcome: Option<OutcomeView>,
    now: int,
) -> (Stage, GuardActionView) {
    match stage {
        Stage::Start => match presented_token(cookie, authorization) {
            None => rejected(
                ReplyView::message(
                    UNAUTHORIZED,
                    "Error"@,
                    "You are not logged in, please provide token"@,
                ),
            ),
            Some(token) => decoded_step(checked_claims(hs256_claims(token, secret), now)),
        },
        Stage::Waiting => match outcome {
            Some(OutcomeView::User(Some(user))) => (Stage::Done, GuardActionView::Admit(user)),
            Some(OutcomeView::User(None)) => rejected(
                ReplyView::message(
                    UNAUTHORIZED,
                    "Error"@,
                    "The user belonging to this token no longer exists"@,
                ),
            ),
            _ => rejected(ReplyView::internal_error()),
        },
        Stage::Done => rejected(ReplyView::internal_error()),
    }
}

/// Whether a step of the guard reads the clock.
pub open spec fn guard_reads_clock(
    cookie: Option<Seq<char>>,
    authorization: Option<Seq<char>>,
    stage: Stage,
) -> bool {
    stage == Stage::Start && presented_token(cookie, authorization) is Some
}

/// The token in the value of an `Authorization` header.
pub fn bearer_token(header: &str) -> (token: Option<String>)
    ensures
        token.deep_view() == bearer(header@),
{
    strip_prefix(header, "Bearer ")
}

/// The token that a request presents.
pub fn token_of(cookie: Option<&str>, authorization: Option<&str>) -> (token: Option<String>)
    ensures
        token.deep_view() == presented_token(cookie.deep_view(), authorization.deep_view()),
{
    match cookie {
        Some(token) => Some(String::from_str(token)),
        None => match authorization {
            Some(header) => bearer_token(header),
            None => None,
        },
    }
}

/// A step that ends the guard with a refusal.
fn reject(reply: Reply) -> (step: (Stage, GuardAction))
    ensures
        guard_view(step) == rejected(reply@),
{
    (Stage::Done, GuardAction::Reject(reply))
}

/// What the guard does once the token has been looked at: `decoded` is
/// what [`crate::utils::jwt::token_decode`] made of it.
pub fn guard_decoded(decoded: Result<TokenClaims, (u16, ErrorResponse)>) -> (step: (
    Stage,
    GuardAction,
))
    ensures
        guard_view(step) == decoded_step(decoded_view(decoded)),
{
    match decoded {
        Ok(claims) => match parse_i64(claims.sub.as_str()) {
            Some(id) => (Stage::Waiting, GuardAction::Run(Statement::UserById { id })),
            None => reject(Reply::message(UNAUTHORIZED, "Error", "Invalid id".to_string())),
        },
        Err((status, body)) => reject(Reply::plain(status, crate::reply::Body::Message(body))),
    }
}

/// One step of the guard as if the clock read `now` seconds since the
/// epoch.
pub fn auth_guard_at(
    cookie: Option<&str>,
    authorization: Option<&str>,
    secret: &str,
    stage: Stage,
    outcome: Option<Outcome>,
    now: i64,
) -> (step: (Stage, GuardAction))
    ensures
        guard_view(step) == guard_step(
            cookie.deep_view(),
            authorization.deep_view(),
            secret@,
            stage,
            outcome.deep_view(),
            now as int,
        ),
{
    match stage {
        Stage::Start => match token_of(cookie, authorization) {
            None => reject(
                Reply::message(
                    UNAUTHORIZED,
                    "Error",
                    "You are not logged in, please provide token".to_string(),
                ),
            ),
            Some(token) => guard_decoded(token_decode_at(token, secret, now)),
        },
        Stage::Waiting => match outcome {
            Some(Outcome::User(Some(user))) => (Stage::Done, GuardAction::Admit(user)),
            Some(Outcome::User(None)) => reject(
                Reply::message(
                    UNAUTHORIZED,
                    "Error",
                    "The user belonging to this token no longer exists".to_string(),
                ),
            ),
            _ => reject(Reply::internal_error()),
        },
        Stage::Done => reject(Reply::internal_error()),
    }
}

/// One step of the guard. `cookie` is the value of the cookie `token`
/// where the request has one, `authorization` the value of that header
/// where the request has one that is text.
pub fn auth_guard(
    cookie: Option<&str>,
    authorization: Option<&str>,
    secret: &str,
    stage: Stage,
    outcome: Option<Outcome>,
) -> (step: (Stage, GuardAction))
    ensures
        exists|now: int|
            guard_view(step) == #[trigger] guard_step(
                cookie.deep_view(),
                authorization.deep_view(),
                secret@,
                stage,
                outcome.deep_view(),
                now,
            ),
        !guard_reads_clock(cookie.deep_view(), authorization.deep_view(), stage) ==> forall|
            now: int,
        |
            guard_view(step) == #[trigger] guard_step(
                cookie.deep_view(),
                authorization.deep_view(),
                secret@,
                stage,
                outcome.deep_view(),
                now,
            ),
{
    let presented = match stage {
        Stage::Start => token_of(cookie, authorization),
        _ => None,
    };
    match presented {
        Some(token) => {
            let decoded = token_decode(token, secret);
            let step = guard_decoded(decoded);
            proof {
                let now = choose|now: int|
                    decoded_view(decoded) == #[trigger] checked_claims(
                        hs256_claims(token@, secret@),
                        now,
                    );
                assert(guard_view(step) == guard_step(
                    cookie.deep_view(),
                    authorization.deep_view(),
                    secret@,
                    stage,
                    outcome.deep_view(),
                    now,
                ));
            }
            step
        },
        None => {
            let step = auth_guard_at(cookie, authorization, secret, stage, outcome, 0);
            assert(guard_view(step) == guard_step(
                cookie.deep_view(),
                authorization.deep_view(),
                secret@,
                stage,
                outcome.deep_view(),
                0,
            ));
            step
        },
    }
}

} // verus!
