//! Session tokens: the claims they carry, how long they live, and how they
//! are signed and checked.
//!
//! A token is signed with HMAC-SHA256 under a secret that the server holds.
//! Its expiry date lies [`TOKEN_LIFETIME_SECS`] seconds after its issue, and
//! it is accepted until [`CLOCK_LEEWAY_SECS`] seconds after that date. The
//! server keeps nothing about the tokens it has issued: one that has not
//! expired is accepted whether or not its user has logged out.

use crate::clock::now_utc;
use crate::error::AppError;
use crate::model::{TokenClaims, TokenClaimsView};
use crate::reply::UNAUTHORIZED;
use vstd::prelude::*;
use vstd::string::*;

verus! {

/// The seconds between the issue of a token and its expiry date.
pub const TOKEN_LIFETIME_SECS: u64 = 3600;

/// The seconds past its expiry date for which a token is still accepted, to
/// allow for clocks that disagree.
pub const CLOCK_LEEWAY_SECS: u64 = 60;

/// The error type of the `jsonwebtoken` crate, carried through unread.
#[verifier::external_type_specification]
#[verifier::external_body]
pub struct ExJwtError(jsonwebtoken::errors::Error);

/// The body of a refusal: a status word and a message.
#[derive(Debug, Clone, PartialEq, Eq)]
pub struct ErrorResponse {
    pub status: &'static str,
    pub message: String,
}

/// What an [`ErrorResponse`] holds.
pub struct ErrorResponseView {
    pub status: Seq<char>,
    pub message: Seq<char>,
}

impl View for ErrorResponse {
    type V = ErrorResponseView;

    open spec fn view(&self) -> ErrorResponseView {
        ErrorResponseView { status: self.status@, message: self.message@ }
    }
}

/// The three claims as they were found in a token: each is missing where
/// the token does not carry it in the expected form.
pub type RawClaims = (Option<String>, Option<u64>, Option<u64>);

/// The token that `jsonwebtoken::encode` makes of the three claims under
/// the default header and the secret, or nothing where it reports an error.
pub uninterp spec fn hs256_token(sub: Seq<char>, exp: u64, iat: u64, secret: Seq<char>) -> Option<
    Seq<char>,
>;

/// The claims that `jsonwebtoken::decode` finds in a token once it has
/// checked signature and form under the secret, without looking at the
/// clock; nothing where it reports an error.
pub uninterp spec fn hs256_claims(token: Seq<char>, secret: Seq<char>) -> Option<
    (Option<Seq<char>>, Option<u64>, Option<u64>),
>;

/// Calls `jsonwebtoken::encode` with the default header, which names
/// HMAC-SHA256, on a JSON object of the claims `sub`, `exp` and `iat` in
/// this order, and with the secret as the key. The token depends on these
/// values alone and is named [`hs256_token`]. It is also claimed that
/// `jsonwebtoken::decode` finds the three claims in the token again under
/// the same secret: the signature it computes is the one that was
/// attached, and the JSON of a string and of two whole numbers reads back
/// as what was written.
#[verifier::external_body]
fn jwt_encode(claims: &TokenClaims, secret: &str) -> (token: Result<
    String,
    jsonwebtoken::errors::Error,
>)
    ensures
        match token {
            Ok(text) => {
                &&& hs256_token(claims.sub@, claims.exp, claims.iat, secret@) == Some(text@)
                &&& hs256_claims(text@, secret@) == Some(found(claims@))
            },
            Err(_) => hs256_token(claims.sub@, claims.exp, claims.iat, secret@) is None,
        },
{
    let mut object = serde_json::Map::new();
    object.insert("sub".to_owned(), serde_json::Value::from(claims.sub.as_str()));
    object.insert("exp".to_owned(), serde_json::Value::from(claims.exp));
    object.insert("iat".to_owned(), serde_json::Value::from(claims.iat));
    let key = jsonwebtoken::EncodingKey::from_secret(secret.as_bytes());
    jsonwebtoken::encode(&jsonwebtoken::Header::default(), &object, &key)
}

/// Calls `jsonwebtoken::decode` with the secret as the key and the default
/// validation, except that the expiry date is not compared with the clock:
/// the algorithm must be HMAC-SHA256, the signature must fit, and an `exp`
/// claim must be there. From the claims it hands back `sub` where it is a
/// string, and `exp` and `iat` where they are whole numbers that are not
/// negative. The answer depends on token and secret alone and is named
/// [`hs256_claims`].
#[verifier::external_body]
fn jwt_decode(token: &str, secret: &str) -> (found: Result<RawClaims, jsonwebtoken::errors::Error>)
    ensures
        match found {
            Ok(raw) => hs256_claims(token@, secret@) == Some((raw.0.deep_view(), raw.1, raw.2)),
            Err(_) => hs256_claims(token@, secret@) is None,
        },
{
    let mut rules = jsonwebtoken::Validation::default();
    rules.validate_exp = false;
    let key = jsonwebtoken::DecodingKey::from_secret(secret.as_bytes());
    let claims = jsonwebtoken::decode::<serde_json::Value>(token, &key, &rules)?.claims;
    Ok(
        (
            claims["sub"].as_str().map(str::to_owned),
            claims["exp"].as_u64(),
            claims["iat"].as_u64(),
        ),
    )
}

/// What is found in a token that carries `claims`.
pub open spec fn found(claims: TokenClaimsView) -> (Option<Seq<char>>, Option<u64>, Option<u64>) {
    (Some(claims.sub), Some(claims.exp), Some(claims.iat))
}

/// The claims of a token issued to `sub` when the clock reads `now`.
pub open spec fn issued_claims(sub: Seq<char>, now: int) -> TokenClaimsView {
    TokenClaimsView { sub, exp: (now + TOKEN_LIFETIME_SECS) as u64, iat: now as u64 }
}

/// Whether a token with these claims is still accepted when the clock reads
/// `now`.
pub open spec fn live_at(claims: TokenClaimsView, now: int) -> bool {
    now <= claims.exp + CLOCK_LEEWAY_SECS
}

/// The refusal that every token gets that is not accepted, whatever is
/// wrong with it.
pub open spec fn invalid_token() -> (u16, ErrorResponseView) {
    (UNAUTHORIZED, ErrorResponseView { status: "Error"@, message: "Invalid token"@ })
}

/// What the check of a token comes to, given the claims that were found in
/// it and the reading of the clock: the claims where all three are there
/// and the token is still live, the refusal otherwise.
pub open spec fn checked_claims(
    found: Option<(Option<Seq<char>>, Option<u64>, Option<u64>)>,
    now: int,
) -> Result<TokenClaimsView, (u16, ErrorResponseView)> {
    match found {
        Some((Some(sub), Some(exp), Some(iat))) => {
            let claims = TokenClaimsView { sub, exp, iat };
            if live_at(claims, now) {
                Ok(claims)
            } else {
                Err(invalid_token())
            }
        },
        _ => Err(invalid_token()),
    }
}

/// What the issue of a token comes to, given the reading of the clock: the
/// signed claims, or `TokenCreation` where the clock reads a time before
/// the epoch or the signing fails.
pub open spec fn issued_token(id: Seq<char>, secret: Seq<char>, now: int) -> Result<
    Seq<char>,
    AppError,
> {
    if now < 0 {
        Err(AppError::TokenCreation)
    } else {
        let claims = issued_claims(id, now);
        match hs256_token(claims.sub, claims.exp, claims.iat, secret) {
            Some(token) => Ok(token),
            None => Err(AppError::TokenCreation),
        }
    }
}

/// The view of what [`token_decode`] returns.
pub open spec fn decoded_view(outcome: Result<TokenClaims, (u16, ErrorResponse)>) -> Result<
    TokenClaimsView,
    (u16, ErrorResponseView),
> {
    match outcome {
        Ok(claims) => Ok(claims@),
        Err((status, body)) => Err((status, body@)),
    }
}

/// The view of what [`token_encode`] returns.
pub open spec fn encoded_view(outcome: Result<String, AppError>) -> Result<Seq<char>, AppError> {
    match outcome {
        Ok(token) => Ok(token@),
        Err(error) => Err(error),
    }
}

impl TokenClaims {
    /// The claims of a token for `sub`, issued when the clock reads `now`
    /// seconds since the epoch. A reading before the epoch gives
    /// `TokenCreation`.
    pub fn issue(sub: String, now: i64) -> (issued: Result<TokenClaims, AppError>)
        ensures
            now >= 0 ==> (issued matches Ok(claims) && claims@ == issued_claims(sub@, now as int)),
            now < 0 ==> issued == Err::<TokenClaims, AppError>(AppError::TokenCreation),
    {
        if now < 0 {
            return Err(AppError::TokenCreation);
        }
        let iat = now as u64;
        Ok(TokenClaims { sub, exp: iat + TOKEN_LIFETIME_SECS, iat })
    }

    /// Whether a token with these claims is still accepted when the clock
    /// reads `now` seconds since the epoch.
    pub fn is_live(&self, now: i64) -> (live: bool)
        ensures
            live == live_at(self@, now as int),
    {
        if now < 0 {
            true
        } else {
            (now as u64) <= self.exp.saturating_add(CLOCK_LEEWAY_SECS)
        }
    }
}

/// The refusal that every token gets that is not accepted.
pub fn invalid_token_error() -> (refusal: (u16, ErrorResponse))
    ensures
        (refusal.0, refusal.1@) == invalid_token(),
{
    (UNAUTHORIZED, ErrorResponse { status: "Error", message: "Invalid token".to_string() })
}

/// Turns what the signing handed back into the token or the error to
/// report.
pub fn token_outcome(signed: Result<String, jsonwebtoken::errors::Error>) -> (outcome: Result<
    String,
    AppError,
>)
    ensures
        match signed {
            Ok(text) => outcome matches Ok(kept) && kept@ == text@,
            Err(_) => outcome == Err::<String, AppError>(AppError::TokenCreation),
        },
{
    match signed {
        Ok(text) => Ok(text),
        Err(_) => Err(AppError::TokenCreation),
    }
}

/// Turns what was found in a token, and the reading of the clock, into the
/// claims or the refusal.
pub fn claims_outcome(found: Result<RawClaims, jsonwebtoken::errors::Error>, now: i64) -> (outcome:
    Result<TokenClaims, (u16, ErrorResponse)>)
    ensures
        decoded_view(outcome) == checked_claims(
            match found {
                Ok(raw) => Some((raw.0.deep_view(), raw.1, raw.2)),
                Err(_) => None,
            },
            now as int,
        ),
{
    match found {
        Ok((Some(sub), Some(exp), Some(iat))) => {
            let claims = TokenClaims { sub, exp, iat };
            if claims.is_live(now) {
                Ok(claims)
            } else {
                Err(invalid_token_error())
            }
        },
        _ => Err(invalid_token_error()),
    }
}

/// Signs `claims` under `secret`. The token is one in which the claims are
/// found again under that secret.
pub fn sign_claims(claims: &TokenClaims, secret: &str) -> (outcome: Result<String, AppError>)
    ensures
        encoded_view(outcome) == match hs256_token(claims.sub@, claims.exp, claims.iat, secret@) {
            Some(token) => Ok::<Seq<char>, AppError>(token),
            None => Err(AppError::TokenCreation),
        },
        outcome matches Ok(token) ==> hs256_claims(token@, secret@) == Some(found(claims@)),
{
    token_outcome(jwt_encode(claims, secret))
}

/// Whether `token` is accepted under `secret` from the time `issued_at` to
/// [`CLOCK_LEEWAY_SECS`] seconds past its expiry date, with the claims
/// issued to `sub` at that time, and refused from then on.
pub open spec fn accepted_for_its_lifetime(
    token: Seq<char>,
    secret: Seq<char>,
    sub: Seq<char>,
    issued_at: int,
) -> bool {
    forall|now: int|
        issued_at <= now ==> #[trigger] checked_claims(hs256_claims(token, secret), now) == (if now
            <= issued_at + TOKEN_LIFETIME_SECS + CLOCK_LEEWAY_SECS {
            Ok::<TokenClaimsView, (u16, ErrorResponseView)>(issued_claims(sub, issued_at))
        } else {
            Err(invalid_token())
        })
}

/// Issues a token for the user `id` as if the clock read `now` seconds
/// since the epoch. The token is accepted from then until the leeway past
/// its expiry date is over.
pub fn token_encode_at(id: String, secret: &str, now: i64) -> (outcome: Result<String, AppError>)
    ensures
        encoded_view(outcome) == issued_token(id@, secret@, now as int),
        outcome matches Ok(token) ==> accepted_for_its_lifetime(token@, secret@, id@, now as int),
{
    match TokenClaims::issue(id, now) {
        Ok(claims) => sign_claims(&claims, secret),
        Err(error) => Err(error),
    }
}

/// Issues a token for the user `id`: it is accepted from now on, and its
/// expiry date is in [`TOKEN_LIFETIME_SECS`] seconds.
pub fn token_encode(id: String, secret: &str) -> (outcome: Result<String, AppError>)
    ensures
        exists|now: int|
            {
                &&& encoded_view(outcome) == #[trigger] issued_token(id@, secret@, now)
                &&& outcome matches Ok(token) ==> accepted_for_its_lifetime(
                    token@,
                    secret@,
                    id@,
                    now,
                )
            },
        outcome matches Err(error) ==> error == AppError::TokenCreation,
{
    let now = now_utc();
    let outcome = token_encode_at(id, secret, now.secs);
    assert(encoded_view(outcome) == issued_token(id@, secret@, now.secs as int));
    outcome
}

/// Checks `token` as if the clock read `now` seconds since the epoch.
pub fn token_decode_at(token: String, secret: &str, now: i64) -> (outcome: Result<
    TokenClaims,
    (u16, ErrorResponse),
>)
    ensures
        decoded_view(outcome) == checked_claims(hs256_claims(token@, secret@), now as int),
{
    claims_outcome(jwt_decode(token.as_str(), secret), now)
}

/// Checks `token`: its signature under `secret`, its form, and that it has
/// not expired. Every failure gives the same refusal.
pub fn token_decode(token: String, secret: &str) -> (outcome: Result<
    TokenClaims,
    (u16, ErrorResponse),
>)
    ensures
        exists|now: int|
            decoded_view(outcome) == #[trigger] checked_claims(hs256_claims(token@, secret@), now),
        outcome is Err ==> decoded_view(outcome) == Err::<
            TokenClaimsView,
            (u16, ErrorResponseView),
        >(invalid_token()),
{
    let now = now_utc();
    let outcome = token_decode_at(token, secret, now.secs);
    assert(decoded_view(outcome) == checked_claims(hs256_claims(token@, secret@), now.secs as int));
    outcome
}

/// A token accepted one second after it was issued is refused once the
/// clock has passed its expiry date by more than the leeway.
pub proof fn issued_token_lifetime(sub: Seq<char>, issued_at: int, now: int)
    requires
        0 <= issued_at,
        issued_at + TOKEN_LIFETIME_SECS <= u64::MAX,
    ensures
        ({
            let claims = issued_claims(sub, issued_at);
            let found = Some((Some(claims.sub), Some(claims.exp), Some(claims.iat)));
            &&& claims.exp == issued_at + TOKEN_LIFETIME_SECS
            &&& checked_claims(found, issued_at + 1) == Ok::<
                TokenClaimsView,
                (u16, ErrorResponseView),
            >(claims)
            &&& issued_at <= now <= claims.exp + CLOCK_LEEWAY_SECS ==> checked_claims(found, now)
                == Ok::<TokenClaimsView, (u16, ErrorResponseView)>(claims)
            &&& now > claims.exp + CLOCK_LEEWAY_SECS ==> checked_claims(found, now) == Err::<
                TokenClaimsView,
                (u16, ErrorResponseView),
            >(invalid_token())
        }),
{
}

} // verus!
