//! The error kinds that the credential handlers report, and how each one is
//! shown to a client.

use crate::reply::{Reply, ReplyView};
use vstd::prelude::*;

verus! {

/// A failure of registration, login or token handling.
#[derive(Debug, Clone, Copy, PartialEq, Eq, Structural)]
pub enum AppError {
    /// A token was presented that is not accepted.
    InvalidToken,
    /// Email and password do not fit together.
    WrongCredential,
    /// A request came without email or without password.
    MissingCredential,
    /// No token could be made.
    TokenCreation,
    /// The service or the store failed.
    InternalServerError,
    /// There is no such user.
    UserDoesNotExist,
    /// A user with this email exists already.
    UserAlreadyExits,
}

impl AppError {
    /// The HTTP status code that goes with this error.
    pub open spec fn spec_status_code(self) -> u16 {
        match self {
            AppError::InternalServerError => 500,
            AppError::InvalidToken => 400,
            AppError::MissingCredential => 400,
            AppError::TokenCreation => 500,
            AppError::WrongCredential => 401,
            AppError::UserDoesNotExist => 401,
            AppError::UserAlreadyExits => 400,
        }
    }

    /// The text shown to the client for this error.
    pub open spec fn spec_message(self) -> Seq<char> {
        match self {
            AppError::InternalServerError => "An internal server error occured"@,
            AppError::InvalidToken => "Invalid token"@,
            AppError::MissingCredential => "Missing credential"@,
            AppError::TokenCreation => "Failed to create token"@,
            AppError::WrongCredential => "Wrong credentials"@,
            AppError::UserDoesNotExist => "User does not exist"@,
            AppError::UserAlreadyExits => "User already exists"@,
        }
    }

    /// The HTTP status code that goes with this error.
    pub fn status_code(&self) -> (code: u16)
        ensures
            code == self.spec_status_code(),
    {
        match self {
            AppError::InternalServerError => 500,
            AppError::InvalidToken => 400,
            AppError::MissingCredential => 400,
            AppError::TokenCreation => 500,
            AppError::WrongCredential => 401,
            AppError::UserDoesNotExist => 401,
            AppError::UserAlreadyExits => 400,
        }
    }

    /// The text shown to the client for this error.
    pub fn message(&self) -> (text: &'static str)
        ensures
            text@ == self.spec_message(),
    {
        match self {
            AppError::InternalServerError => "An internal server error occured",
            AppError::InvalidToken => "Invalid token",
            AppError::MissingCredential => "Missing credential",
            AppError::TokenCreation => "Failed to create token",
            AppError::WrongCredential => "Wrong credentials",
            AppError::UserDoesNotExist => "User does not exist",
            AppError::UserAlreadyExits => "User already exists",
        }
    }

    /// The reply that reports this error: its status code, and for a body
    /// its message under the status word `error`.
    pub fn into_response(self) -> (reply: Reply)
        ensures
            reply@ == ReplyView::failure(self),
    {
        Reply::failure(self)
    }
}

} // verus!
