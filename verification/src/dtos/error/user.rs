//! What can go wrong in the user service.
//!
//! Domain language only, no status codes; `error_response` turns one into a
//! response.
//!
//! One deliberate shape worth keeping: sign in failures collapse into a single
//! `InvalidCredentials` rather than distinguishing an unknown email from a
//! wrong password. Telling those apart would let anyone enumerate which
//! addresses have accounts.
use vstd::prelude::*;

use crate::handlers::errors::{
    ErrorReply, client_error, internal_error, is_client_error, is_internal_error,
};
use crate::text::{concat2, concat3};

verus! {

#[derive(Debug, PartialEq, Eq)]
pub enum UserServiceError {
    EmailAlreadyExists,
    InvalidCredentials,
    EmailNotVerified,
    InvalidVerificationCode,
    VerificationCodeExpired,
    UserNotFound,
    InvalidUserId(String),
    /// The token was structurally unreadable: wrong shape, bad signature, or
    /// claims that do not parse.
    MalformedToken,
    /// The token read fine but cannot be accepted: expired, revoked, or the
    /// wrong kind for this endpoint.
    RejectedToken,
    TokenIssuanceFailed,
    HashingFailed,
    MissingConfiguration(&'static str),
    /// A database failure, held as the text of the database error.
    Database(String),
}

impl UserServiceError {
    /// The error's message.
    pub open spec fn message(self) -> Seq<char> {
        match self {
            UserServiceError::EmailAlreadyExists => "an account with that email already exists"@,
            UserServiceError::InvalidCredentials => "invalid credentials"@,
            UserServiceError::EmailNotVerified => "this account has not verified its email address"@,
            UserServiceError::InvalidVerificationCode => "the verification code is not valid"@,
            UserServiceError::VerificationCodeExpired => "the verification code has expired"@,
            UserServiceError::UserNotFound => "user not found"@,
            UserServiceError::InvalidUserId(id) => "'"@ + id@ + "' is not a valid user id"@,
            UserServiceError::MalformedToken => "the token could not be read"@,
            UserServiceError::RejectedToken => "the token is no longer valid"@,
            UserServiceError::TokenIssuanceFailed => "could not issue a token"@,
            UserServiceError::HashingFailed => "password hashing failed"@,
            UserServiceError::MissingConfiguration(name) => "required configuration is missing: "@ + name@,
            UserServiceError::Database(e) => "database error: "@ + e@,
        }
    }

    /// The status the error answers with; 500 marks a failure on our side.
    pub open spec fn status(self) -> u16 {
        match self {
            UserServiceError::EmailAlreadyExists => 409,
            UserServiceError::InvalidCredentials => 401,
            UserServiceError::EmailNotVerified => 403,
            UserServiceError::InvalidVerificationCode => 401,
            UserServiceError::VerificationCodeExpired => 401,
            UserServiceError::UserNotFound => 404,
            UserServiceError::InvalidUserId(..) => 400,
            UserServiceError::MalformedToken => 401,
            UserServiceError::RejectedToken => 401,
            UserServiceError::TokenIssuanceFailed => 500,
            UserServiceError::HashingFailed => 500,
            UserServiceError::MissingConfiguration(..) => 500,
            UserServiceError::Database(..) => 500,
        }
    }

    pub fn to_string(&self) -> (s: String)
        ensures
            s@ == self.message(),
    {
        match self {
            UserServiceError::EmailAlreadyExists => String::from_str("an account with that email already exists"),
            UserServiceError::InvalidCredentials => String::from_str("invalid credentials"),
            UserServiceError::EmailNotVerified => String::from_str("this account has not verified its email address"),
            UserServiceError::InvalidVerificationCode => String::from_str("the verification code is not valid"),
            UserServiceError::VerificationCodeExpired => String::from_str("the verification code has expired"),
            UserServiceError::UserNotFound => String::from_str("user not found"),
            UserServiceError::InvalidUserId(id) => concat3("'", id.as_str(), "' is not a valid user id"),
            UserServiceError::MalformedToken => String::from_str("the token could not be read"),
            UserServiceError::RejectedToken => String::from_str("the token is no longer valid"),
            UserServiceError::TokenIssuanceFailed => String::from_str("could not issue a token"),
            UserServiceError::HashingFailed => String::from_str("password hashing failed"),
            UserServiceError::MissingConfiguration(name) => concat2("required configuration is missing: ", name),
            UserServiceError::Database(e) => concat2("database error: ", e.as_str()),
        }
    }

    /// The response: the message for the caller's own mistakes, a flat internal
    /// error for a failure on our side, whose cause goes onto the log line only.
    pub fn error_response(&self) -> (r: ErrorReply)
        ensures
            r.status == self.status(),
            self.status() != 500 ==> is_client_error(r, self.status(), self.message()),
            self matches UserServiceError::Database(e) ==> is_internal_error(r, e@),
            (self.status() == 500 && !(self is Database)) ==> is_internal_error(r, self.message()),
    {
        match self {
            UserServiceError::EmailAlreadyExists => client_error(409, self.to_string()),
            UserServiceError::InvalidCredentials => client_error(401, self.to_string()),
            UserServiceError::EmailNotVerified => client_error(403, self.to_string()),
            UserServiceError::InvalidVerificationCode => client_error(401, self.to_string()),
            UserServiceError::VerificationCodeExpired => client_error(401, self.to_string()),
            UserServiceError::UserNotFound => client_error(404, self.to_string()),
            UserServiceError::InvalidUserId(..) => client_error(400, self.to_string()),
            UserServiceError::MalformedToken => client_error(401, self.to_string()),
            UserServiceError::RejectedToken => client_error(401, self.to_string()),
            UserServiceError::TokenIssuanceFailed => internal_error(self.to_string()),
            UserServiceError::HashingFailed => internal_error(self.to_string()),
            UserServiceError::MissingConfiguration(..) => internal_error(self.to_string()),
            UserServiceError::Database(e) => internal_error(e.clone()),
        }
    }
}

/// Everything an unauthenticated caller can trigger by guessing answers with
/// 401 and the same shape, so nothing helps tell a real account from a fake
/// one.
pub proof fn law_guessable_failures_look_alike(e: UserServiceError)
    requires
        e is InvalidCredentials || e is InvalidVerificationCode || e is VerificationCodeExpired
            || e is MalformedToken || e is RejectedToken,
    ensures
        e.status() == 401,
{
}

/// Who is at fault decides the answer: a database failure, a failed hash,
/// a token that could not be issued and missing configuration are ours
/// (500); every other account error is the caller's (a 4xx), and a user id
/// that does not read is 400.
pub proof fn law_user_errors_answer_by_fault(e: UserServiceError)
    ensures
        (e is Database || e is HashingFailed || e is TokenIssuanceFailed || e is MissingConfiguration)
            ==> e.status() == 500,
        !(e is Database || e is HashingFailed || e is TokenIssuanceFailed || e is MissingConfiguration)
            ==> 400 <= e.status() <= 499,
        e is InvalidUserId ==> e.status() == 400,
        e is UserNotFound ==> e.status() == 404,
        e is EmailAlreadyExists ==> e.status() == 409,
        e is EmailNotVerified ==> e.status() == 403,
{
}

} // verus!
