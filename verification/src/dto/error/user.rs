//! What can go wrong in the user service.
use vstd::prelude::*;

use crate::dtos::error::{ApiError, internal_error_message};
use crate::handlers::errors::{ErrorReply, plain_reply};
use crate::text::concat2;

verus! {

#[derive(Debug, PartialEq, Eq)]
pub enum UserServiceError {
    EmailAlreadyExists,
    HashingFailed,
    /// A database failure, held as the text of the database error.
    DatabaseError(String),
    InvalidCredentials,
    InvalidVerificationCode,
    MissingENV,
    TokenError,
    InvalidToken,
}

impl UserServiceError {
    /// The error's message.
    pub open spec fn message(self) -> Seq<char> {
        match self {
            UserServiceError::EmailAlreadyExists => "Email already exists"@,
            UserServiceError::HashingFailed => "Password hashing failed"@,
            UserServiceError::DatabaseError(e) => "Database error: "@ + e@,
            UserServiceError::InvalidCredentials => "Invalid credentials"@,
            UserServiceError::InvalidVerificationCode => "Invalid verification code"@,
            UserServiceError::MissingENV => "Missing an env variable"@,
            UserServiceError::TokenError => "Token error"@,
            UserServiceError::InvalidToken => "Invalid Token error"@,
        }
    }

    /// The status the error answers with; 500 marks a failure on our side.
    pub open spec fn status(self) -> u16 {
        match self {
            UserServiceError::EmailAlreadyExists => 409,
            UserServiceError::HashingFailed => 500,
            UserServiceError::DatabaseError(..) => 500,
            UserServiceError::InvalidCredentials => 401,
            UserServiceError::InvalidVerificationCode => 401,
            UserServiceError::MissingENV => 500,
            UserServiceError::TokenError => 500,
            UserServiceError::InvalidToken => 401,
        }
    }

    pub fn to_string(&self) -> (s: String)
        ensures
            s@ == self.message(),
    {
        match self {
            UserServiceError::EmailAlreadyExists => String::from_str("Email already exists"),
            UserServiceError::HashingFailed => String::from_str("Password hashing failed"),
            UserServiceError::DatabaseError(e) => concat2("Database error: ", e.as_str()),
            UserServiceError::InvalidCredentials => String::from_str("Invalid credentials"),
            UserServiceError::InvalidVerificationCode => String::from_str("Invalid verification code"),
            UserServiceError::MissingENV => String::from_str("Missing an env variable"),
            UserServiceError::TokenError => String::from_str("Token error"),
            UserServiceError::InvalidToken => String::from_str("Invalid Token error"),
        }
    }

    /// The response: the message for the caller's mistakes and for a service
    /// error, the generic internal message for every other failure on our side.
    pub fn error_response(&self) -> (r: ErrorReply)
        ensures
            r.status == self.status(),
            r.log_context is None,
            self.shows_message() ==> r.body.error@ == self.message(),
            !self.shows_message() ==> r.body.error@ == internal_error_message(),
    {
        match self {
            UserServiceError::EmailAlreadyExists => plain_reply(409, self.to_string()),
            UserServiceError::HashingFailed => plain_reply(500, ApiError::internal_server_error().error),
            UserServiceError::DatabaseError(..) => plain_reply(500, ApiError::internal_server_error().error),
            UserServiceError::InvalidCredentials => plain_reply(401, self.to_string()),
            UserServiceError::InvalidVerificationCode => plain_reply(401, self.to_string()),
            UserServiceError::MissingENV => plain_reply(500, ApiError::internal_server_error().error),
            UserServiceError::TokenError => plain_reply(500, ApiError::internal_server_error().error),
            UserServiceError::InvalidToken => plain_reply(401, self.to_string()),
        }
    }

    /// Whether the response shows the message (or the generic internal one).
    pub open spec fn shows_message(self) -> bool {
        match self {
            UserServiceError::EmailAlreadyExists => true,
            UserServiceError::HashingFailed => false,
            UserServiceError::DatabaseError(..) => false,
            UserServiceError::InvalidCredentials => true,
            UserServiceError::InvalidVerificationCode => true,
            UserServiceError::MissingENV => false,
            UserServiceError::TokenError => false,
            UserServiceError::InvalidToken => true,
        }
    }
}

/// Who is at fault decides the status: a database failure, a failed hash,
/// missing configuration and a token that could not be made are ours (500);
/// wrong credentials, codes and tokens are 401, a taken email 409.
pub proof fn law_user_errors_answer_by_fault(e: UserServiceError)
    ensures
        (e is DatabaseError || e is HashingFailed || e is MissingENV || e is TokenError) <==> e.status() == 500,
        !(e is DatabaseError || e is HashingFailed || e is MissingENV || e is TokenError) ==> 400 <= e.status() <= 499,
        (e is InvalidCredentials || e is InvalidVerificationCode || e is InvalidToken) ==> e.status() == 401,
        e is EmailAlreadyExists ==> e.status() == 409,
{
}

} // verus!
