//! Account requests and responses.
use vstd::prelude::*;

use crate::dto::error::ValidationError;
use crate::dtos::error::validation_error;
use crate::text::{count_char, count_occurrences, lemma_count_char_positive_iff_contains};

verus! {

/// A request body that checks its own fields before any work is done.
pub trait RequestValidateTrait {
    fn validate(&self) -> Result<(), ValidationError>;
}

pub struct SignUpRequest {
    pub username: String,
    pub email: String,
    pub password: String,
}

/// How many pieces `str::split(c)` cuts `s` into: one more than the
/// occurrences of `c`.
pub open spec fn split_count(s: Seq<char>, c: char) -> nat {
    count_char(s, c) + 1
}

/// What a sign up request breaks, as the field and the message, or `None`.
pub open spec fn sign_up_verdict(username: Seq<char>, email: Seq<char>, password: Seq<char>) -> Option<
    (Seq<char>, Seq<char>),
> {
    if split_count(email, '@') != 2 || split_count(email, '.') < 2 {
        Some(("email"@, "Invalid email format"@))
    } else if username.len() < 3 {
        Some(("username"@, "Username must be at least 3 characters long"@))
    } else if password.len() < 8 {
        Some(("password"@, "Password must be at least 8 characters long"@))
    } else {
        None
    }
}

/// A sign up request is accepted exactly when its email holds one `@` and
/// at least one `.` (any number of them), its username at least 3
/// characters and its password at least 8. A refusal names the email first,
/// then the username, then the password.
pub proof fn law_sign_up_accepts_exactly_the_basic_shapes(
    username: Seq<char>,
    email: Seq<char>,
    password: Seq<char>,
)
    ensures
        sign_up_verdict(username, email, password) is None <==> (count_char(email, '@') == 1
            && email.contains('.') && username.len() >= 3 && password.len() >= 8),
        !(count_char(email, '@') == 1 && email.contains('.')) ==> sign_up_verdict(username, email, password)
            == Some(("email"@, "Invalid email format"@)),
        count_char(email, '@') == 1 && email.contains('.') && username.len() < 3 ==> sign_up_verdict(
            username,
            email,
            password,
        ) == Some(("username"@, "Username must be at least 3 characters long"@)),
{
    lemma_count_char_positive_iff_contains(email, '.');
}

impl RequestValidateTrait for SignUpRequest {
    /// A basic check of the email's shape (exactly one `@` and at least one
    /// `.`; not RFC compliant), then a username of at least 3 characters and
    /// a password of at least 8.
    fn validate(&self) -> (r: Result<(), ValidationError>)
        ensures
            match sign_up_verdict(self.username@, self.email@, self.password@) {
                None => r is Ok,
                Some(fm) => r matches Err(e) && e.field@ == fm.0 && e.message@ == fm.1,
            },
    {
        let ats = count_occurrences(self.email.as_str(), '@');
        let dots = count_occurrences(self.email.as_str(), '.');
        if ats != 1 || dots < 1 {
            return Err(validation_error("email", "Invalid email format"));
        }
        if self.username.as_str().unicode_len() < 3 {
            return Err(validation_error("username", "Username must be at least 3 characters long"));
        }
        if self.password.as_str().unicode_len() < 8 {
            return Err(validation_error("password", "Password must be at least 8 characters long"));
        }
        Ok(())
    }
}

#[derive(Debug, PartialEq, Eq)]
pub struct SignUpResponse {
    pub success: bool,
}

pub struct SignInRequest {
    pub email: String,
    pub password: String,
}

#[derive(Debug, PartialEq, Eq)]
pub struct SignInResponse {
    pub id: String,
    pub success: bool,
}

pub struct VerifyEmailRequest {
    pub id: String,
    pub code: String,
}

#[derive(Debug, PartialEq, Eq)]
pub struct VerifyEmailResponse {
    pub id: String,
    pub username: String,
    pub email: String,
    pub access_token: String,
    pub refresh_token: String,
}

pub struct LogoutRequest {
    pub refresh_token: String,
}

#[derive(Debug, PartialEq, Eq)]
pub struct LogoutResponse {
    pub success: bool,
}

} // verus!
