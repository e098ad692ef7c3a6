//! Who is calling: the decisions of the authentication middleware.
//!
//! A request is admitted when it carries `Authorization: Bearer <token>`, the
//! token validates as an access token, it has not been revoked, its subject
//! is a valid user id and that user exists. The middleware does the reading
//! and the lookups; `auth_step` decides, one event at a time, what it does
//! next. Every refusal answers 401; the reason goes onto the log line.
use vstd::prelude::*;

use crate::dtos::error::ApiError;
use crate::handlers::errors::{ErrorReply, is_single_text_entry};
use crate::ids::{parse_uuid, parsed_uuid};
use crate::json::JsonValue;
use crate::text::{contains_char, text_eq};

verus! {

/// The caller, as attached to an admitted request.
#[derive(Debug, PartialEq, Eq)]
pub struct AuthUser {
    pub id: String,
    pub username: String,
    pub email: String,
    pub access_token_jti: String,
    pub access_token_exp: usize,
}

#[derive(Debug, Clone, Copy, PartialEq, Eq)]
pub enum AuthError {
    Unauthorised,
    InvalidToken,
}

impl AuthError {
    pub open spec fn message(self) -> Seq<char> {
        match self {
            AuthError::Unauthorised => "Unauthorised to access this resource"@,
            AuthError::InvalidToken => "Invalid auth"@,
        }
    }

    pub fn to_string(&self) -> (s: String)
        ensures
            s@ == self.message(),
    {
        match self {
            AuthError::Unauthorised => String::from_str("Unauthorised to access this resource"),
            AuthError::InvalidToken => String::from_str("Invalid auth"),
        }
    }

    /// Every refusal answers 401.
    pub fn status_code(&self) -> (s: u16)
        ensures
            s == 401,
    {
        401
    }

    /// A 401 with the error's message as the body.
    pub fn error_response(&self) -> (r: ErrorReply)
        ensures
            r.status == 401,
            r.body.error@ == self.message(),
            r.log_context is None,
    {
        ErrorReply { status: 401, body: ApiError { error: self.to_string() }, log_context: None }
    }
}

/// Why a request was turned away. Every refusal looks the same to the caller
/// on purpose (one error, one status, one body); the reason goes only onto the
/// log line, where the difference between, say, a missing header and a
/// revoked token has to show up.
#[derive(Debug, Clone, Copy, PartialEq, Eq)]
pub enum RejectReason {
    NoAuthorizationHeader,
    UnreadableAuthorizationHeader,
    NotABearerToken,
    TokenFailedValidation,
    NotAnAccessToken,
    ApplicationStateMissing,
    BlacklistLookupFailed,
    TokenWasRevoked,
    SubjectNotAValidId,
    UserLookupFailed,
    NoUserForThisToken,
}

impl RejectReason {
    pub open spec fn spec_text(self) -> Seq<char> {
        match self {
            RejectReason::NoAuthorizationHeader => "no authorization header"@,
            RejectReason::UnreadableAuthorizationHeader => "unreadable authorization header"@,
            RejectReason::NotABearerToken => "not a bearer token"@,
            RejectReason::TokenFailedValidation => "token failed validation"@,
            RejectReason::NotAnAccessToken => "not an access token"@,
            RejectReason::ApplicationStateMissing => "application state missing"@,
            RejectReason::BlacklistLookupFailed => "blacklist lookup failed"@,
            RejectReason::TokenWasRevoked => "token was revoked"@,
            RejectReason::SubjectNotAValidId => "subject is not a valid id"@,
            RejectReason::UserLookupFailed => "user lookup failed"@,
            RejectReason::NoUserForThisToken => "no user for this token"@,
        }
    }

    pub fn text(&self) -> (s: &'static str)
        ensures
            s@ == self.spec_text(),
    {
        match self {
            RejectReason::NoAuthorizationHeader => "no authorization header",
            RejectReason::UnreadableAuthorizationHeader => "unreadable authorization header",
            RejectReason::NotABearerToken => "not a bearer token",
            RejectReason::TokenFailedValidation => "token failed validation",
            RejectReason::NotAnAccessToken => "not an access token",
            RejectReason::ApplicationStateMissing => "application state missing",
            RejectReason::BlacklistLookupFailed => "blacklist lookup failed",
            RejectReason::TokenWasRevoked => "token was revoked",
            RejectReason::SubjectNotAValidId => "subject is not a valid id",
            RejectReason::UserLookupFailed => "user lookup failed",
            RejectReason::NoUserForThisToken => "no user for this token",
        }
    }
}

/// The log line tells every reason apart: two different reasons are
/// never logged with the same text.
pub proof fn law_reasons_are_told_apart(r1: RejectReason, r2: RejectReason)
    ensures
        r1 != r2 ==> r1.spec_text() != r2.spec_text(),
{
    reveal_strlit("no authorization header");
    reveal_strlit("unreadable authorization header");
    reveal_strlit("not a bearer token");
    reveal_strlit("token failed validation");
    reveal_strlit("not an access token");
    reveal_strlit("application state missing");
    reveal_strlit("blacklist lookup failed");
    reveal_strlit("token was revoked");
    reveal_strlit("subject is not a valid id");
    reveal_strlit("user lookup failed");
    reveal_strlit("no user for this token");
    if r1 != r2 && r1.spec_text() == r2.spec_text() {
        let a = r1.spec_text();
        let b = r2.spec_text();
        assert(a.len() == b.len());
        assert(a[0] == b[0] && a[1] == b[1] && a[2] == b[2] && a[3] == b[3] && a[4] == b[4]);
        assert(a[a.len() - 1] == b[b.len() - 1] && a[a.len() - 2] == b[b.len() - 2]);
    }
}

/// What goes onto the log line under the `auth` key when a request is
/// turned away: `{ "outcome": "rejected", "reason": <reason> }`.
pub fn rejection_context(reason: RejectReason) -> (v: JsonValue)
    ensures
        v matches JsonValue::Object(es) && es@.len() == 2 && es@[0].0@ == "outcome"@ && es@[1].0@
            == "reason"@ && (es@[0].1 matches JsonValue::String(o) && o@ == "rejected"@) && (
        es@[1].1 matches JsonValue::String(r) && r@ == reason.spec_text()),
{
    let entries = vec![
        (String::from_str("outcome"), JsonValue::String(String::from_str("rejected"))),
        (String::from_str("reason"), JsonValue::String(String::from_str(reason.text()))),
    ];
    JsonValue::Object(entries)
}

/// The claims of a token that validated.
pub struct TokenClaims {
    pub sub: String,
    pub jti: String,
    pub exp: usize,
    pub ttype: String,
}

/// The `Authorization` header as the middleware read it.
pub enum HeaderText {
    Missing,
    /// Present but not visible ASCII text.
    Unreadable,
    Text(String),
}

/// What the revocation check found.
pub enum RevocationOutcome {
    /// The application state holding the database was not there.
    NoState,
    LookupFailed,
    Checked { revoked: bool },
}

/// What the user lookup found.
pub enum UserLookup {
    Failed,
    NotFound,
    Found { username: String, email: String },
}

/// Where the decision stands.
pub enum AuthStage {
    /// Nothing read yet.
    Start,
    /// A bearer token was handed out for validation.
    AwaitingToken,
    /// The token validated as an access token; its revocation is being
    /// checked.
    AwaitingRevocation { claims: TokenClaims },
    /// The token is live and its subject is a valid id; the user is being
    /// looked up.
    AwaitingUser { claims: TokenClaims },
    /// Admitted or turned away.
    Done,
}

/// What the middleware observed.
pub enum AuthEvent {
    Header(HeaderText),
    /// The token's validation: its claims, or nothing when it failed.
    TokenChecked(Option<TokenClaims>),
    RevocationChecked(RevocationOutcome),
    UserLookedUp(UserLookup),
}

/// What the middleware does next.
pub enum AuthAction {
    /// Validate this token (signature, expiry) and report its claims.
    ValidateToken(String),
    /// Record this user id on the request's log line, then check whether the
    /// token with this id has been revoked.
    CheckRevocation { user_id: String, jti: String },
    /// Look up the user with this id.
    LookupUser(u128),
    /// Attach the caller to the request and pass it on.
    Admit(AuthUser),
    /// Turn the request away with this error, logging the reason.
    Reject { reason: RejectReason, error: AuthError },
}

/// The event is the one the stage waits for.
pub open spec fn event_fits(stage: AuthStage, event: AuthEvent) -> bool {
    match (stage, event) {
        (AuthStage::Start, AuthEvent::Header(_)) => true,
        (AuthStage::AwaitingToken, AuthEvent::TokenChecked(_)) => true,
        (AuthStage::AwaitingRevocation { .. }, AuthEvent::RevocationChecked(_)) => true,
        (AuthStage::AwaitingUser { .. }, AuthEvent::UserLookedUp(_)) => true,
        _ => false,
    }
}

/// `h` is `Bearer <token>`: exactly one space, after the word `Bearer`.
pub open spec fn is_bearer(h: Seq<char>) -> bool {
    h.len() >= 7 && h.take(7) == "Bearer "@ && !h.skip(7).contains(' ')
}

/// The decision ends in a refusal for `reason`. Every refusal carries the
/// same error, so every refused request gets the same status and body; only
/// the logged reason differs.
pub open spec fn rejects(next: AuthStage, action: AuthAction, reason: RejectReason) -> bool {
    next is Done && action == (AuthAction::Reject { reason, error: AuthError::Unauthorised })
}

/// One step of the decision: from the stage and the event, the next stage and
/// what the middleware does.
pub open spec fn is_auth_step(
    stage: AuthStage,
    event: AuthEvent,
    access_token_type: Seq<char>,
    next: AuthStage,
    action: AuthAction,
) -> bool {
    match event {
        AuthEvent::Header(HeaderText::Missing) => rejects(next, action, RejectReason::NoAuthorizationHeader),
        AuthEvent::Header(HeaderText::Unreadable) => rejects(next, action, RejectReason::UnreadableAuthorizationHeader),
        AuthEvent::Header(HeaderText::Text(h)) => if is_bearer(h@) {
            next is AwaitingToken && (action matches AuthAction::ValidateToken(t) && t@ == h@.skip(7))
        } else {
            rejects(next, action, RejectReason::NotABearerToken)
        },
        AuthEvent::TokenChecked(None) => rejects(next, action, RejectReason::TokenFailedValidation),
        AuthEvent::TokenChecked(Some(claims)) => if claims.ttype@ != access_token_type {
            rejects(next, action, RejectReason::NotAnAccessToken)
        } else {
            &&& next == (AuthStage::AwaitingRevocation { claims })
            &&& action matches AuthAction::CheckRevocation { user_id, jti }
            &&& user_id == claims.sub
            &&& jti == claims.jti
        },
        AuthEvent::RevocationChecked(outcome) => match (stage, outcome) {
            (_, RevocationOutcome::NoState) => rejects(next, action, RejectReason::ApplicationStateMissing),
            (_, RevocationOutcome::LookupFailed) => rejects(next, action, RejectReason::BlacklistLookupFailed),
            (AuthStage::AwaitingRevocation { claims }, RevocationOutcome::Checked { revoked }) => {
                if revoked {
                    rejects(next, action, RejectReason::TokenWasRevoked)
                } else {
                    match parsed_uuid(claims.sub@) {
                        None => rejects(next, action, RejectReason::SubjectNotAValidId),
                        Some(id) => next == (AuthStage::AwaitingUser { claims }) && action
                            == AuthAction::LookupUser(id),
                    }
                }
            },
            _ => false,
        },
        AuthEvent::UserLookedUp(lookup) => match (stage, lookup) {
            (_, UserLookup::Failed) => rejects(next, action, RejectReason::UserLookupFailed),
            (_, UserLookup::NotFound) => rejects(next, action, RejectReason::NoUserForThisToken),
            (AuthStage::AwaitingUser { claims }, UserLookup::Found { username, email }) => {
                &&& next is Done
                &&& action == AuthAction::Admit(
                    AuthUser {
                        id: claims.sub,
                        username,
                        email,
                        access_token_jti: claims.jti,
                        access_token_exp: claims.exp,
                    },
                )
            },
            _ => false,
        },
    }
}

/// Admission follows every check. An admitting step stands where the user
/// was being looked up and admits that token's subject; that stage is reached
/// only from a live token whose subject is a valid id; the stage before it
/// only from a token that validated as an access token; and that only from a
/// `Bearer` header. Every refusal ends the decision.
pub proof fn law_admission_follows_every_check(
    stage: AuthStage,
    event: AuthEvent,
    access_token_type: Seq<char>,
    next: AuthStage,
    action: AuthAction,
)
    requires
        event_fits(stage, event),
        is_auth_step(stage, event, access_token_type, next, action),
    ensures
        action matches AuthAction::Admit(u) ==> (stage matches AuthStage::AwaitingUser { claims }
            && u.id == claims.sub && u.access_token_jti == claims.jti && event matches AuthEvent::UserLookedUp(
            UserLookup::Found { .. },
        )),
        next matches AuthStage::AwaitingUser { claims } ==> (stage == (AuthStage::AwaitingRevocation {
            claims,
        }) && event == AuthEvent::RevocationChecked(RevocationOutcome::Checked { revoked: false })
            && parsed_uuid(claims.sub@) is Some),
        next matches AuthStage::AwaitingRevocation { claims } ==> (event == AuthEvent::TokenChecked(
            Some(claims),
        ) && claims.ttype@ == access_token_type),
        next is AwaitingToken ==> (event matches AuthEvent::Header(HeaderText::Text(h)) && is_bearer(
            h@,
        )),
        action is Reject ==> next is Done,
{
}

/// Every check that passes moves the decision on: a token that validates as
/// an access token goes on to the revocation check of its own id (recording
/// its subject), a live token whose subject is a valid id goes on to the
/// lookup of that user, and a user that is found is admitted with the
/// token's subject, id and expiry. Nothing else about the token or the user
/// is looked at.
pub proof fn law_every_passed_check_moves_on(
    stage: AuthStage,
    event: AuthEvent,
    access_token_type: Seq<char>,
    next: AuthStage,
    action: AuthAction,
    claims: TokenClaims,
    id: u128,
    username: String,
    email: String,
)
    requires
        event_fits(stage, event),
        is_auth_step(stage, event, access_token_type, next, action),
    ensures
        event == AuthEvent::TokenChecked(Some(claims)) && claims.ttype@ == access_token_type ==> (
        next == (AuthStage::AwaitingRevocation { claims }) && action == (AuthAction::CheckRevocation {
            user_id: claims.sub,
            jti: claims.jti,
        })),
        stage == (AuthStage::AwaitingRevocation { claims }) && event == AuthEvent::RevocationChecked(
            RevocationOutcome::Checked { revoked: false },
        ) && parsed_uuid(claims.sub@) == Some(id) ==> (next == (AuthStage::AwaitingUser { claims })
            && action == AuthAction::LookupUser(id)),
        stage == (AuthStage::AwaitingUser { claims }) && event == AuthEvent::UserLookedUp(
            UserLookup::Found { username, email },
        ) ==> (next is Done && action == AuthAction::Admit(
            AuthUser {
                id: claims.sub,
                username,
                email,
                access_token_jti: claims.jti,
                access_token_exp: claims.exp,
            },
        )),
{
}

/// A request is refused exactly when a check fails: no header, an
/// unreadable one, one that is not `Bearer <token>`, a token that does not
/// validate or is not an access token, no application state, a failed or
/// positive revocation check, a subject that is not an id, or a failed or
/// empty user lookup.
pub proof fn law_refused_exactly_when_a_check_fails(
    stage: AuthStage,
    event: AuthEvent,
    access_token_type: Seq<char>,
    next: AuthStage,
    action: AuthAction,
)
    requires
        event_fits(stage, event),
        is_auth_step(stage, event, access_token_type, next, action),
    ensures
        action is Reject <==> match event {
            AuthEvent::Header(HeaderText::Text(h)) => !(exists|u: Seq<char>|
                !u.contains(' ') && h@ == "Bearer "@ + u),
            AuthEvent::Header(_) => true,
            AuthEvent::TokenChecked(None) => true,
            AuthEvent::TokenChecked(Some(c)) => c.ttype@ != access_token_type,
            AuthEvent::RevocationChecked(RevocationOutcome::Checked { revoked }) => revoked || (
            stage matches AuthStage::AwaitingRevocation { claims } && parsed_uuid(claims.sub@)
                is None),
            AuthEvent::RevocationChecked(_) => true,
            AuthEvent::UserLookedUp(UserLookup::Found { .. }) => false,
            AuthEvent::UserLookedUp(_) => true,
        },
{
    if let AuthEvent::Header(HeaderText::Text(h)) = event {
        law_bearer_header_is_bearer_word_then_token(h@, h@.skip(7));
    }
}

/// Every refused request looks the same to the caller: any two refusals,
/// whatever their reasons, carry the same error and so the same status and
/// body.
pub proof fn law_every_refusal_looks_the_same(
    stage1: AuthStage,
    event1: AuthEvent,
    next1: AuthStage,
    action1: AuthAction,
    stage2: AuthStage,
    event2: AuthEvent,
    next2: AuthStage,
    action2: AuthAction,
    access_token_type: Seq<char>,
)
    requires
        event_fits(stage1, event1),
        event_fits(stage2, event2),
        is_auth_step(stage1, event1, access_token_type, next1, action1),
        is_auth_step(stage2, event2, access_token_type, next2, action2),
        action1 is Reject,
        action2 is Reject,
    ensures
        action1->error == action2->error,
        action1->error == AuthError::Unauthorised,
        action1->error.message() == "Unauthorised to access this resource"@,
{
}

/// A header reads as a bearer token exactly when it is the word `Bearer`, one
/// space, and then text with no space in it, whatever that text's length
/// (empty included); the token handed out for validation is that text.
pub proof fn law_bearer_header_is_bearer_word_then_token(h: Seq<char>, t: Seq<char>)
    ensures
        !t.contains(' ') ==> is_bearer("Bearer "@ + t),
        is_bearer(h) <==> exists|u: Seq<char>| !u.contains(' ') && h == "Bearer "@ + u,
        is_bearer(h) ==> "Bearer "@ + h.skip(7) == h,
{
    reveal_strlit("Bearer ");
    assert("Bearer "@.len() == 7);
    let ht = "Bearer "@ + t;
    assert(ht.take(7) =~= "Bearer "@);
    assert(ht.skip(7) =~= t);
    if is_bearer(h) {
        assert("Bearer "@ + h.skip(7) =~= h);
        assert(!h.skip(7).contains(' ') && h == "Bearer "@ + h.skip(7));
    }
    if exists|u: Seq<char>| !u.contains(' ') && h == "Bearer "@ + u {
        let u = choose|u: Seq<char>| !u.contains(' ') && h == "Bearer "@ + u;
        assert(h.take(7) =~= "Bearer "@);
        assert(h.skip(7) =~= u);
    }
}

/// A `Bearer <token>` header, with no space in the token, moves the decision on
/// to validating exactly that token, whatever its length; any other text is
/// refused as not a bearer token.
pub proof fn law_bearer_header_goes_to_validation(
    h: String,
    t: Seq<char>,
    access_token_type: Seq<char>,
    next: AuthStage,
    action: AuthAction,
)
    requires
        is_auth_step(AuthStage::Start, AuthEvent::Header(HeaderText::Text(h)), access_token_type, next, action),
    ensures
        h@ == "Bearer "@ + t && !t.contains(' ') ==> (next is AwaitingToken && (action matches AuthAction::ValidateToken(tok) && tok@ == t)),
        !(exists|u: Seq<char>| !u.contains(' ') && h@ == "Bearer "@ + u) ==> rejects(next, action, RejectReason::NotABearerToken),
{
    law_bearer_header_is_bearer_word_then_token(h@, t);
    reveal_strlit("Bearer ");
    if h@ == "Bearer "@ + t {
        assert(h@.skip(7) =~= t);
    }
}

/// Whether the header is `Bearer <token>`, and the token if so.
pub fn bearer_token(h: &str) -> (r: Option<String>)
    ensures
        is_bearer(h@) ==> (r matches Some(t) && t@ == h@.skip(7)),
        !is_bearer(h@) ==> r is None,
{
    let n = h.unicode_len();
    if n < 7 {
        return None;
    }
    let word = h.substring_char(0, 7);
    let rest = h.substring_char(7, n);
    proof {
        assert(rest@ =~= h@.skip(7));
    }
    if !text_eq(word, "Bearer ") || contains_char(rest, ' ') {
        return None;
    }
    Some(String::from_str(rest))
}

/// One step of the authentication decision.
pub fn auth_step(stage: AuthStage, event: AuthEvent, access_token_type: &str) -> (r: (
    AuthStage,
    AuthAction,
))
    requires
        event_fits(stage, event),
    ensures
        is_auth_step(stage, event, access_token_type@, r.0, r.1),
{
    match event {
        AuthEvent::Header(HeaderText::Missing) => (
            AuthStage::Done,
            AuthAction::Reject {
                reason: RejectReason::NoAuthorizationHeader,
                error: AuthError::Unauthorised,
            },
        ),
        AuthEvent::Header(HeaderText::Unreadable) => (
            AuthStage::Done,
            AuthAction::Reject {
                reason: RejectReason::UnreadableAuthorizationHeader,
                error: AuthError::Unauthorised,
            },
        ),
        AuthEvent::Header(HeaderText::Text(h)) => match bearer_token(h.as_str()) {
            Some(token) => (AuthStage::AwaitingToken, AuthAction::ValidateToken(token)),
            None => (
                AuthStage::Done,
                AuthAction::Reject {
                    reason: RejectReason::NotABearerToken,
                    error: AuthError::Unauthorised,
                },
            ),
        },
        AuthEvent::TokenChecked(None) => (
            AuthStage::Done,
            AuthAction::Reject {
                reason: RejectReason::TokenFailedValidation,
                error: AuthError::Unauthorised,
            },
        ),
        AuthEvent::TokenChecked(Some(claims)) => {
            if !text_eq(claims.ttype.as_str(), access_token_type) {
                (
                    AuthStage::Done,
                    AuthAction::Reject {
                        reason: RejectReason::NotAnAccessToken,
                        error: AuthError::Unauthorised,
                    },
                )
            } else {
                let action = AuthAction::CheckRevocation {
                    user_id: claims.sub.clone(),
                    jti: claims.jti.clone(),
                };
                (AuthStage::AwaitingRevocation { claims }, action)
            }
        },
        AuthEvent::RevocationChecked(outcome) => match outcome {
            RevocationOutcome::NoState => (
                AuthStage::Done,
                AuthAction::Reject {
                    reason: RejectReason::ApplicationStateMissing,
                    error: AuthError::Unauthorised,
                },
            ),
            RevocationOutcome::LookupFailed => (
                AuthStage::Done,
                AuthAction::Reject {
                    reason: RejectReason::BlacklistLookupFailed,
                    error: AuthError::Unauthorised,
                },
            ),
            RevocationOutcome::Checked { revoked } => {
                match stage {
                    AuthStage::AwaitingRevocation { claims } => {
                        if revoked {
                            (
                                AuthStage::Done,
                                AuthAction::Reject {
                                    reason: RejectReason::TokenWasRevoked,
                                    error: AuthError::Unauthorised,
                                },
                            )
                        } else {
                            match parse_uuid(claims.sub.as_str()) {
                                None => (
                                    AuthStage::Done,
                                    AuthAction::Reject {
                                        reason: RejectReason::SubjectNotAValidId,
                                        error: AuthError::Unauthorised,
                                    },
                                ),
                                Some(id) => (
                                    AuthStage::AwaitingUser { claims },
                                    AuthAction::LookupUser(id),
                                ),
                            }
                        }
                    },
                    _ => {
                        // `event_fits` rules this out: a revocation outcome
                        // only answers a revocation check.
                        proof {
                            assert(false);
                        }
                        (
                            AuthStage::Done,
                            AuthAction::Reject {
                                reason: RejectReason::ApplicationStateMissing,
                                error: AuthError::Unauthorised,
                            },
                        )
                    },
                }
            },
        },
        AuthEvent::UserLookedUp(lookup) => match lookup {
            UserLookup::Failed => (
                AuthStage::Done,
                AuthAction::Reject {
                    reason: RejectReason::UserLookupFailed,
                    error: AuthError::Unauthorised,
                },
            ),
            UserLookup::NotFound => (
                AuthStage::Done,
                AuthAction::Reject {
                    reason: RejectReason::NoUserForThisToken,
                    error: AuthError::Unauthorised,
                },
            ),
            UserLookup::Found { username, email } => {
                match stage {
                    AuthStage::AwaitingUser { claims } => {
                        let user = AuthUser {
                            id: claims.sub,
                            username,
                            email,
                            access_token_jti: claims.jti,
                            access_token_exp: claims.exp,
                        };
                        (AuthStage::Done, AuthAction::Admit(user))
                    },
                    _ => {
                        // `event_fits` rules this out: a user only answers a
                        // user lookup.
                        proof {
                            assert(false);
                        }
                        (
                            AuthStage::Done,
                            AuthAction::Reject {
                                reason: RejectReason::NoUserForThisToken,
                                error: AuthError::Unauthorised,
                            },
                        )
                    },
                }
            },
        },
    }
}

} // verus!
