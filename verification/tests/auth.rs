use cursus::json::JsonValue;
use cursus::middlewares::user::{
    auth_step, bearer_token, rejection_context, AuthAction, AuthError, AuthEvent, AuthStage,
    AuthUser, HeaderText, RejectReason, RevocationOutcome, TokenClaims, UserLookup,
};

const SUB: &str = "936da01f-9abd-4d9d-80c7-02af85c822a8";

fn claims(sub: &str, ttype: &str) -> TokenClaims {
    TokenClaims { sub: sub.to_string(), jti: "jti-1".to_string(), exp: 1_700_000_000, ttype: ttype.to_string() }
}

fn rejected(action: AuthAction) -> (RejectReason, AuthError) {
    match action {
        AuthAction::Reject { reason, error } => (reason, error),
        _ => panic!("expected a rejection"),
    }
}

fn header(text: &str) -> AuthEvent {
    AuthEvent::Header(HeaderText::Text(text.to_string()))
}

#[test]
fn a_bearer_header_is_one_word_one_space_one_token() {
    assert_eq!(bearer_token("Bearer abc.def"), Some("abc.def".to_string()));
    assert_eq!(bearer_token("Bearer "), Some(String::new()));
    assert_eq!(bearer_token("Bearer a b"), None);
    assert_eq!(bearer_token("bearer abc"), None);
    assert_eq!(bearer_token("Bearerabc"), None);
    assert_eq!(bearer_token("Basic abc"), None);
    assert_eq!(bearer_token(""), None);
}

#[test]
fn header_problems_are_turned_away() {
    let (s, a) = auth_step(AuthStage::Start, AuthEvent::Header(HeaderText::Missing), "access");
    assert!(matches!(s, AuthStage::Done));
    assert_eq!(rejected(a), (RejectReason::NoAuthorizationHeader, AuthError::Unauthorised));
    let (_, a) = auth_step(AuthStage::Start, AuthEvent::Header(HeaderText::Unreadable), "access");
    assert_eq!(rejected(a), (RejectReason::UnreadableAuthorizationHeader, AuthError::Unauthorised));
    let (_, a) = auth_step(AuthStage::Start, header("Token xyz"), "access");
    assert_eq!(rejected(a), (RejectReason::NotABearerToken, AuthError::Unauthorised));
}

#[test]
fn a_full_admission() {
    let (s, a) = auth_step(AuthStage::Start, header("Bearer tok"), "access");
    assert!(matches!(s, AuthStage::AwaitingToken));
    assert!(matches!(&a, AuthAction::ValidateToken(t) if t == "tok"));

    let (s, a) = auth_step(s, AuthEvent::TokenChecked(Some(claims(SUB, "access"))), "access");
    assert!(matches!(s, AuthStage::AwaitingRevocation { .. }));
    match a {
        AuthAction::CheckRevocation { user_id, jti } => {
            assert_eq!(user_id, SUB);
            assert_eq!(jti, "jti-1");
        }
        _ => panic!("expected a revocation check"),
    }

    let (s, a) = auth_step(
        s,
        AuthEvent::RevocationChecked(RevocationOutcome::Checked { revoked: false }),
        "access",
    );
    assert!(matches!(s, AuthStage::AwaitingUser { .. }));
    assert!(matches!(a, AuthAction::LookupUser(0x936da01f9abd4d9d80c702af85c822a8)));

    let (s, a) = auth_step(
        s,
        AuthEvent::UserLookedUp(UserLookup::Found {
            username: "ada".to_string(),
            email: "ada@example.com".to_string(),
        }),
        "access",
    );
    assert!(matches!(s, AuthStage::Done));
    match a {
        AuthAction::Admit(user) => assert_eq!(
            user,
            AuthUser {
                id: SUB.to_string(),
                username: "ada".to_string(),
                email: "ada@example.com".to_string(),
                access_token_jti: "jti-1".to_string(),
                access_token_exp: 1_700_000_000,
            }
        ),
        _ => panic!("expected admission"),
    }
}

fn at_revocation(sub: &str) -> AuthStage {
    AuthStage::AwaitingRevocation { claims: claims(sub, "access") }
}

#[test]
fn token_problems_are_turned_away() {
    let (_, a) = auth_step(AuthStage::AwaitingToken, AuthEvent::TokenChecked(None), "access");
    assert_eq!(rejected(a), (RejectReason::TokenFailedValidation, AuthError::Unauthorised));
    let (_, a) = auth_step(
        AuthStage::AwaitingToken,
        AuthEvent::TokenChecked(Some(claims(SUB, "refresh"))),
        "access",
    );
    assert_eq!(rejected(a), (RejectReason::NotAnAccessToken, AuthError::Unauthorised));
    let (_, a) = auth_step(at_revocation(SUB), AuthEvent::RevocationChecked(RevocationOutcome::NoState), "access");
    assert_eq!(rejected(a), (RejectReason::ApplicationStateMissing, AuthError::Unauthorised));
    let (_, a) = auth_step(
        at_revocation(SUB),
        AuthEvent::RevocationChecked(RevocationOutcome::LookupFailed),
        "access",
    );
    assert_eq!(rejected(a), (RejectReason::BlacklistLookupFailed, AuthError::Unauthorised));
    let (_, a) = auth_step(
        at_revocation(SUB),
        AuthEvent::RevocationChecked(RevocationOutcome::Checked { revoked: true }),
        "access",
    );
    assert_eq!(rejected(a), (RejectReason::TokenWasRevoked, AuthError::Unauthorised));
    let (_, a) = auth_step(
        at_revocation("not-a-uuid"),
        AuthEvent::RevocationChecked(RevocationOutcome::Checked { revoked: false }),
        "access",
    );
    assert_eq!(rejected(a), (RejectReason::SubjectNotAValidId, AuthError::Unauthorised));
}

#[test]
fn user_lookup_problems_are_turned_away() {
    let at_user = || AuthStage::AwaitingUser { claims: claims(SUB, "access") };
    let (_, a) = auth_step(at_user(), AuthEvent::UserLookedUp(UserLookup::Failed), "access");
    assert_eq!(rejected(a), (RejectReason::UserLookupFailed, AuthError::Unauthorised));
    let (_, a) = auth_step(at_user(), AuthEvent::UserLookedUp(UserLookup::NotFound), "access");
    assert_eq!(rejected(a), (RejectReason::NoUserForThisToken, AuthError::Unauthorised));
}

#[test]
fn every_subject_format_of_the_uuid_crate_is_read() {
    for sub in [
        "936DA01F9ABD4D9D80C702AF85C822A8",
        "{936da01f-9abd-4d9d-80c7-02af85c822a8}",
        "URN:uuid:936da01f-9abd-4d9d-80c7-02af85c822a8",
    ] {
        let (_, a) = auth_step(
            at_revocation(sub),
            AuthEvent::RevocationChecked(RevocationOutcome::Checked { revoked: false }),
            "access",
        );
        assert!(matches!(a, AuthAction::LookupUser(0x936da01f9abd4d9d80c702af85c822a8)));
    }
    for sub in ["936da01f-9abd-4d9d-80c7-02af85c822a", "936da01f+9abd-4d9d-80c7-02af85c822a8", "urn:uuid:936da01f9abd4d9d80c702af85c822a8xxxx"] {
        let (_, a) = auth_step(
            at_revocation(sub),
            AuthEvent::RevocationChecked(RevocationOutcome::Checked { revoked: false }),
            "access",
        );
        assert_eq!(rejected(a), (RejectReason::SubjectNotAValidId, AuthError::Unauthorised));
    }
}

#[test]
fn every_refusal_is_a_401_and_the_reason_is_logged() {
    for e in [AuthError::Unauthorised, AuthError::InvalidToken] {
        assert_eq!(e.status_code(), 401);
        assert_eq!(e.error_response().status, 401);
    }
    assert_eq!(AuthError::Unauthorised.to_string(), "Unauthorised to access this resource");
    assert_eq!(AuthError::InvalidToken.error_response().body.error, "Invalid auth");
    assert_eq!(RejectReason::TokenWasRevoked.text(), "token was revoked");
    assert_eq!(
        rejection_context(RejectReason::NoAuthorizationHeader),
        JsonValue::Object(vec![
            ("outcome".to_string(), JsonValue::String("rejected".to_string())),
            ("reason".to_string(), JsonValue::String("no authorization header".to_string())),
        ])
    );
}

#[test]
fn every_refusal_gets_the_same_response() {
    let missing = auth_step(AuthStage::Start, AuthEvent::Header(HeaderText::Missing), "access").1;
    let unreadable = auth_step(AuthStage::Start, AuthEvent::Header(HeaderText::Unreadable), "access").1;
    let revoked = auth_step(
        at_revocation(SUB),
        AuthEvent::RevocationChecked(RevocationOutcome::Checked { revoked: true }),
        "access",
    )
    .1;
    let replies: Vec<_> = [missing, unreadable, revoked]
        .into_iter()
        .map(|a| rejected(a).1.error_response())
        .collect();
    assert_eq!(replies[0], replies[1]);
    assert_eq!(replies[1], replies[2]);
    assert_eq!(replies[0].status, 401);
    assert_eq!(replies[0].body.error, "Unauthorised to access this resource");
}
