use farm_core::ident::{
    AuthOutcome, Denial, JwtRefreshFairing, TokenService, authenticate, authorize_owner,
    identity_is_email, login_token, TOKEN_TTL_SECONDS,
};
use farm_core::users::{FarmOwnerStatus, User};

fn service() -> TokenService {
    TokenService::new(b"testsecret".to_vec()).expect("secret must not be empty")
}

fn stored_user(username: &str, farmowner: FarmOwnerStatus) -> User {
    User {
        id: 1,
        firstname: "Test".to_string(),
        lastname: "User".to_string(),
        username: username.to_string(),
        email: "test@test.com".to_string(),
        password: "digest".to_string(),
        sysadmin: 0,
        farmowner,
        ext_id: vec![0u8; 16],
    }
}

#[test]
fn jwt_creation() {
    let token = service().issue("testuser").expect("failed to create JWT");
    assert!(!token.is_empty());
}

#[test]
fn ident_jwt_creation() {
    let token = service().issue("testuser").expect("failed to create JWT");
    assert!(!token.is_empty());
}

#[test]
fn empty_secret_is_refused() {
    assert!(TokenService::new(Vec::new()).is_none());
    assert!(TokenService::new(b"x".to_vec()).is_some());
}

#[test]
fn issue_then_verify_normalizes_subject() {
    let ts = service();
    let now = 1_000_000u64;
    let token = ts.issue_at(" Testuser ", now);
    assert_eq!(ts.verify_at(&token, now), Some("testuser".to_string()));
    assert_eq!(ts.verify_at(&token, now + TOKEN_TTL_SECONDS - 1), Some("testuser".to_string()));
}

#[test]
fn verify_rejects_from_expiry_on() {
    let ts = service();
    let now = 1_000_000u64;
    let token = ts.issue_at("testuser", now);
    // The boundary itself is already invalid.
    assert_eq!(ts.verify_at(&token, now + TOKEN_TTL_SECONDS), None);
    assert_eq!(ts.verify_at(&token, now + TOKEN_TTL_SECONDS + 12345), None);
}

#[test]
fn verify_rejects_other_secret() {
    let ts = service();
    let other = TokenService::new(b"othersecret".to_vec()).unwrap();
    let now = 1_000_000u64;
    let token = ts.issue_at("testuser", now);
    assert_eq!(other.verify_at(&token, now), None);
    assert_eq!(ts.verify_at(&token, now), Some("testuser".to_string()));
}

#[test]
fn verify_rejects_garbage() {
    let ts = service();
    assert_eq!(ts.verify_at("", 0), None);
    assert_eq!(ts.verify_at("not.a.token", 0), None);
    assert_eq!(ts.verify_at("a.b", 0), None);
}

#[test]
fn verify_is_idempotent() {
    let ts = service();
    let now = 1_000_000u64;
    let token = ts.issue_at("testuser", now);
    let first = ts.verify_at(&token, now + 1);
    let second = ts.verify_at(&token, now + 2);
    assert_eq!(first, second);
    assert_eq!(first, Some("testuser".to_string()));
}

#[test]
fn guard_chain_resolves_trust_levels() {
    let ts = service();
    let now = 5_000u64;
    let token = ts.issue_at("owner", now);
    let header = Some(token);

    // Stage one: valid token, record found.
    let subject = ts.token_subject(header.as_ref(), now);
    assert_eq!(subject, Some("owner".to_string()));
    let outcome = authenticate(&subject, Some(stored_user("owner", FarmOwnerStatus::YES)));
    assert!(matches!(outcome, AuthOutcome::Authenticated(_)));

    // Stage two: the owner predicate holds.
    let outcome = authorize_owner(outcome);
    match outcome {
        AuthOutcome::Privileged(u) => assert_eq!(u.username, "owner"),
        _ => panic!("expected a privileged outcome"),
    }

    // A non-owner is forbidden, not unauthorized.
    let outcome = authenticate(&subject, Some(stored_user("owner", FarmOwnerStatus::NO)));
    let outcome = authorize_owner(outcome);
    assert!(matches!(outcome, AuthOutcome::Forward(Denial::Forbidden)));
}

#[test]
fn guard_chain_forwards_on_failures() {
    let ts = service();
    let now = 5_000u64;

    // No header at all.
    let subject = ts.token_subject(None, now);
    assert_eq!(subject, None);
    let outcome = authenticate(&subject, None);
    assert!(matches!(outcome, AuthOutcome::Forward(Denial::Unauthorized)));

    // A header that verifies to a subject the store does not know.
    let token = ts.issue_at("ghost", now);
    let subject = ts.token_subject(Some(&token), now);
    assert_eq!(subject, Some("ghost".to_string()));
    let outcome = authenticate(&subject, None);
    assert!(matches!(outcome, AuthOutcome::Forward(Denial::Unauthorized)));

    // An expired token never reaches the lookup.
    let subject = ts.token_subject(Some(&token), now + TOKEN_TTL_SECONDS);
    assert_eq!(subject, None);
}

#[test]
fn refresh_attaches_only_for_valid_input() {
    let ts = service();
    let now = 5_000u64;
    let fairing = JwtRefreshFairing::new(TokenService::new(b"testsecret".to_vec()).unwrap());

    // No valid input token: nothing is attached.
    let outcome = authenticate(&None, None);
    assert_eq!(fairing.response_token(&outcome, now), None);
    assert_eq!(fairing.response_token(&AuthOutcome::Forward(Denial::Forbidden), now), None);

    // A resolved request gets a fresh token for the same subject.
    let token = ts.issue_at("testuser", now);
    let subject = ts.token_subject(Some(&token), now);
    let outcome = authenticate(&subject, Some(stored_user("testuser", FarmOwnerStatus::NO)));
    let later = now + 100;
    let fresh = fairing.response_token(&outcome, later).expect("refresh owed for a valid token");
    assert_eq!(ts.verify_at(&fresh, later), Some("testuser".to_string()));
    // The fresh token outlives the original one.
    assert_eq!(ts.verify_at(&token, now + TOKEN_TTL_SECONDS), None);
    assert_eq!(ts.verify_at(&fresh, now + TOKEN_TTL_SECONDS), Some("testuser".to_string()));
}

#[test]
fn login_decision() {
    let ts = service();
    let now = 9_000u64;
    let name = "Testuser".to_string();
    assert_eq!(login_token(&ts, None, true, now), None);
    assert_eq!(login_token(&ts, Some(&name), false, now), None);
    let token = login_token(&ts, Some(&name), true, now).expect("login owed a token");
    assert_eq!(ts.verify_at(&token, now), Some("testuser".to_string()));
}

#[test]
fn end_to_end_token_lifecycle() {
    let ts = service();
    let now = 42_000u64;
    let token = ts.issue_at("Testuser", now);
    assert!(!token.is_empty());
    assert_eq!(ts.verify_at(&token, now), Some("testuser".to_string()));
    assert_eq!(ts.verify_at(&token, now + TOKEN_TTL_SECONDS + 1), None);
}

#[test]
fn clock_overflow_yields_no_token() {
    let ts = service();
    let fairing = JwtRefreshFairing::new(TokenService::new(b"testsecret".to_vec()).unwrap());
    let name = "testuser".to_string();
    assert_eq!(login_token(&ts, Some(&name), true, u64::MAX), None);
    let outcome = AuthOutcome::Authenticated(stored_user("testuser", FarmOwnerStatus::NO));
    assert_eq!(fairing.response_token(&outcome, u64::MAX), None);
}

#[test]
fn identity_kind_decides_lookup() {
    assert!(identity_is_email("test@test.com"));
    assert!(!identity_is_email("testuser"));
}
