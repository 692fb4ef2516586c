use avatar_service::auth::{AuthDecision, AuthError, AuthMiddleware};
use avatar_service::store::{AvatarStore, RetrieveError};

fn gate() -> AuthMiddleware {
    AuthMiddleware::new(String::from("secret-token"))
}

#[test]
fn avatar_path_bypasses_auth() {
    let g = gate();
    assert_eq!(g.check_request("/avatars/alice", None), AuthDecision::Allow);
    assert_eq!(g.check_request("/avatars/", None), AuthDecision::Allow);
    assert_eq!(
        g.check_request("/avatars/bob", Some("Bearer wrong")),
        AuthDecision::Allow
    );
}

#[test]
fn stats_path_bypasses_auth() {
    let g = gate();
    assert_eq!(g.check_request("/stats", None), AuthDecision::Allow);
    assert_eq!(
        g.check_request("/stats", Some("garbage")),
        AuthDecision::Allow
    );
}

#[test]
fn missing_header_is_rejected() {
    let g = gate();
    assert_eq!(
        g.check_request("/upload/alice", None),
        AuthDecision::Reject(AuthError::MissingCredential)
    );
    assert_eq!(
        g.check_request("/anything", None),
        AuthDecision::Reject(AuthError::MissingCredential)
    );
}

#[test]
fn non_bearer_scheme_is_rejected() {
    let g = gate();
    assert_eq!(
        g.check_request("/upload/alice", Some("Basic abc")),
        AuthDecision::Reject(AuthError::MalformedCredential)
    );
    assert_eq!(
        g.check_request("/upload/alice", Some("secret-token")),
        AuthDecision::Reject(AuthError::MalformedCredential)
    );
}

#[test]
fn wrong_token_is_rejected() {
    let g = gate();
    assert_eq!(
        g.check_request("/upload/alice", Some("Bearer nope")),
        AuthDecision::Reject(AuthError::InvalidCredential)
    );
    assert_eq!(
        g.check_request("/upload/alice", Some("Bearer secret-token ")),
        AuthDecision::Reject(AuthError::InvalidCredential)
    );
}

#[test]
fn correct_token_is_allowed() {
    let g = gate();
    assert_eq!(
        g.check_request("/upload/alice", Some("Bearer secret-token")),
        AuthDecision::Allow
    );
}

#[test]
fn rejected_upload_leaves_no_state_behind() {
    // An unauthorized upload request never reaches the handler, so the
    // store stays exactly as it was: no blob, no pointer.
    let g = gate();
    let store = AvatarStore::new();
    let decision = g.check_request("/upload/alice", Some("Bearer wrong"));
    assert_eq!(decision, AuthDecision::Reject(AuthError::InvalidCredential));
    assert_eq!(store.retrieve("alice"), Err(RetrieveError::AvatarNotFound));
    assert_eq!(store.image_count(), 0);
}
