use yawsf::auth::{authorize, AuthOutcome};

const TOKEN: &str = "s3cr3tT0ken";

#[test]
fn bearer_token_is_accepted() {
    assert_eq!(authorize(Some(TOKEN), Some("Bearer s3cr3tT0ken")), AuthOutcome::Authorized);
}

#[test]
fn scheme_is_case_insensitive() {
    assert_eq!(authorize(Some(TOKEN), Some("bearer s3cr3tT0ken")), AuthOutcome::Authorized);
    assert_eq!(authorize(Some(TOKEN), Some("BEARER s3cr3tT0ken")), AuthOutcome::Authorized);
    assert_eq!(authorize(Some(TOKEN), Some("bEaReR s3cr3tT0ken")), AuthOutcome::Authorized);
}

#[test]
fn token_is_case_sensitive_and_exact() {
    assert_eq!(authorize(Some(TOKEN), Some("Bearer S3CR3TT0KEN")), AuthOutcome::Unauthorized);
    assert_eq!(authorize(Some(TOKEN), Some("Bearer s3cr3tT0ke")), AuthOutcome::Unauthorized);
    assert_eq!(authorize(Some(TOKEN), Some("Bearer s3cr3tT0ken ")), AuthOutcome::Unauthorized);
    assert_eq!(authorize(Some(TOKEN), Some("Bearer  s3cr3tT0ken")), AuthOutcome::Unauthorized);
}

#[test]
fn other_schemes_and_malformed_headers_are_refused() {
    assert_eq!(authorize(Some(TOKEN), Some("Basic s3cr3tT0ken")), AuthOutcome::Unauthorized);
    assert_eq!(authorize(Some(TOKEN), Some("Bearers3cr3tT0ken")), AuthOutcome::Unauthorized);
    assert_eq!(authorize(Some(TOKEN), Some("Bearer")), AuthOutcome::Unauthorized);
    assert_eq!(authorize(Some(TOKEN), Some("")), AuthOutcome::Unauthorized);
    assert_eq!(authorize(Some(TOKEN), Some("Béarer s3cr3tT0ken")), AuthOutcome::Unauthorized);
}

#[test]
fn missing_header_is_unauthorized() {
    assert_eq!(authorize(Some(TOKEN), None), AuthOutcome::Unauthorized);
    assert_eq!(AuthOutcome::Unauthorized.status_code(), 401);
}

#[test]
fn missing_server_state_is_an_internal_error() {
    assert_eq!(authorize(None, Some("Bearer s3cr3tT0ken")), AuthOutcome::Unavailable);
    assert_eq!(AuthOutcome::Unavailable.status_code(), 500);
    assert_eq!(AuthOutcome::Authorized.status_code(), 200);
}

#[test]
fn empty_token_needs_empty_credentials() {
    assert_eq!(authorize(Some(""), Some("Bearer ")), AuthOutcome::Authorized);
    assert_eq!(authorize(Some(""), Some("Bearer x")), AuthOutcome::Unauthorized);
}
