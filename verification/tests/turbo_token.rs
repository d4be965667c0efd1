use decay::auth::turbo_token::{check_turbo_token, parse_bearer_token, tokens_match, AuthOutcome};

#[test]
fn parses_a_bearer_token() {
    assert_eq!(parse_bearer_token("Bearer secret"), Some("secret"));
}

#[test]
fn parses_a_bearer_scheme_in_any_case() {
    assert_eq!(parse_bearer_token("bearer secret"), Some("secret"));
    assert_eq!(parse_bearer_token("BEARER secret"), Some("secret"));
    assert_eq!(parse_bearer_token("BeArEr secret"), Some("secret"));
}

#[test]
fn parses_a_token_padded_with_extra_spaces() {
    assert_eq!(parse_bearer_token("Bearer   secret"), Some("secret"));
}

#[test]
fn rejects_another_auth_scheme() {
    assert_eq!(parse_bearer_token("Basic secret"), None);
}

#[test]
fn rejects_a_header_without_a_scheme() {
    assert_eq!(parse_bearer_token("secret"), None);
}

#[test]
fn rejects_an_empty_token() {
    assert_eq!(parse_bearer_token("Bearer "), None);
    assert_eq!(parse_bearer_token("Bearer    "), None);
}

#[test]
fn rejects_an_empty_header() {
    assert_eq!(parse_bearer_token(""), None);
}

#[test]
fn keeps_the_token_exact() {
    // Tokens are compared byte for byte, so no case folding on the token itself.
    assert_eq!(parse_bearer_token("Bearer SeCrEt"), Some("SeCrEt"));
}

#[test]
fn matches_an_identical_token() {
    assert!(tokens_match("secret", "secret"));
}

#[test]
fn rejects_a_token_that_differs() {
    assert!(!tokens_match("secret", "other!"));
}

#[test]
fn rejects_a_token_that_only_shares_a_prefix() {
    assert!(!tokens_match("secret", "secret-and-more"));
    assert!(!tokens_match("secret-and-more", "secret"));
}

#[test]
fn rejects_a_token_that_differs_in_case() {
    assert!(!tokens_match("secret", "SECRET"));
}

#[test]
fn rejects_an_empty_token_against_a_real_one() {
    assert!(!tokens_match("", "secret"));
}

#[test]
fn matches_a_token_with_multibyte_characters() {
    assert!(tokens_match("sécret-🔑", "sécret-🔑"));
    assert!(!tokens_match("sécret-🔑", "sécret-🔒"));
}

#[test]
fn trims_unicode_whitespace_before_the_token() {
    assert_eq!(parse_bearer_token("Bearer \t\u{3000}secret"), Some("secret"));
}

#[test]
fn keeps_spaces_inside_the_token() {
    assert_eq!(parse_bearer_token("Bearer a b"), Some("a b"));
}

#[test]
fn rejects_a_scheme_that_only_looks_like_bearer() {
    assert_eq!(parse_bearer_token("Bearerx secret"), None);
    assert_eq!(parse_bearer_token(" Bearer secret"), None);
}

#[test]
fn lets_every_request_through_without_a_configured_token() {
    assert_eq!(check_turbo_token(None, None), AuthOutcome::NoTokenConfigured);
    assert_eq!(
        check_turbo_token(None, Some("Basic whatever")),
        AuthOutcome::NoTokenConfigured
    );
    assert!(AuthOutcome::NoTokenConfigured.lets_through());
}

#[test]
fn unauthorized_without_an_authorization_header() {
    let outcome = check_turbo_token(Some("turbo-token"), None);
    assert_eq!(outcome, AuthOutcome::MissingHeader);
    assert!(!outcome.lets_through());
    assert_eq!(
        outcome.rejection(),
        Some("Missing or malformed Authorization header")
    );
    assert_eq!(outcome.rejection_status(), Some(401));
}

#[test]
fn unauthorized_with_a_malformed_authorization_header() {
    assert_eq!(
        check_turbo_token(Some("turbo-token"), Some("turbo-token")),
        AuthOutcome::MissingHeader
    );
}

#[test]
fn unauthorized_with_another_token() {
    let outcome = check_turbo_token(Some("turbo-token"), Some("Bearer invalid-token"));
    assert_eq!(outcome, AuthOutcome::InvalidToken);
    assert!(!outcome.lets_through());
    assert_eq!(outcome.rejection(), Some("Invalid TURBO_TOKEN"));
    assert_eq!(outcome.rejection_status(), Some(401));
}

#[test]
fn authorized_with_the_configured_token() {
    let outcome = check_turbo_token(Some("valid_token"), Some("Bearer valid_token"));
    assert_eq!(outcome, AuthOutcome::Valid);
    assert!(outcome.lets_through());
    assert_eq!(outcome.rejection(), None);
    assert_eq!(outcome.rejection_status(), None);
    assert_eq!(AuthOutcome::NoTokenConfigured.rejection_status(), None);
}
