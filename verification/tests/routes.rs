use decay::domain::artifact::{ArtifactMetadata, ARTIFACT_DURATION_HEADER, ARTIFACT_TAG_HEADER};
use decay::domain::key_values::KeyValues;
use decay::http_span::DecayRootSpanBuilder;
use decay::routes::{
    artifact_id_from_request, extract_team_from_query, greeting, metadata_from_headers,
    metadata_headers, team_from_query_pairs, HEALTH_CHECK_PATH,
};

const TAG: &str = "v=1:sha256:abc123";

#[test]
fn reads_both_artifact_headers_from_the_request() {
    assert_eq!(
        metadata_from_headers(Some(TAG), Some("1234")),
        ArtifactMetadata {
            tag: Some(TAG.to_owned()),
            duration: Some(1234),
        }
    );
}

#[test]
fn reads_no_artifact_headers_from_a_bare_request() {
    assert_eq!(metadata_from_headers(None, None), ArtifactMetadata::default());
}

/// Turborepo fails the whole cache read on a duration it cannot parse, so a
/// bad value never reaches the bucket.
#[test]
fn drops_a_malformed_duration_from_the_request() {
    assert_eq!(metadata_from_headers(None, Some("not-a-number")).duration, None);
}

/// The bucket holds the parsed number, not the bytes the client sent.
#[test]
fn writes_the_parsed_duration_to_storage() {
    let metadata = metadata_from_headers(None, Some("007")).into_key_values();

    assert_eq!(
        metadata.get(ARTIFACT_DURATION_HEADER).map(String::as_str),
        Some("7")
    );
}

#[test]
fn extracts_the_artifact_id_from_path_and_query() {
    let id = artifact_id_from_request(Some("abc123"), "slug=my-team", false).unwrap();

    assert_eq!(id.team, "my-team");
    assert_eq!(id.hash, "abc123");
}

#[test]
fn falls_back_to_no_team_without_a_team_query() {
    let id = artifact_id_from_request(Some("abc123"), "", false).unwrap();

    assert_eq!(id.team, "no_team");
}

#[test]
fn rejects_a_missing_hash_with_the_method_status() {
    let error = artifact_id_from_request(None, "", true).unwrap_err();
    assert_eq!(error.status_code(), 400);

    let error = artifact_id_from_request(None, "", false).unwrap_err();
    assert_eq!(error.status_code(), 404);

    let error = artifact_id_from_request(Some(""), "", false).unwrap_err();
    assert_eq!(error.status_code(), 404);
    assert_eq!(error.message(), "request path holds no artifact hash");
}

#[test]
fn prefers_slug_over_team_id() {
    assert_eq!(
        extract_team_from_query("teamId=team_1&slug=my-team"),
        "my-team"
    );
    assert_eq!(extract_team_from_query("teamId=team_1"), "team_1");
    assert_eq!(extract_team_from_query("other=1"), "no_team");
}

#[test]
fn decodes_the_team_from_the_query() {
    assert_eq!(extract_team_from_query("slug=my%20team"), "my team");
    assert_eq!(extract_team_from_query("slug=a+b"), "a b");
}

#[test]
fn names_the_team_from_decoded_pairs() {
    let mut pairs = KeyValues::new();
    pairs.insert("teamId".to_owned(), "team_1".to_owned());
    assert_eq!(team_from_query_pairs(&pairs), "team_1");
    pairs.insert("slug".to_owned(), "my-team".to_owned());
    assert_eq!(team_from_query_pairs(&pairs), "my-team");
    assert_eq!(team_from_query_pairs(&KeyValues::new()), "no_team");
}

#[test]
fn copies_the_metadata_onto_the_response_headers() {
    let metadata = ArtifactMetadata {
        tag: Some(TAG.to_owned()),
        duration: Some(1234),
    };
    assert_eq!(
        metadata_headers(&metadata),
        vec![
            (ARTIFACT_TAG_HEADER.to_owned(), TAG.to_owned()),
            (ARTIFACT_DURATION_HEADER.to_owned(), "1234".to_owned()),
        ]
    );
    assert!(metadata_headers(&ArtifactMetadata::default()).is_empty());
}

#[test]
fn greets_by_name() {
    assert_eq!(greeting(Some("world")), "Hi world!");
    assert_eq!(greeting(None), "Hi there!");
}

#[test]
fn health_checks_get_no_root_span() {
    assert!(!DecayRootSpanBuilder::starts_root_span(HEALTH_CHECK_PATH));
    assert!(DecayRootSpanBuilder::starts_root_span("/v8/artifacts/abc123"));
    assert!(DecayRootSpanBuilder::starts_root_span("/management/health/"));
}
