use decay::domain::artifact::{ArtifactId, ArtifactMetadata};
use decay::domain::error::CacheError;
use decay::usecases::{check_result, fetch_result, store_request};

fn artifact_id() -> ArtifactId {
    ArtifactId {
        team: "my-team".to_owned(),
        hash: "abc123".to_owned(),
    }
}

#[test]
fn check_reports_not_found_for_a_missing_artifact() {
    let result = check_result(Err(CacheError::NotFound));
    assert!(matches!(result, Err(CacheError::NotFound)));
}

#[test]
fn fetch_reports_not_found_for_a_missing_artifact() {
    let result = fetch_result::<Vec<u8>>(Err(CacheError::NotFound), Err(CacheError::NotFound));
    assert!(matches!(result, Err(CacheError::NotFound)));
}

#[test]
fn body_and_metadata_round_trip_through_store_and_fetch() {
    let metadata = ArtifactMetadata {
        tag: Some("v=1:sha256:abc123".to_owned()),
        duration: Some(42),
    };
    let (path, stored) = store_request(&artifact_id(), metadata);
    assert_eq!(path, "/my-team/abc123");

    let (body, fetched) = fetch_result(Ok(b"artifact-bytes".to_vec()), Ok(stored))
        .ok()
        .unwrap();

    assert_eq!(
        fetched,
        ArtifactMetadata {
            tag: Some("v=1:sha256:abc123".to_owned()),
            duration: Some(42),
        }
    );
    assert_eq!(body, b"artifact-bytes");
}

/// A failed metadata lookup must not fail an otherwise good download.
#[test]
fn fetch_returns_empty_metadata_when_the_metadata_lookup_fails() {
    let (body, metadata) = fetch_result(
        Ok(b"artifact-bytes".to_vec()),
        Err(CacheError::StoreUnavailable("head switched off".to_owned())),
    )
    .ok()
    .unwrap();

    assert_eq!(metadata, ArtifactMetadata::default());
    assert_eq!(body, b"artifact-bytes");
}

#[test]
fn store_writes_under_the_artifact_object_path() {
    let (path, _) = store_request(&artifact_id(), ArtifactMetadata::default());
    assert_eq!(path, "/my-team/abc123");
}

#[test]
fn check_reads_the_stored_metadata() {
    let metadata = ArtifactMetadata {
        tag: None,
        duration: Some(1234),
    };
    let (_, stored) = store_request(&artifact_id(), metadata);
    assert_eq!(
        check_result(Ok(stored)).ok().unwrap(),
        ArtifactMetadata {
            tag: None,
            duration: Some(1234),
        }
    );
}

#[test]
fn a_failed_body_fails_the_fetch_even_with_metadata() {
    let (_, stored) = store_request(&artifact_id(), ArtifactMetadata::default());
    let result = fetch_result::<Vec<u8>>(
        Err(CacheError::StoreUnavailable("get switched off".to_owned())),
        Ok(stored),
    );
    assert!(matches!(result, Err(CacheError::StoreUnavailable(_))));
}
