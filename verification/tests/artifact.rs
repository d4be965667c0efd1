use decay::domain::artifact::{
    parse_duration, ArtifactId, ArtifactMetadata, ARTIFACT_DURATION_HEADER, ARTIFACT_TAG_HEADER,
};
use decay::domain::error::CacheError;
use decay::domain::key_values::KeyValues;

const TAG: &str = "v=1:sha256:abc123";

fn key_values(pairs: &[(&str, &str)]) -> KeyValues {
    let mut map = KeyValues::new();
    for (key, value) in pairs {
        map.insert((*key).to_owned(), (*value).to_owned());
    }
    map
}

#[test]
fn reads_both_artifact_headers_from_key_values() {
    let stored = key_values(&[
        (ARTIFACT_TAG_HEADER, TAG),
        (ARTIFACT_DURATION_HEADER, "1234"),
    ]);

    assert_eq!(
        ArtifactMetadata::from_key_values(stored),
        ArtifactMetadata {
            tag: Some(TAG.to_owned()),
            duration: Some(1234),
        }
    );
}

/// Another writer may share the bucket, so the read path does not trust the
/// stored value either.
#[test]
fn drops_a_malformed_duration_from_key_values() {
    let stored = key_values(&[(ARTIFACT_DURATION_HEADER, "not-a-number")]);

    assert_eq!(ArtifactMetadata::from_key_values(stored).duration, None);
}

#[test]
fn writes_the_duration_as_a_decimal_string() {
    let metadata = ArtifactMetadata {
        tag: None,
        duration: Some(7),
    };

    assert_eq!(
        metadata.into_key_values().get(ARTIFACT_DURATION_HEADER),
        Some(&"7".to_owned())
    );
}

#[test]
fn builds_the_object_path_from_team_and_hash() {
    let id = ArtifactId {
        team: "my-team".to_owned(),
        hash: "abc123".to_owned(),
    };

    assert_eq!(id.object_path(), "/my-team/abc123");
}

#[test]
fn metadata_survives_the_key_value_round_trip() {
    let metadata = ArtifactMetadata {
        tag: Some(TAG.to_owned()),
        duration: Some(u64::MAX),
    };
    let map = metadata.into_key_values();
    assert_eq!(
        ArtifactMetadata::from_key_values(map),
        ArtifactMetadata {
            tag: Some(TAG.to_owned()),
            duration: Some(u64::MAX),
        }
    );

    let empty = ArtifactMetadata::default().into_key_values();
    assert_eq!(empty.get(ARTIFACT_TAG_HEADER), None);
    assert_eq!(empty.get(ARTIFACT_DURATION_HEADER), None);
    assert_eq!(ArtifactMetadata::from_key_values(empty), ArtifactMetadata::default());
}

#[test]
fn other_keys_do_not_reach_the_metadata() {
    let stored = key_values(&[("x-other", "1"), (ARTIFACT_TAG_HEADER, TAG)]);
    assert_eq!(
        ArtifactMetadata::from_key_values(stored),
        ArtifactMetadata {
            tag: Some(TAG.to_owned()),
            duration: None,
        }
    );
}

#[test]
fn parses_durations_as_unsigned_decimals() {
    assert_eq!(parse_duration("1234"), Some(1234));
    assert_eq!(parse_duration("007"), Some(7));
    assert_eq!(parse_duration("+5"), Some(5));
    assert_eq!(parse_duration("18446744073709551615"), Some(u64::MAX));
    assert_eq!(parse_duration("18446744073709551616"), None);
    assert_eq!(parse_duration("-5"), None);
    assert_eq!(parse_duration("+"), None);
    assert_eq!(parse_duration(""), None);
    assert_eq!(parse_duration(" 5"), None);
    assert_eq!(parse_duration("5s"), None);
}

#[test]
fn key_values_keep_one_value_per_key() {
    let mut map = KeyValues::new();
    assert_eq!(map.insert("a".to_owned(), "1".to_owned()), None);
    assert_eq!(map.insert("a".to_owned(), "2".to_owned()), Some("1".to_owned()));
    assert_eq!(map.get("a"), Some(&"2".to_owned()));
    assert_eq!(map.remove("a"), Some("2".to_owned()));
    assert_eq!(map.get("a"), None);
    assert_eq!(map.remove("a"), None);
    assert!(map.into_entries().is_empty());
}

#[test]
fn cache_errors_answer_with_their_status() {
    assert_eq!(CacheError::NotFound.status_code(), 404);
    assert_eq!(
        CacheError::StoreUnavailable("AccessDenied".to_owned()).status_code(),
        500
    );
    assert_eq!(CacheError::NotFound.message(), "no such artifact in the store");
    assert_eq!(
        CacheError::StoreUnavailable("AccessDenied".to_owned()).message(),
        "store request failed: AccessDenied"
    );
}
