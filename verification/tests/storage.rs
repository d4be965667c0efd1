use decay::app_settings::{AppSettings, S3ChecksumMode};
use decay::domain::error::CacheError;
use decay::storage::client::{
    client_plan, retry_policy, ChecksumCalculation, CredentialsSource,
};
use decay::storage::{lookup_failure, object_key, store_unavailable, S3Failure};

#[test]
fn key_strips_one_leading_slash() {
    assert_eq!(object_key("/team/hash"), "team/hash");
    assert_eq!(object_key("//team/hash"), "/team/hash");
    assert_eq!(object_key("team/hash"), "team/hash");
}

fn settings() -> AppSettings {
    AppSettings {
        host: "127.0.0.1".to_owned(),
        port: 8000,
        max_payload_size_in_bytes: 100 * 1024 * 1024,
        s3_access_key: Some("access".into()),
        s3_secret_key: Some("secret".into()),
        s3_endpoint: Some("http://127.0.0.1:1".to_owned()),
        s3_use_path_style: true,
        s3_region: "eu-central-1".to_owned(),
        s3_bucket_name: "turbo".to_owned(),
        s3_server_side_encryption: None,
        s3_checksum_mode: S3ChecksumMode::WhenRequired,
        turbo_token: None,
    }
}

#[test]
fn when_required_is_the_default_checksum_behavior() {
    let plan = client_plan(&settings());

    assert_eq!(plan.checksums.request, ChecksumCalculation::WhenRequired);
    assert_eq!(plan.checksums.response, ChecksumCalculation::WhenRequired);
    assert_eq!(S3ChecksumMode::default(), S3ChecksumMode::WhenRequired);
}

#[test]
fn when_supported_opts_into_checksums() {
    let mut settings = settings();
    settings.s3_checksum_mode = S3ChecksumMode::WhenSupported;

    let plan = client_plan(&settings);

    assert_eq!(plan.checksums.request, ChecksumCalculation::WhenSupported);
    assert_eq!(plan.checksums.response, ChecksumCalculation::WhenSupported);
}

/// Every retry must fit inside the operation timeout, or the last attempt
/// dies before the store can answer.
#[test]
fn retries_fit_inside_the_operation_timeout() {
    let retries = retry_policy();

    assert_eq!(retries.attempt_timeout_secs, 60);
    assert_eq!(retries.operation_timeout_secs, 240);
    assert!(
        retries.operation_timeout_secs
            >= retries.attempt_timeout_secs * retries.max_attempts as u64,
    );
}

#[test]
fn missing_credentials_fall_back_to_the_default_chain() {
    let mut settings = settings();
    settings.s3_access_key = None;
    settings.s3_secret_key = None;

    assert!(matches!(
        client_plan(&settings).credentials,
        CredentialsSource::DefaultChain
    ));

    let mut settings = self::settings();
    settings.s3_secret_key = None;
    assert!(matches!(
        client_plan(&settings).credentials,
        CredentialsSource::DefaultChain
    ));
}

#[test]
fn both_keys_give_static_credentials() {
    let plan = client_plan(&settings());
    match plan.credentials {
        CredentialsSource::Static { access_key, secret_key } => {
            assert_eq!(access_key, "access");
            assert_eq!(secret_key, "secret");
        }
        CredentialsSource::DefaultChain => panic!("expected static credentials"),
    }
    assert_eq!(plan.region, "eu-central-1");
    assert_eq!(plan.endpoint.as_deref(), Some("http://127.0.0.1:1"));
    assert!(plan.force_path_style);
}

#[test]
fn a_missing_object_is_not_found() {
    let failure = S3Failure {
        missing_object: true,
        http_status: Some(404),
        detail: "NoSuchKey".to_owned(),
    };
    assert!(matches!(lookup_failure(failure), CacheError::NotFound));

    let bare_404 = S3Failure {
        missing_object: false,
        http_status: Some(404),
        detail: "service error".to_owned(),
    };
    assert!(matches!(lookup_failure(bare_404), CacheError::NotFound));
}

/// A refusal must not read as a cache miss, and keeps the S3 code.
#[test]
fn a_refused_lookup_is_a_store_failure() {
    let refused = S3Failure {
        missing_object: false,
        http_status: Some(403),
        detail: "AccessDenied: Access Denied".to_owned(),
    };
    let error = lookup_failure(refused);
    assert!(error.message().contains("AccessDenied"));
    assert!(matches!(error, CacheError::StoreUnavailable(_)));

    let unreachable = S3Failure {
        missing_object: false,
        http_status: None,
        detail: "dispatch failure".to_owned(),
    };
    assert!(matches!(lookup_failure(unreachable), CacheError::StoreUnavailable(_)));
}

#[test]
fn store_failures_keep_their_detail() {
    match store_unavailable("timeout".to_owned()) {
        CacheError::StoreUnavailable(detail) => assert_eq!(detail, "timeout"),
        CacheError::NotFound => panic!("a store failure is not a miss"),
    }
}
