//! How the S3 client is configured: checksums, retries, timeouts and
//! credentials, as plain values that the client builder takes one for one.
use vstd::prelude::*;

use crate::app_settings::{opt_text, AppSettings, S3ChecksumMode};

verus! {

/// When the S3 client computes (for requests) or checks (for responses) checksums.
#[derive(Debug, Clone, Copy, PartialEq, Eq, Structural)]
pub enum ChecksumCalculation {
    WhenRequired,
    WhenSupported,
}

/// The checksum behaviour of requests and of responses.
#[derive(Debug, Clone, Copy, PartialEq, Eq, Structural)]
pub struct ChecksumPolicy {
    pub request: ChecksumCalculation,
    pub response: ChecksumCalculation,
}

/// The checksum behaviour that a checksum mode selects, the same for
/// requests and responses.
pub fn checksum_policy(mode: S3ChecksumMode) -> (r: ChecksumPolicy)
    ensures
        mode == S3ChecksumMode::WhenRequired ==> r == (ChecksumPolicy {
            request: ChecksumCalculation::WhenRequired,
            response: ChecksumCalculation::WhenRequired,
        }),
        mode == S3ChecksumMode::WhenSupported ==> r == (ChecksumPolicy {
            request: ChecksumCalculation::WhenSupported,
            response: ChecksumCalculation::WhenSupported,
        }),
{
    match mode {
        S3ChecksumMode::WhenRequired => ChecksumPolicy {
            request: ChecksumCalculation::WhenRequired,
            response: ChecksumCalculation::WhenRequired,
        },
        S3ChecksumMode::WhenSupported => ChecksumPolicy {
            request: ChecksumCalculation::WhenSupported,
            response: ChecksumCalculation::WhenSupported,
        },
    }
}

/// How often and how long the client tries one S3 operation.
#[derive(Debug, Clone, Copy, PartialEq, Eq, Structural)]
pub struct RetryPolicy {
    /// Attempts per operation, the first one included.
    pub max_attempts: u32,
    /// The limit on one attempt, in seconds.
    pub attempt_timeout_secs: u64,
    /// The limit on the whole operation, retries and backoff included, in seconds.
    pub operation_timeout_secs: u64,
}

pub open spec fn standard_retry_policy() -> RetryPolicy {
    RetryPolicy { max_attempts: 3, attempt_timeout_secs: 60, operation_timeout_secs: 240 }
}

/// Three attempts of 60 s, plus backoff, fit inside the 240 s operation
/// timeout, so a slow store never loses an attempt.
pub fn retry_policy() -> (r: RetryPolicy)
    ensures
        r == standard_retry_policy(),
{
    RetryPolicy { max_attempts: 3, attempt_timeout_secs: 60, operation_timeout_secs: 240 }
}

/// Every attempt fits inside the operation timeout, so the last attempt never
/// dies before the store can answer.
pub proof fn lemma_retries_fit_inside_the_operation_timeout()
    ensures
        standard_retry_policy().attempt_timeout_secs * standard_retry_policy().max_attempts
            <= standard_retry_policy().operation_timeout_secs,
{
}

/// Where the client's credentials come from.
pub enum CredentialsSource {
    /// The access key pair from the settings.
    Static { access_key: String, secret_key: String },
    /// The default chain (instance metadata, IRSA, or a profile), built on first use.
    DefaultChain,
}

/// The name the static credentials are provided under.
pub const CREDENTIALS_PROVIDER_NAME: &'static str = "turbo-cache-server";

/// The static pair when both keys are set, otherwise the default chain.
pub fn credentials_source(access_key: &Option<String>, secret_key: &Option<String>) -> (r:
    CredentialsSource)
    ensures
        match (access_key, secret_key) {
            (Some(a), Some(s)) => r matches CredentialsSource::Static { access_key, secret_key }
                && access_key@ == a@ && secret_key@ == s@,
            _ => r is DefaultChain,
        },
{
    match (access_key, secret_key) {
        (Some(access_key), Some(secret_key)) => CredentialsSource::Static {
            access_key: access_key.clone(),
            secret_key: secret_key.clone(),
        },
        _ => CredentialsSource::DefaultChain,
    }
}

/// Everything the S3 client is built from.
pub struct ClientPlan {
    pub region: String,
    pub endpoint: Option<String>,
    pub force_path_style: bool,
    pub checksums: ChecksumPolicy,
    pub retry: RetryPolicy,
    pub credentials: CredentialsSource,
}

/// The S3 client configuration that the settings call for.
pub fn client_plan(settings: &AppSettings) -> (r: ClientPlan)
    ensures
        r.region@ == settings.s3_region@,
        opt_text(r.endpoint) == opt_text(settings.s3_endpoint),
        r.force_path_style == settings.s3_use_path_style,
        settings.s3_checksum_mode == S3ChecksumMode::WhenRequired ==> r.checksums == (
        ChecksumPolicy {
            request: ChecksumCalculation::WhenRequired,
            response: ChecksumCalculation::WhenRequired,
        }),
        settings.s3_checksum_mode == S3ChecksumMode::WhenSupported ==> r.checksums == (
        ChecksumPolicy {
            request: ChecksumCalculation::WhenSupported,
            response: ChecksumCalculation::WhenSupported,
        }),
        r.retry == standard_retry_policy(),
        match (settings.s3_access_key, settings.s3_secret_key) {
            (Some(a), Some(s)) => r.credentials matches CredentialsSource::Static {
                access_key,
                secret_key,
            } && access_key@ == a@ && secret_key@ == s@,
            _ => r.credentials is DefaultChain,
        },
{
    ClientPlan {
        region: settings.s3_region.clone(),
        endpoint: match &settings.s3_endpoint {
            Some(e) => Some(e.clone()),
            None => None,
        },
        force_path_style: settings.s3_use_path_style,
        checksums: checksum_policy(settings.s3_checksum_mode),
        retry: retry_policy(),
        credentials: credentials_source(&settings.s3_access_key, &settings.s3_secret_key),
    }
}

} // verus!
