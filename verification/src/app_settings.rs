//! The server's settings, and how they are read from environment values.
use vstd::prelude::*;

use crate::decimal::{
    decimal_text, lemma_parse_decimal_text, lemma_parse_failure_iff_no_value, parse_u16,
    parse_unsigned, parse_usize, read_unsigned, unsigned_parse_failure, ParseFailure,
};
use crate::text::{concat2, concat3, same_text};

verus! {

/// Server-side encryption algorithms supported by AWS S3.
#[derive(Debug, Clone, Copy, PartialEq, Eq, Structural)]
pub enum S3ServerSideEncryption {
    Aes256,
    AwsFsx,
    AwsKms,
    AwsKmsDsse,
}

/// The string value the S3 API expects for each algorithm.
pub open spec fn encryption_text(e: S3ServerSideEncryption) -> Seq<char> {
    match e {
        S3ServerSideEncryption::Aes256 => "AES256"@,
        S3ServerSideEncryption::AwsFsx => "aws:fsx"@,
        S3ServerSideEncryption::AwsKms => "aws:kms"@,
        S3ServerSideEncryption::AwsKmsDsse => "aws:kms:dsse"@,
    }
}

/// The algorithm that a configured value names, if it names one.
pub open spec fn encryption_from_text(s: Seq<char>) -> Option<S3ServerSideEncryption> {
    if s == "AES256"@ {
        Some(S3ServerSideEncryption::Aes256)
    } else if s == "aws:fsx"@ {
        Some(S3ServerSideEncryption::AwsFsx)
    } else if s == "aws:kms"@ {
        Some(S3ServerSideEncryption::AwsKms)
    } else if s == "aws:kms:dsse"@ {
        Some(S3ServerSideEncryption::AwsKmsDsse)
    } else {
        None
    }
}

/// The error text for a value that names no algorithm.
pub open spec fn invalid_encryption_message(s: Seq<char>) -> Seq<char> {
    "Invalid S3 server-side encryption value: '"@ + s
        + "'. Valid values are: AES256, aws:fsx, aws:kms, aws:kms:dsse"@
}

/// Each algorithm's value reads back as that algorithm.
pub proof fn lemma_encryption_text_round_trip(e: S3ServerSideEncryption)
    ensures
        encryption_from_text(encryption_text(e)) == Some(e),
{
    reveal_strlit("AES256");
    reveal_strlit("aws:fsx");
    reveal_strlit("aws:kms");
    reveal_strlit("aws:kms:dsse");
    let t = encryption_text(e);
    match e {
        S3ServerSideEncryption::Aes256 => {},
        S3ServerSideEncryption::AwsFsx => {
            assert(t.len() != "AES256"@.len());
        },
        S3ServerSideEncryption::AwsKms => {
            assert(t.len() != "AES256"@.len());
            assert(t[4] != "aws:fsx"@[4]);
        },
        S3ServerSideEncryption::AwsKmsDsse => {
            assert(t.len() != "AES256"@.len());
            assert(t.len() != "aws:fsx"@.len());
            assert(t.len() != "aws:kms"@.len());
        },
    }
}

impl S3ServerSideEncryption {
    /// Returns the string value expected by the S3 API
    pub fn as_str(&self) -> (r: &'static str)
        ensures
            r@ == encryption_text(*self),
    {
        match self {
            S3ServerSideEncryption::Aes256 => "AES256",
            S3ServerSideEncryption::AwsFsx => "aws:fsx",
            S3ServerSideEncryption::AwsKms => "aws:kms",
            S3ServerSideEncryption::AwsKmsDsse => "aws:kms:dsse",
        }
    }

    /// The value as an owned string, as `Display` writes it.
    pub fn to_string(&self) -> (r: String)
        ensures
            r@ == encryption_text(*self),
    {
        self.as_str().to_owned()
    }

    /// Reads a configured value; the error names the accepted values.
    pub fn from_text(s: &str) -> (r: Result<S3ServerSideEncryption, String>)
        ensures
            match r {
                Ok(e) => encryption_from_text(s@) == Some(e),
                Err(message) => encryption_from_text(s@) is None && message@
                    == invalid_encryption_message(s@),
            },
    {
        if same_text(s, "AES256") {
            Ok(S3ServerSideEncryption::Aes256)
        } else if same_text(s, "aws:fsx") {
            Ok(S3ServerSideEncryption::AwsFsx)
        } else if same_text(s, "aws:kms") {
            Ok(S3ServerSideEncryption::AwsKms)
        } else if same_text(s, "aws:kms:dsse") {
            Ok(S3ServerSideEncryption::AwsKmsDsse)
        } else {
            Err(
                concat3(
                    "Invalid S3 server-side encryption value: '",
                    s,
                    "'. Valid values are: AES256, aws:fsx, aws:kms, aws:kms:dsse",
                ),
            )
        }
    }
}

impl AsRef<str> for S3ServerSideEncryption {
    fn as_ref(&self) -> (r: &str)
        ensures
            r@ == encryption_text(*self),
    {
        self.as_str()
    }
}

impl std::str::FromStr for S3ServerSideEncryption {
    type Err = String;

    fn from_str(s: &str) -> (r: Result<S3ServerSideEncryption, String>)
        ensures
            match r {
                Ok(e) => encryption_from_text(s@) == Some(e),
                Err(message) => encryption_from_text(s@) is None && message@
                    == invalid_encryption_message(s@),
            },
    {
        S3ServerSideEncryption::from_text(s)
    }
}

/// When the S3 client computes and checks checksums.
#[derive(Debug, Clone, Copy, PartialEq, Eq, Structural)]
pub enum S3ChecksumMode {
    /// Only where the S3 operation requires one.
    WhenRequired,
    /// Wherever the S3 operation supports one.
    WhenSupported,
}

impl Default for S3ChecksumMode {
    fn default() -> (r: Self)
        ensures
            r == S3ChecksumMode::WhenRequired,
    {
        S3ChecksumMode::WhenRequired
    }
}

#[derive(Clone)]
pub struct AppSettings {
    /// Host where to bind the server to
    /// Defaults to the loopback address
    pub host: String,
    pub port: u16,
    /// The maximum size allowed for payloads
    /// uploaded by Turborepo. Defaults to 100MB.
    pub max_payload_size_in_bytes: usize,
    pub s3_access_key: Option<String>,
    pub s3_secret_key: Option<String>,
    pub s3_endpoint: Option<String>,
    /// if your S3-compatible store does not support requests
    /// like https://bucket.hostname.domain/. Setting `s3_use_path_style`
    /// to true configures the S3 client to make requests like
    /// https://hostname.domain/bucket instead.
    pub s3_use_path_style: bool,
    pub s3_region: String,
    pub s3_bucket_name: String,
    /// The server-side encryption algorithm to use for the S3 bucket.
    pub s3_server_side_encryption: Option<S3ServerSideEncryption>,
    /// When the S3 client computes and checks checksums.
    pub s3_checksum_mode: S3ChecksumMode,
    pub turbo_token: Option<String>,
}

/// The raw value of each environment variable the server reads; `None` where
/// the variable is unset or not unicode.
pub struct EnvValues {
    pub port: Option<String>,
    pub host: Option<String>,
    pub s3_access_key: Option<String>,
    pub s3_secret_key: Option<String>,
    pub s3_region: Option<String>,
    pub s3_endpoint: Option<String>,
    pub s3_use_path_style: Option<String>,
    pub s3_server_side_encryption: Option<String>,
    pub s3_bucket_name: Option<String>,
    pub max_payload_size_in_mb: Option<String>,
    pub turbo_token: Option<String>,
}

/// Why the environment holds no usable settings.
#[derive(Debug, PartialEq, Eq)]
pub enum SettingsError {
    /// `PORT` is not a port number; the raw value.
    InvalidPort(String),
    /// `S3_SERVER_SIDE_ENCRYPTION` names no algorithm; the parse error.
    InvalidServerSideEncryption(String),
    /// `MAX_PAYLOAD_SIZE_IN_MB` is not a number; the raw value.
    InvalidPayloadSize(String),
    /// `MAX_PAYLOAD_SIZE_IN_MB` is a number whose size in bytes does not fit a `usize`.
    PayloadSizeTooLarge(usize),
}

pub open spec fn opt_text(o: Option<String>) -> Option<Seq<char>> {
    match o {
        Some(s) => Some(s@),
        None => None,
    }
}

pub open spec fn text_or(o: Option<String>, default: Seq<char>) -> Seq<char> {
    match o {
        Some(s) => s@,
        None => default,
    }
}

/// The port the environment asks for, or `None` when `PORT` is no `u16`.
pub open spec fn env_port(env: EnvValues) -> Option<nat> {
    parse_unsigned(text_or(env.port, "8000"@), u16::MAX as nat)
}

/// The encryption the environment asks for: `Some(None)` when unset,
/// `None` when the value names no algorithm.
pub open spec fn env_encryption(env: EnvValues) -> Option<Option<S3ServerSideEncryption>> {
    match env.s3_server_side_encryption {
        None => Some(None),
        Some(v) => match encryption_from_text(v@) {
            Some(e) => Some(Some(e)),
            None => None,
        },
    }
}

/// The payload limit in megabytes, or `None` when it is no `usize`.
pub open spec fn env_payload_mb(env: EnvValues) -> Option<nat> {
    parse_unsigned(text_or(env.max_payload_size_in_mb, "100"@), usize::MAX as nat)
}

pub open spec fn env_path_style(env: EnvValues) -> bool {
    match env.s3_use_path_style {
        Some(v) => v@ == "true"@ || v@ == "1"@,
        None => false,
    }
}

/// The settings that a valid environment gives.
pub open spec fn settings_match(env: EnvValues, s: AppSettings) -> bool {
    &&& env_port(env) == Some(s.port as nat)
    &&& s.host@ == text_or(env.host, "127.0.0.1"@)
    &&& opt_text(s.s3_access_key) == opt_text(env.s3_access_key)
    &&& opt_text(s.s3_secret_key) == opt_text(env.s3_secret_key)
    &&& s.s3_region@ == text_or(env.s3_region, "eu-central-1"@)
    &&& opt_text(s.s3_endpoint) == opt_text(env.s3_endpoint)
    &&& s.s3_use_path_style == env_path_style(env)
    &&& env_encryption(env) == Some(s.s3_server_side_encryption)
    &&& s.s3_bucket_name@ == text_or(env.s3_bucket_name, "turbo"@)
    &&& env_payload_mb(env) matches Some(mb) && s.max_payload_size_in_bytes == mb * 1024 * 1024
    &&& s.s3_checksum_mode == S3ChecksumMode::WhenRequired
    &&& opt_text(s.turbo_token) == opt_text(env.turbo_token)
}

/// The settings take each variable as the environment gives it. Optional
/// values (`S3_ENDPOINT`, `S3_ACCESS_KEY`, `S3_SECRET_KEY`, `TURBO_TOKEN`) are
/// unset exactly when the variable is, and otherwise its text; `HOST`,
/// `S3_REGION` and `S3_BUCKET_NAME` are the variable's text or their
/// defaults; `PORT` and `MAX_PAYLOAD_SIZE_IN_MB` default to 8000 and 100 MB;
/// path style is on only for `true` or `1`; no encryption is set unless the
/// variable names it; checksums are computed only where required.
pub proof fn lemma_settings_follow_the_environment(env: EnvValues, s: AppSettings)
    requires
        settings_match(env, s),
    ensures
        env.s3_endpoint is None ==> s.s3_endpoint is None,
        env.s3_endpoint matches Some(e) ==> s.s3_endpoint matches Some(x) && x@ == e@,
        env.s3_access_key is None ==> s.s3_access_key is None,
        env.s3_access_key matches Some(k) ==> s.s3_access_key matches Some(x) && x@ == k@,
        env.s3_secret_key is None ==> s.s3_secret_key is None,
        env.s3_secret_key matches Some(k) ==> s.s3_secret_key matches Some(x) && x@ == k@,
        env.turbo_token is None ==> s.turbo_token is None,
        env.turbo_token matches Some(t) ==> s.turbo_token matches Some(x) && x@ == t@,
        env.host is None ==> s.host@ == "127.0.0.1"@,
        env.host matches Some(h) ==> s.host@ == h@,
        env.s3_region is None ==> s.s3_region@ == "eu-central-1"@,
        env.s3_region matches Some(r) ==> s.s3_region@ == r@,
        env.s3_bucket_name is None ==> s.s3_bucket_name@ == "turbo"@,
        env.s3_bucket_name matches Some(b) ==> s.s3_bucket_name@ == b@,
        s.s3_use_path_style <==> (env.s3_use_path_style matches Some(v) && (v@ == "true"@ || v@
            == "1"@)),
        env.s3_server_side_encryption is None ==> s.s3_server_side_encryption is None,
        s.s3_server_side_encryption matches Some(e) ==> env.s3_server_side_encryption matches Some(
            v,
        ) && v@ == encryption_text(e),
        env.port is None ==> s.port == 8000,
        env.port matches Some(p) ==> parse_unsigned(p@, u16::MAX as nat) == Some(s.port as nat),
        env.max_payload_size_in_mb is None ==> s.max_payload_size_in_bytes == 104857600,
        s.s3_checksum_mode == S3ChecksumMode::WhenRequired,
{
    if let Some(v) = env.s3_server_side_encryption {
        if let Some(e) = s.s3_server_side_encryption {
            reveal_strlit("AES256");
            reveal_strlit("aws:fsx");
            reveal_strlit("aws:kms");
            reveal_strlit("aws:kms:dsse");
            assert(encryption_from_text(v@) == Some(e));
        }
    }
    if env.port is None {
        lemma_parse_decimal_text(8000, u16::MAX as nat);
        reveal_strlit("8000");
        reveal_with_fuel(decimal_text, 5);
        assert(decimal_text(8000) =~= "8000"@);
    }
    if env.max_payload_size_in_mb is None {
        lemma_parse_decimal_text(100, usize::MAX as nat);
        reveal_strlit("100");
        reveal_with_fuel(decimal_text, 4);
        assert(decimal_text(100) =~= "100"@);
    }
}

fn text_or_default(o: Option<String>, default: &str) -> (r: String)
    ensures
        r@ == text_or(o, default@),
{
    match o {
        Some(s) => s,
        None => default.to_owned(),
    }
}

/// Reads the settings from the environment's values. Variables are checked in
/// the order `PORT`, `S3_SERVER_SIDE_ENCRYPTION`, `MAX_PAYLOAD_SIZE_IN_MB`; the
/// first that is unusable is the error.
pub fn settings_from_env(env: EnvValues) -> (r: Result<AppSettings, SettingsError>)
    ensures
        match r {
            Ok(s) => settings_match(env, s),
            Err(SettingsError::InvalidPort(raw)) => env_port(env) is None && raw@ == text_or(
                env.port,
                "8000"@,
            ),
            Err(SettingsError::InvalidServerSideEncryption(message)) => env_port(env) is Some
                && env_encryption(env) is None && message@ == invalid_encryption_message(
                text_or(env.s3_server_side_encryption, Seq::empty()),
            ),
            Err(SettingsError::InvalidPayloadSize(raw)) => env_port(env) is Some && env_encryption(
                env,
            ) is Some && env_payload_mb(env) is None && raw@ == text_or(
                env.max_payload_size_in_mb,
                "100"@,
            ),
            Err(SettingsError::PayloadSizeTooLarge(mb)) => env_port(env) is Some
                && env_encryption(env) is Some && env_payload_mb(env) == Some(mb as nat) && mb
                * 1024 * 1024 > usize::MAX,
        },
{
    let ghost env_view = env;
    let EnvValues {
        port,
        host,
        s3_access_key,
        s3_secret_key,
        s3_region,
        s3_endpoint,
        s3_use_path_style,
        s3_server_side_encryption,
        s3_bucket_name,
        max_payload_size_in_mb,
        turbo_token,
    } = env;

    let port_text = text_or_default(port, "8000");
    let port = match parse_u16(port_text.as_str()) {
        Some(p) => p,
        None => {
            return Err(SettingsError::InvalidPort(port_text));
        },
    };

    let host = text_or_default(host, "127.0.0.1");
    let s3_region = text_or_default(s3_region, "eu-central-1");
    let s3_use_path_style = match s3_use_path_style {
        Some(v) => same_text(v.as_str(), "true") || same_text(v.as_str(), "1"),
        None => false,
    };
    let s3_server_side_encryption = match s3_server_side_encryption {
        Some(v) => match S3ServerSideEncryption::from_text(v.as_str()) {
            Ok(e) => Some(e),
            Err(message) => {
                return Err(SettingsError::InvalidServerSideEncryption(message));
            },
        },
        None => None,
    };

    let s3_bucket_name = text_or_default(s3_bucket_name, "turbo");

    let payload_text = text_or_default(max_payload_size_in_mb, "100");
    let max_payload_size_in_bytes = match parse_usize(payload_text.as_str()) {
        Some(size_in_mb) => {
            let limit: usize = usize::MAX / 1048576;
            if size_in_mb > limit {
                assert(size_in_mb * 1024 * 1024 > usize::MAX) by (nonlinear_arith)
                    requires
                        size_in_mb > limit,
                        limit == usize::MAX / 1048576,
                ;
                return Err(SettingsError::PayloadSizeTooLarge(size_in_mb));
            }
            assert(size_in_mb * 1024 * 1024 <= usize::MAX) by (nonlinear_arith)
                requires
                    size_in_mb <= limit,
                    limit == usize::MAX / 1048576,
            ;
            size_in_mb * 1024 * 1024
        },
        None => {
            return Err(SettingsError::InvalidPayloadSize(payload_text));
        },
    };

    Ok(
        AppSettings {
            host,
            port,
            max_payload_size_in_bytes,
            s3_access_key,
            s3_secret_key,
            s3_endpoint,
            s3_use_path_style,
            s3_region,
            s3_bucket_name,
            s3_server_side_encryption,
            s3_checksum_mode: S3ChecksumMode::WhenRequired,
            turbo_token,
        },
    )
}

/// How `{:?}` writes a string: std's `Debug` for `str`, which puts the text
/// in double quotes and escapes quotes, backslashes and characters that do
/// not print.
pub uninterp spec fn debug_text(s: Seq<char>) -> Seq<char>;

/// std's `Debug` for `str`, through `format!("{:?}", ..)`: the text as a
/// quoted, escaped string literal. Its result is `debug_text` of the text.
#[verifier::external_body]
fn debug_quoted(s: &str) -> (r: String)
    ensures
        r@ == debug_text(s@),
{
    format!("{:?}", s)
}

/// How `{:?}` writes the `ParseIntError` of a failed parse.
pub open spec fn parse_error_text(f: ParseFailure) -> Seq<char> {
    "ParseIntError { kind: "@ + (match f {
        ParseFailure::Empty => "Empty"@,
        ParseFailure::InvalidDigit => "InvalidDigit"@,
        ParseFailure::PosOverflow => "PosOverflow"@,
    }) + " }"@
}

/// The sentence for an unusable `PORT`: what `expect` prints for the failed
/// parse, the context and then the parse error; the context alone for a
/// text that is a port number after all.
pub open spec fn invalid_port_message(raw: Seq<char>) -> Seq<char> {
    match unsigned_parse_failure(raw, u16::MAX as nat) {
        Some(f) => "Could not read PORT from env: "@ + parse_error_text(f),
        None => "Could not read PORT from env"@,
    }
}

fn parse_error_name(f: ParseFailure) -> (r: &'static str)
    ensures
        "ParseIntError { kind: "@ + r@ + " }"@ == parse_error_text(f),
{
    match f {
        ParseFailure::Empty => "Empty",
        ParseFailure::InvalidDigit => "InvalidDigit",
        ParseFailure::PosOverflow => "PosOverflow",
    }
}

impl SettingsError {
    /// The sentence the server stops with when the environment is unusable,
    /// as the failed `expect` or the panic states it.
    pub fn message(&self) -> (r: String)
        ensures
            r@ == (match self {
                SettingsError::InvalidPort(raw) => invalid_port_message(raw@),
                SettingsError::InvalidServerSideEncryption(detail) => "Invalid S3_SERVER_SIDE_ENCRYPTION value: "@ + debug_text(detail@),
                SettingsError::InvalidPayloadSize(raw) => "Invalid value given for MAX_PAYLOAD_SIZE_IN_MB: \""@ + raw@ + "\""@,
                SettingsError::PayloadSizeTooLarge(_) => "attempt to multiply with overflow"@,
            }),
    {
        match self {
            SettingsError::InvalidPort(raw) => match read_unsigned(raw.as_str(), 65535) {
                Err(f) => {
                    let name = parse_error_name(f);
                    let head = concat3(
                        "Could not read PORT from env: ",
                        "ParseIntError { kind: ",
                        name,
                    );
                    let r = concat2(head.as_str(), " }");
                    assert(r@ =~= "Could not read PORT from env: "@ + parse_error_text(f));
                    r
                },
                Ok(_) => {
                    proof {
                        lemma_parse_failure_iff_no_value(raw@, 65535);
                    }
                    "Could not read PORT from env".to_owned()
                },
            },
            SettingsError::InvalidServerSideEncryption(detail) => {
                let quoted = debug_quoted(detail.as_str());
                concat2("Invalid S3_SERVER_SIDE_ENCRYPTION value: ", quoted.as_str())
            },
            SettingsError::InvalidPayloadSize(raw) => concat3(
                "Invalid value given for MAX_PAYLOAD_SIZE_IN_MB: \"",
                raw.as_str(),
                "\"",
            ),
            SettingsError::PayloadSizeTooLarge(_) => "attempt to multiply with overflow".to_owned(),
        }
    }
}

} // verus!
