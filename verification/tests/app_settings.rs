use decay::app_settings::{
    settings_from_env, EnvValues, S3ChecksumMode, S3ServerSideEncryption, SettingsError,
};

#[test]
fn parse_aes256_encryption() {
    let result = "AES256".parse::<S3ServerSideEncryption>();
    assert_eq!(result, Ok(S3ServerSideEncryption::Aes256));
}

#[test]
fn parse_aws_fsx_encryption() {
    let result = "aws:fsx".parse::<S3ServerSideEncryption>();
    assert_eq!(result, Ok(S3ServerSideEncryption::AwsFsx));
}

#[test]
fn parse_aws_kms_encryption() {
    let result = "aws:kms".parse::<S3ServerSideEncryption>();
    assert_eq!(result, Ok(S3ServerSideEncryption::AwsKms));
}

#[test]
fn parse_aws_kms_dsse_encryption() {
    let result = "aws:kms:dsse".parse::<S3ServerSideEncryption>();
    assert_eq!(result, Ok(S3ServerSideEncryption::AwsKmsDsse));
}

#[test]
fn parse_invalid_encryption_returns_error() {
    let result = "invalid".parse::<S3ServerSideEncryption>();
    assert!(result.is_err());
    assert!(
        result
            .unwrap_err()
            .contains("Invalid S3 server-side encryption value")
    );
}

#[test]
fn encryption_to_string_aes256() {
    assert_eq!(S3ServerSideEncryption::Aes256.to_string(), "AES256");
}

#[test]
fn encryption_to_string_aws_fsx() {
    assert_eq!(S3ServerSideEncryption::AwsFsx.to_string(), "aws:fsx");
}

#[test]
fn encryption_to_string_aws_kms() {
    assert_eq!(S3ServerSideEncryption::AwsKms.to_string(), "aws:kms");
}

#[test]
fn encryption_to_string_aws_kms_dsse() {
    assert_eq!(
        S3ServerSideEncryption::AwsKmsDsse.to_string(),
        "aws:kms:dsse"
    );
}

#[test]
fn encryption_as_ref_str() {
    let encryption = S3ServerSideEncryption::Aes256;
    let s: &str = encryption.as_ref();
    assert_eq!(s, "AES256");
}

#[test]
fn invalid_encryption_error_names_the_value_and_the_accepted_values() {
    let error = S3ServerSideEncryption::from_text("aes256").unwrap_err();
    assert_eq!(
        error,
        "Invalid S3 server-side encryption value: 'aes256'. Valid values are: AES256, aws:fsx, aws:kms, aws:kms:dsse"
    );
}

#[test]
fn every_encryption_value_parses_back() {
    for encryption in [
        S3ServerSideEncryption::Aes256,
        S3ServerSideEncryption::AwsFsx,
        S3ServerSideEncryption::AwsKms,
        S3ServerSideEncryption::AwsKmsDsse,
    ] {
        assert_eq!(encryption.as_str().parse(), Ok(encryption));
    }
}

fn empty_env() -> EnvValues {
    EnvValues {
        port: None,
        host: None,
        s3_access_key: None,
        s3_secret_key: None,
        s3_region: None,
        s3_endpoint: None,
        s3_use_path_style: None,
        s3_server_side_encryption: None,
        s3_bucket_name: None,
        max_payload_size_in_mb: None,
        turbo_token: None,
    }
}

#[test]
fn an_empty_environment_gives_the_defaults() {
    let settings = settings_from_env(empty_env()).ok().unwrap();
    assert_eq!(settings.port, 8000);
    assert_eq!(settings.host, "127.0.0.1");
    assert_eq!(settings.s3_region, "eu-central-1");
    assert_eq!(settings.s3_bucket_name, "turbo");
    assert_eq!(settings.max_payload_size_in_bytes, 100 * 1024 * 1024);
    assert!(!settings.s3_use_path_style);
    assert_eq!(settings.s3_server_side_encryption, None);
    assert_eq!(settings.s3_checksum_mode, S3ChecksumMode::WhenRequired);
    assert_eq!(settings.s3_access_key, None);
    assert_eq!(settings.turbo_token, None);
}

#[test]
fn the_environment_overrides_every_default() {
    let env = EnvValues {
        port: Some("9000".to_owned()),
        host: Some("0.0.0.0".to_owned()),
        s3_access_key: Some("access".to_owned()),
        s3_secret_key: Some("secret".to_owned()),
        s3_region: Some("us-east-1".to_owned()),
        s3_endpoint: Some("http://localhost:9000".to_owned()),
        s3_use_path_style: Some("1".to_owned()),
        s3_server_side_encryption: Some("aws:kms".to_owned()),
        s3_bucket_name: Some("cache".to_owned()),
        max_payload_size_in_mb: Some("2".to_owned()),
        turbo_token: Some("token".to_owned()),
    };
    let settings = settings_from_env(env).ok().unwrap();
    assert_eq!(settings.port, 9000);
    assert_eq!(settings.host, "0.0.0.0");
    assert_eq!(settings.s3_region, "us-east-1");
    assert_eq!(settings.s3_endpoint.as_deref(), Some("http://localhost:9000"));
    assert!(settings.s3_use_path_style);
    assert_eq!(settings.s3_server_side_encryption, Some(S3ServerSideEncryption::AwsKms));
    assert_eq!(settings.s3_bucket_name, "cache");
    assert_eq!(settings.max_payload_size_in_bytes, 2 * 1024 * 1024);
    assert_eq!(settings.s3_access_key.as_deref(), Some("access"));
    assert_eq!(settings.s3_secret_key.as_deref(), Some("secret"));
    assert_eq!(settings.turbo_token.as_deref(), Some("token"));
}

#[test]
fn path_style_takes_only_true_or_one() {
    let mut env = empty_env();
    env.s3_use_path_style = Some("true".to_owned());
    assert!(settings_from_env(env).ok().unwrap().s3_use_path_style);

    let mut env = empty_env();
    env.s3_use_path_style = Some("yes".to_owned());
    assert!(!settings_from_env(env).ok().unwrap().s3_use_path_style);
}

#[test]
fn an_invalid_port_is_rejected() {
    let mut env = empty_env();
    env.port = Some("70000".to_owned());
    let error = settings_from_env(env).err().unwrap();
    assert_eq!(error, SettingsError::InvalidPort("70000".to_owned()));
    assert_eq!(
        error.message(),
        "Could not read PORT from env: ParseIntError { kind: PosOverflow }"
    );
    let std_error = "70000".parse::<u16>().unwrap_err();
    assert_eq!(
        error.message(),
        format!("Could not read PORT from env: {std_error:?}")
    );
}

#[test]
fn an_invalid_encryption_is_rejected() {
    let mut env = empty_env();
    env.s3_server_side_encryption = Some("none".to_owned());
    let error = settings_from_env(env).err().unwrap();
    assert!(matches!(error, SettingsError::InvalidServerSideEncryption(_)));
    assert_eq!(
        error.message(),
        "Invalid S3_SERVER_SIDE_ENCRYPTION value: \"Invalid S3 server-side encryption value: 'none'. Valid values are: AES256, aws:fsx, aws:kms, aws:kms:dsse\""
    );
}

#[test]
fn an_invalid_payload_size_is_rejected() {
    let mut env = empty_env();
    env.max_payload_size_in_mb = Some("lots".to_owned());
    let error = settings_from_env(env).err().unwrap();
    assert_eq!(error, SettingsError::InvalidPayloadSize("lots".to_owned()));
    assert_eq!(
        error.message(),
        "Invalid value given for MAX_PAYLOAD_SIZE_IN_MB: \"lots\""
    );
}

#[test]
fn a_payload_size_beyond_usize_is_rejected() {
    let mut env = empty_env();
    let too_large = usize::MAX / (1024 * 1024) + 1;
    env.max_payload_size_in_mb = Some(too_large.to_string());
    let error = settings_from_env(env).err().unwrap();
    assert_eq!(error, SettingsError::PayloadSizeTooLarge(too_large));
}

#[test]
fn the_port_is_checked_before_the_other_values() {
    let mut env = empty_env();
    env.port = Some("x".to_owned());
    env.s3_server_side_encryption = Some("none".to_owned());
    env.max_payload_size_in_mb = Some("lots".to_owned());
    assert!(matches!(
        settings_from_env(env).err().unwrap(),
        SettingsError::InvalidPort(_)
    ));
}

#[test]
fn an_unusable_port_names_the_parse_error() {
    for (raw, kind) in [("", "Empty"), ("+", "InvalidDigit"), ("80a", "InvalidDigit"), ("999999x", "PosOverflow")] {
        let error = SettingsError::InvalidPort(raw.to_owned());
        assert_eq!(
            error.message(),
            format!("Could not read PORT from env: ParseIntError {{ kind: {kind} }}")
        );
        let std_error = raw.parse::<u16>().unwrap_err();
        assert_eq!(error.message(), format!("Could not read PORT from env: {std_error:?}"));
    }
}

#[test]
fn an_unknown_encryption_is_quoted_as_debug_prints_it() {
    let error = SettingsError::InvalidServerSideEncryption("say \"hi\"".to_owned());
    assert_eq!(
        error.message(),
        "Invalid S3_SERVER_SIDE_ENCRYPTION value: \"say \\\"hi\\\"\""
    );
}
