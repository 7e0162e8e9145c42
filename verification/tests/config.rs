use upload_gateway::config::{Config, ConfigError};

fn full() -> [Option<String>; 5] {
    [
        Some(String::from("us-east-1")),
        Some(String::from("http://localhost:9000")),
        Some(String::from("minio")),
        Some(String::from("SECRET-REDACTED")),
        Some(String::from("files")),
    ]
}

fn run(values: [Option<String>; 5]) -> Result<Config, ConfigError> {
    let [region, endpoint, key_id, secret, bucket] = values;
    Config::from_values(region, endpoint, key_id, secret, bucket)
}

#[test]
fn complete_configuration_is_accepted() {
    let c = run(full()).unwrap();
    assert_eq!(c.region, "us-east-1");
    assert_eq!(c.endpoint, "http://localhost:9000");
    assert_eq!(c.access_key_id, "minio");
    assert_eq!(c.secret_access_key, "SECRET-REDACTED");
    assert_eq!(c.bucket_name, "files");
}

#[test]
fn each_missing_value_is_named() {
    for (index, expected) in [
        ConfigError::MissingRegion,
        ConfigError::MissingEndpoint,
        ConfigError::MissingAccessKeyId,
        ConfigError::MissingSecretAccessKey,
        ConfigError::MissingBucketName,
    ]
    .into_iter()
    .enumerate()
    {
        let mut values = full();
        values[index] = None;
        assert_eq!(run(values).unwrap_err(), expected);
    }
}

#[test]
fn empty_value_counts_as_missing() {
    let mut values = full();
    values[1] = Some(String::new());
    assert_eq!(run(values).unwrap_err(), ConfigError::MissingEndpoint);
}

#[test]
fn first_missing_value_wins() {
    let mut values = full();
    values[0] = None;
    values[3] = None;
    assert_eq!(run(values).unwrap_err(), ConfigError::MissingRegion);
}

#[test]
fn error_messages_name_the_environment_variable() {
    assert_eq!(ConfigError::MissingRegion.message(), "cannot find REGION env");
    assert_eq!(ConfigError::MissingEndpoint.message(), "cannot find ENDPOINT env");
    assert_eq!(ConfigError::MissingAccessKeyId.message(), "cannot find AWS3_CRED_KEY_ID env");
    assert_eq!(
        ConfigError::MissingSecretAccessKey.message(),
        "cannot find AWS3_CRED_KEY_SECRET env"
    );
    assert_eq!(ConfigError::MissingBucketName.message(), "cannot find BUCKET_NAME env");
}
