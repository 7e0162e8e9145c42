//! Startup configuration: the five required values and their validation.
//!
//! The gateway refuses to serve traffic unless every value is present and
//! non-empty; validation happens once, eagerly, and returns a structured
//! error naming the first value that is missing.

use vstd::prelude::*;

verus! {

/// Which required configuration value is missing or empty. Values are
/// checked in the order they are listed here.
#[derive(Clone, Copy, Debug, PartialEq, Eq, Structural)]
pub enum ConfigError {
    MissingRegion,
    MissingEndpoint,
    MissingAccessKeyId,
    MissingSecretAccessKey,
    MissingBucketName,
}

/// The startup diagnostic that belongs to each missing value, naming the
/// environment variable that supplies it.
pub open spec fn spec_config_error_message(e: ConfigError) -> Seq<char> {
    match e {
        ConfigError::MissingRegion => "cannot find REGION env"@,
        ConfigError::MissingEndpoint => "cannot find ENDPOINT env"@,
        ConfigError::MissingAccessKeyId => "cannot find AWS3_CRED_KEY_ID env"@,
        ConfigError::MissingSecretAccessKey => "cannot find AWS3_CRED_KEY_SECRET env"@,
        ConfigError::MissingBucketName => "cannot find BUCKET_NAME env"@,
    }
}

impl ConfigError {
    /// The startup diagnostic for this missing value.
    pub fn message(&self) -> (r: &'static str)
        ensures
            r@ == spec_config_error_message(*self),
    {
        match self {
            ConfigError::MissingRegion => "cannot find REGION env",
            ConfigError::MissingEndpoint => "cannot find ENDPOINT env",
            ConfigError::MissingAccessKeyId => "cannot find AWS3_CRED_KEY_ID env",
            ConfigError::MissingSecretAccessKey => "cannot find AWS3_CRED_KEY_SECRET env",
            ConfigError::MissingBucketName => "cannot find BUCKET_NAME env",
        }
    }
}

/// A configuration value is usable when it was supplied and is non-empty.
pub open spec fn value_present(v: Option<String>) -> bool {
    v matches Some(s) && s@.len() > 0
}

/// The validated, immutable configuration of the gateway: all five values
/// are non-empty strings.
#[derive(Debug)]
pub struct Config {
    pub region: String,
    pub endpoint: String,
    pub access_key_id: String,
    pub secret_access_key: String,
    pub bucket_name: String,
}

impl Config {
    /// Well-formedness: every configuration value is non-empty.
    pub open spec fn wf(&self) -> bool {
        &&& self.region@.len() > 0
        &&& self.endpoint@.len() > 0
        &&& self.access_key_id@.len() > 0
        &&& self.secret_access_key@.len() > 0
        &&& self.bucket_name@.len() > 0
    }

    /// Validates the five configuration values once, eagerly. Succeeds
    /// exactly when every value is present and non-empty, and then carries
    /// the values through unchanged; otherwise names the first missing
    /// value, in the order region, endpoint, access key id, secret access
    /// key, bucket name.
    pub fn from_values(
        region: Option<String>,
        endpoint: Option<String>,
        access_key_id: Option<String>,
        secret_access_key: Option<String>,
        bucket_name: Option<String>,
    ) -> (r: Result<Config, ConfigError>)
        ensures
            r is Ok <==> {
                &&& value_present(region)
                &&& value_present(endpoint)
                &&& value_present(access_key_id)
                &&& value_present(secret_access_key)
                &&& value_present(bucket_name)
            },
            r matches Ok(c) ==> {
                &&& c.region == region.unwrap()
                &&& c.endpoint == endpoint.unwrap()
                &&& c.access_key_id == access_key_id.unwrap()
                &&& c.secret_access_key == secret_access_key.unwrap()
                &&& c.bucket_name == bucket_name.unwrap()
                &&& c.wf()
            },
            !value_present(region) ==> r == Err::<Config, ConfigError>(ConfigError::MissingRegion),
            value_present(region) && !value_present(endpoint) ==> r == Err::<
                Config,
                ConfigError,
            >(ConfigError::MissingEndpoint),
            value_present(region) && value_present(endpoint) && !value_present(access_key_id)
                ==> r == Err::<Config, ConfigError>(ConfigError::MissingAccessKeyId),
            value_present(region) && value_present(endpoint) && value_present(access_key_id)
                && !value_present(secret_access_key) ==> r == Err::<
                Config,
                ConfigError,
            >(ConfigError::MissingSecretAccessKey),
            value_present(region) && value_present(endpoint) && value_present(access_key_id)
                && value_present(secret_access_key) && !value_present(bucket_name) ==> r == Err::<
                Config,
                ConfigError,
            >(ConfigError::MissingBucketName),
    {
        let region = match take_present(region) {
            Some(s) => s,
            None => { return Err(ConfigError::MissingRegion) },
        };
        let endpoint = match take_present(endpoint) {
            Some(s) => s,
            None => { return Err(ConfigError::MissingEndpoint) },
        };
        let access_key_id = match take_present(access_key_id) {
            Some(s) => s,
            None => { return Err(ConfigError::MissingAccessKeyId) },
        };
        let secret_access_key = match take_present(secret_access_key) {
            Some(s) => s,
            None => { return Err(ConfigError::MissingSecretAccessKey) },
        };
        let bucket_name = match take_present(bucket_name) {
            Some(s) => s,
            None => { return Err(ConfigError::MissingBucketName) },
        };
        Ok(Config { region, endpoint, access_key_id, secret_access_key, bucket_name })
    }
}

/// Hands the value through exactly when it is present and non-empty.
pub(crate) fn take_present(v: Option<String>) -> (r: Option<String>)
    ensures
        value_present(v) <==> r is Some,
        r matches Some(s) ==> v == Some(s) && s@.len() > 0,
{
    match v {
        Some(s) => {
            if s.as_str().is_empty() {
                None
            } else {
                Some(s)
            }
        },
        None => None,
    }
}

} // verus!
