use vstd::prelude::*;

use crate::text::{is_blank, is_blank_text};

verus! {

/// The service's configuration, read from the environment.
#[derive(Debug, Clone)]
pub struct Config {
    pub stellar_network: String,
    pub stellar_platform_secret: String,
    pub horizon_url: String,
    pub soroban_rpc_url: String,
    /// Optional URL to POST `donation.confirmed` webhook events to.
    pub webhook_url: Option<String>,
}

/// Why the configuration could not be read.
#[derive(Debug, Clone, Copy, PartialEq, Eq)]
pub enum ConfigError {
    MissingEnvVar(&'static str),
    EmptyEnvVar { name: &'static str },
}

pub open spec fn config_error_text(e: ConfigError) -> Seq<char> {
    match e {
        ConfigError::MissingEnvVar(name) => "missing required environment variable: "@ + name@,
        ConfigError::EmptyEnvVar { name } => "environment variable "@ + name@ + " cannot be empty"@,
    }
}

/// What reading required variable `name` gives, when its value is `value`
/// (`None`: not set).
pub open spec fn spec_required(name: &'static str, value: Option<String>) -> Result<String, ConfigError> {
    match value {
        None => Err(ConfigError::MissingEnvVar(name)),
        Some(v) => if is_blank_text(v@) {
            Err(ConfigError::EmptyEnvVar { name })
        } else {
            Ok(v)
        },
    }
}

/// An optional variable counts only when it is not blank.
pub open spec fn spec_optional(value: Option<String>) -> Option<String> {
    match value {
        Some(v) => if is_blank_text(v@) {
            None
        } else {
            Some(v)
        },
        None => None,
    }
}

/// The configuration from the raw variable values, or the error of the
/// first required variable that is missing or blank.
pub open spec fn spec_from_values(
    stellar_network: Option<String>,
    stellar_platform_secret: Option<String>,
    horizon_url: Option<String>,
    soroban_rpc_url: Option<String>,
    webhook_url: Option<String>,
) -> Result<Config, ConfigError> {
    match spec_required("STELLAR_NETWORK", stellar_network) {
        Err(e) => Err(e),
        Ok(network) => match spec_required("STELLAR_PLATFORM_SECRET", stellar_platform_secret) {
            Err(e) => Err(e),
            Ok(secret) => match spec_required("HORIZON_URL", horizon_url) {
                Err(e) => Err(e),
                Ok(horizon) => match spec_required("SOROBAN_RPC_URL", soroban_rpc_url) {
                    Err(e) => Err(e),
                    Ok(rpc) => Ok(
                        Config {
                            stellar_network: network,
                            stellar_platform_secret: secret,
                            horizon_url: horizon,
                            soroban_rpc_url: rpc,
                            webhook_url: spec_optional(webhook_url),
                        },
                    ),
                },
            },
        },
    }
}

impl ConfigError {
    /// The error's message.
    pub fn message(&self) -> (r: String)
        ensures
            r@ == config_error_text(*self),
    {
        match self {
            ConfigError::MissingEnvVar(name) => {
                let mut s = "missing required environment variable: ".to_string();
                s.append(name);
                s
            },
            ConfigError::EmptyEnvVar { name } => {
                let mut s = "environment variable ".to_string();
                s.append(name);
                s.append(" cannot be empty");
                s
            },
        }
    }
}

/// The value of required variable `name`: refused when it is not set or blank.
pub fn read_required_value(name: &'static str, value: Option<String>) -> (r: Result<String, ConfigError>)
    ensures
        r == spec_required(name, value),
{
    match value {
        None => Err(ConfigError::MissingEnvVar(name)),
        Some(v) => {
            if is_blank(v.as_str()) {
                Err(ConfigError::EmptyEnvVar { name })
            } else {
                Ok(v)
            }
        },
    }
}

/// The value of an optional variable, dropped when blank.
pub fn read_optional_value(value: Option<String>) -> (r: Option<String>)
    ensures
        r == spec_optional(value),
{
    match value {
        Some(v) => {
            if is_blank(v.as_str()) {
                None
            } else {
                Some(v)
            }
        },
        None => None,
    }
}

impl Config {
    /// The configuration from the raw values of `STELLAR_NETWORK`,
    /// `STELLAR_PLATFORM_SECRET`, `HORIZON_URL`, `SOROBAN_RPC_URL` and
    /// `WEBHOOK_URL`; the first required variable that is missing or blank,
    /// in that order, is reported.
    pub fn from_values(
        stellar_network: Option<String>,
        stellar_platform_secret: Option<String>,
        horizon_url: Option<String>,
        soroban_rpc_url: Option<String>,
        webhook_url: Option<String>,
    ) -> (r: Result<Config, ConfigError>)
        ensures
            r == spec_from_values(stellar_network, stellar_platform_secret, horizon_url, soroban_rpc_url, webhook_url),
    {
        let stellar_network = match read_required_value("STELLAR_NETWORK", stellar_network) {
            Ok(v) => v,
            Err(e) => {
                return Err(e);
            },
        };
        let stellar_platform_secret = match read_required_value("STELLAR_PLATFORM_SECRET", stellar_platform_secret) {
            Ok(v) => v,
            Err(e) => {
                return Err(e);
            },
        };
        let horizon_url = match read_required_value("HORIZON_URL", horizon_url) {
            Ok(v) => v,
            Err(e) => {
                return Err(e);
            },
        };
        let soroban_rpc_url = match read_required_value("SOROBAN_RPC_URL", soroban_rpc_url) {
            Ok(v) => v,
            Err(e) => {
                return Err(e);
            },
        };
        Ok(
            Config {
                stellar_network,
                stellar_platform_secret,
                horizon_url,
                soroban_rpc_url,
                webhook_url: read_optional_value(webhook_url),
            },
        )
    }
}

/// A value that counts: set and not blank.
pub open spec fn present(value: Option<String>) -> bool {
    value matches Some(v) && !is_blank_text(v@)
}

/// The configuration is read exactly when every required value is set and
/// not blank; it then holds those values as given, and the webhook URL when
/// that one counts.
pub proof fn law_config_needs_every_required_value(
    stellar_network: Option<String>,
    stellar_platform_secret: Option<String>,
    horizon_url: Option<String>,
    soroban_rpc_url: Option<String>,
    webhook_url: Option<String>,
)
    ensures
        spec_from_values(stellar_network, stellar_platform_secret, horizon_url, soroban_rpc_url, webhook_url) is Ok
            <==> (present(stellar_network) && present(stellar_platform_secret) && present(horizon_url) && present(
            soroban_rpc_url,
        )),
        spec_from_values(stellar_network, stellar_platform_secret, horizon_url, soroban_rpc_url, webhook_url) matches Ok(
            cfg,
        ) ==> {
            &&& Some(cfg.stellar_network) == stellar_network
            &&& Some(cfg.stellar_platform_secret) == stellar_platform_secret
            &&& Some(cfg.horizon_url) == horizon_url
            &&& Some(cfg.soroban_rpc_url) == soroban_rpc_url
            &&& cfg.webhook_url == (if present(webhook_url) { webhook_url } else { None })
        },
{
}

} // verus!
