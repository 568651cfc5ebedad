use stellar_aid::config::{read_optional_value, read_required_value, Config, ConfigError};

fn some(s: &str) -> Option<String> {
    Some(s.to_string())
}

#[test]
fn full_configuration_is_read() {
    let c = Config::from_values(some("testnet"), some("S..."), some("https://h"), some("https://r"), some("https://w"))
        .unwrap();
    assert_eq!(c.stellar_network, "testnet");
    assert_eq!(c.stellar_platform_secret, "S...");
    assert_eq!(c.horizon_url, "https://h");
    assert_eq!(c.soroban_rpc_url, "https://r");
    assert_eq!(c.webhook_url, some("https://w"));
}

#[test]
fn first_missing_or_blank_variable_is_reported() {
    assert_eq!(
        Config::from_values(None, None, some("h"), some("r"), None).unwrap_err(),
        ConfigError::MissingEnvVar("STELLAR_NETWORK")
    );
    assert_eq!(
        Config::from_values(some("n"), some("  "), None, some("r"), None).unwrap_err(),
        ConfigError::EmptyEnvVar { name: "STELLAR_PLATFORM_SECRET" }
    );
    assert_eq!(
        Config::from_values(some("n"), some("s"), some("h"), None, None).unwrap_err(),
        ConfigError::MissingEnvVar("SOROBAN_RPC_URL")
    );
}

#[test]
fn blank_optional_url_is_dropped() {
    let c = Config::from_values(some("n"), some("s"), some("h"), some("r"), some(" \t ")).unwrap();
    assert_eq!(c.webhook_url, None);
    assert_eq!(read_optional_value(None), None);
    assert_eq!(read_optional_value(some(" x ")), some(" x "));
}

#[test]
fn config_error_messages() {
    assert_eq!(
        ConfigError::MissingEnvVar("HORIZON_URL").message(),
        "missing required environment variable: HORIZON_URL"
    );
    assert_eq!(
        ConfigError::EmptyEnvVar { name: "HORIZON_URL" }.message(),
        "environment variable HORIZON_URL cannot be empty"
    );
    assert_eq!(read_required_value("X", some("")), Err(ConfigError::EmptyEnvVar { name: "X" }));
    assert_eq!(read_required_value("X", some("v")), Ok("v".to_string()));
}
