use lalamove::ApiEnvironment;
use lalamove::ApiEnvironmentError;
use lalamove::Config;
use lalamove::ConfigError;
use lalamove::PhilippineLanguages;
use lalamove::PhilippineMarket;

type PhConfig = Config<PhilippineMarket>;

#[test]
fn credential_environment_resolution() {
    assert_eq!(
        ApiEnvironment::from_str("abctest_xxx"),
        Ok(ApiEnvironment::Sandbox)
    );
    assert_eq!(
        ApiEnvironment::from_str("abcprod_xxx"),
        Ok(ApiEnvironment::Production)
    );
    for bad in ["", "ab", "abc", "abctes", "abcTEST_xxx", "testabc_xxx", "xyzlive_xxx"] {
        assert_eq!(
            ApiEnvironment::from_str(bad),
            Err(ApiEnvironmentError::InvalidApiKeyOrApiSecret),
            "{bad}"
        );
    }
    assert_eq!(ApiEnvironment::from_str("xyztest"), Ok(ApiEnvironment::Sandbox));
}

#[test]
fn config_takes_matching_credentials() {
    let config = PhConfig::new(
        "abctest_key".to_string(),
        "abctest_secret".to_string(),
        PhilippineLanguages::English,
    )
    .unwrap();
    assert_eq!(config.environment, ApiEnvironment::Sandbox);
    assert_eq!(config.api_key, "abctest_key");
    assert_eq!(config.api_secret, "abctest_secret");

    let config = PhConfig::new(
        "abcprod_key".to_string(),
        "abcprod_secret".to_string(),
        PhilippineLanguages::English,
    )
    .unwrap();
    assert_eq!(config.environment, ApiEnvironment::Production);
}

#[test]
fn config_rejects_mismatched_credentials() {
    let mismatched = PhConfig::new(
        "abctest_key".to_string(),
        "abcprod_secret".to_string(),
        PhilippineLanguages::English,
    );
    assert!(matches!(mismatched, Err(ConfigError::IncompatibleKeyAndSecret)));
}

#[test]
fn config_rejects_unreadable_credentials() {
    let unreadable = PhConfig::new(
        "garbage".to_string(),
        "abctest_secret".to_string(),
        PhilippineLanguages::English,
    );
    assert!(matches!(
        unreadable,
        Err(ConfigError::ApiEnvironmentError(
            ApiEnvironmentError::InvalidApiKeyOrApiSecret
        ))
    ));
}

#[test]
fn base_urls_per_environment() {
    assert_eq!(
        ApiEnvironment::Sandbox.base_url(),
        "https://rest.sandbox.lalamove.com"
    );
    assert_eq!(
        ApiEnvironment::Production.base_url(),
        "https://rest.lalamove.com"
    );
}
