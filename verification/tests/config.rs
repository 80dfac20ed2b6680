use uploader::config::{Config, ConfigError};

#[test]
fn config_with_both_values_succeeds() {
    let r = Config::new(Some("t".to_string()), Some("a".to_string()));
    match r {
        Ok(config) => {
            assert_eq!(config.token, "t");
            assert_eq!(config.account_id, "a");
        }
        Err(_) => panic!("both values are present"),
    }
}

#[test]
fn config_without_token_fails() {
    let r = Config::new(None, Some("a".to_string()));
    assert_eq!(r.err(), Some(ConfigError::MissingToken));
}

#[test]
fn config_without_account_id_fails() {
    let r = Config::new(Some("t".to_string()), None);
    assert_eq!(r.err(), Some(ConfigError::MissingAccountId));
}

#[test]
fn config_without_either_value_fails() {
    let r = Config::new(None, None);
    assert!(r.is_err());
}
