//! Startup configuration: the API token and the account identifier.
//!
//! Both values are mandatory. The process environment is read by the
//! application, which hands the two optional values to `Config::new`; the
//! validation itself is verified here.

use vstd::prelude::*;

verus! {

/// Why a configuration could not be produced.
#[derive(Clone, Debug, PartialEq, Eq)]
pub enum ConfigError {
    /// The API token was not provided.
    MissingToken,
    /// The account identifier was not provided.
    MissingAccountId,
}

/// The two credentials every run needs: an API token and an account
/// identifier.
#[derive(Clone, Debug)]
pub struct Config {
    pub token: String,
    pub account_id: String,
}

impl Config {
    /// Validates the two values read from the environment. Succeeds exactly
    /// when both are present; a missing token is reported before a missing
    /// account identifier.
    pub fn new(token: Option<String>, account_id: Option<String>) -> (r: Result<Config, ConfigError>)
        ensures
            r is Ok <==> (token is Some && account_id is Some),
            token is Some && account_id is Some ==> (r == Ok::<Config, ConfigError>(Config {
                token: token->0,
                account_id: account_id->0,
            })),
            token is None ==> r == Err::<Config, ConfigError>(ConfigError::MissingToken),
            token is Some && account_id is None ==> r == Err::<Config, ConfigError>(
                ConfigError::MissingAccountId,
            ),
    {
        match (token, account_id) {
            (Some(token), Some(account_id)) => Ok(Config { token, account_id }),
            (None, _) => Err(ConfigError::MissingToken),
            (Some(_), None) => Err(ConfigError::MissingAccountId),
        }
    }
}

} // verus!
