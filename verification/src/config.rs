//! Process-wide configuration: the signing secret and the token
//! lifetime, loaded once at startup and immutable afterwards.
//!
//! The values arrive from the process environment (read outside this
//! library) and are validated here: every variable is required, and the
//! token lifetime must read as a positive integer number of seconds.  A
//! validation failure means the process refuses to start; configuration
//! problems are never visible as a runtime response.

use vstd::prelude::*;

use crate::errors::ConfigError;
use crate::text::spec_parse_u64;
use crate::text::parse_u64;

verus! {

/// Immutable process configuration, shared read-only by the token issuer
/// and validator.
#[derive(Debug)]
pub struct Config {
    /// Secret key for signing and checking bearer tokens.
    pub jwt_secret: String,
    /// Lifetime of an issued token, in seconds.
    pub jwt_expiration: u64,
    /// Connection string of the backing database (used outside this
    /// library; carried here because it is part of the one startup
    /// configuration value).
    pub db_url: String,
    /// Name of the backing database.
    pub db_name: String,
}

impl Clone for Config {
    /// Clones the configuration, field for field.
    fn clone(&self) -> (r: Self)
        ensures
            r == *self,
    {
        Config {
            jwt_secret: self.jwt_secret.clone(),
            jwt_expiration: self.jwt_expiration,
            db_url: self.db_url.clone(),
            db_name: self.db_name.clone(),
        }
    }
}

impl Config {
    /// A usable configuration: tokens must expire strictly after their
    /// issuance time, so the lifetime is positive.
    pub open spec fn wf(&self) -> bool {
        self.jwt_expiration >= 1
    }

    /// Whether the raw variable values constitute a valid configuration.
    pub open spec fn spec_valid_values(
        jwt_secret: Option<String>,
        jwt_expiration: Option<String>,
        db_url: Option<String>,
        db_name: Option<String>,
    ) -> Option<ConfigError> {
        if jwt_secret is None || jwt_expiration is None || db_url is None || db_name is None {
            Some(ConfigError::MissingVar)
        } else if spec_parse_u64(jwt_expiration->0@) matches Some(ttl) && ttl >= 1 {
            None
        } else {
            Some(ConfigError::ParseFailure)
        }
    }

    /// Validates the raw values of the required configuration variables.
    ///
    /// Every variable must be present, and the expiration must read as a
    /// positive decimal number of seconds; the error says which of the
    /// two requirements failed.  On success the configuration carries the
    /// values unchanged and is well-formed.
    pub fn from_values(
        jwt_secret: Option<String>,
        jwt_expiration: Option<String>,
        db_url: Option<String>,
        db_name: Option<String>,
    ) -> (r: Result<Config, ConfigError>)
        ensures
            match r {
                Ok(c) => {
                    &&& Self::spec_valid_values(jwt_secret, jwt_expiration, db_url, db_name)
                        is None
                    &&& c.jwt_secret == jwt_secret->0
                    &&& Some(c.jwt_expiration) == spec_parse_u64(jwt_expiration->0@)
                    &&& c.db_url == db_url->0
                    &&& c.db_name == db_name->0
                    &&& c.wf()
                },
                Err(e) => Self::spec_valid_values(jwt_secret, jwt_expiration, db_url, db_name)
                    == Some(e),
            },
    {
        let (secret, expiration, url, name) = match (jwt_secret, jwt_expiration, db_url, db_name) {
            (Some(s), Some(e), Some(u), Some(n)) => (s, e, u, n),
            _ => {
                return Err(ConfigError::MissingVar);
            },
        };
        match parse_u64(expiration.as_str()) {
            Some(ttl) => {
                if ttl >= 1 {
                    Ok(
                        Config {
                            jwt_secret: secret,
                            jwt_expiration: ttl,
                            db_url: url,
                            db_name: name,
                        },
                    )
                } else {
                    Err(ConfigError::ParseFailure)
                }
            },
            None => Err(ConfigError::ParseFailure),
        }
    }
}

} // verus!
