//! The service's settings, read from the environment at start-up.

use vstd::prelude::*;

use crate::decimal::{i64_from_decimal, parse_i64, parse_u64, u64_from_decimal};

verus! {

/// The token issuer named when `JWT_ISSUER` is not set.
pub open spec fn default_issuer() -> Seq<char> {
    "https//issuer.kisuke.uz"@
}

/// Settings of the service.
pub struct Config {
    pub database_url: String,
    pub jwt_secret: String,
    pub jwt_issuer: String,
    pub redis_url: String,
    pub jwt_expires_time: String,
}

/// A required setting that the environment does not hold.
#[derive(Debug, Clone, Copy, PartialEq, Eq, Structural)]
pub enum ConfigError {
    DatabaseUrl,
    JwtSecret,
    RedisUrl,
    JwtExpiresTime,
}

impl ConfigError {
    /// The name of the missing environment variable.
    pub fn variable(&self) -> (r: &'static str)
        ensures
            r@ == match *self {
                ConfigError::DatabaseUrl => "DATABASE_URL"@,
                ConfigError::JwtSecret => "JWT_SECRET"@,
                ConfigError::RedisUrl => "REDIS_URL"@,
                ConfigError::JwtExpiresTime => "JWT_EXPIRES_TIME"@,
            },
    {
        match self {
            ConfigError::DatabaseUrl => "DATABASE_URL",
            ConfigError::JwtSecret => "JWT_SECRET",
            ConfigError::RedisUrl => "REDIS_URL",
            ConfigError::JwtExpiresTime => "JWT_EXPIRES_TIME",
        }
    }

    /// The message the service stops with.
    pub fn message(&self) -> (r: String)
        ensures
            r@ == match *self {
                ConfigError::DatabaseUrl => "DATABASE_URL -> environment variable not found"@,
                ConfigError::JwtSecret => "JWT_SECRET -> environment variable not found"@,
                ConfigError::RedisUrl => "REDIS_URL -> environment variable not found"@,
                ConfigError::JwtExpiresTime => "JWT_EXPIRES_TIME -> environment variable not found"@,
            },
    {
        match self {
            ConfigError::DatabaseUrl => "DATABASE_URL -> environment variable not found".to_owned(),
            ConfigError::JwtSecret => "JWT_SECRET -> environment variable not found".to_owned(),
            ConfigError::RedisUrl => "REDIS_URL -> environment variable not found".to_owned(),
            ConfigError::JwtExpiresTime => "JWT_EXPIRES_TIME -> environment variable not found".to_owned(),
        }
    }
}

impl Config {
    /// Builds the settings from the environment's values (`None` where a
    /// variable is unset). `DATABASE_URL`, `JWT_SECRET`, `REDIS_URL` and
    /// `JWT_EXPIRES_TIME` are required, checked in that order; `JWT_ISSUER`
    /// falls back to a default.
    pub fn new(
        database_url: Option<String>,
        jwt_secret: Option<String>,
        redis_url: Option<String>,
        jwt_issuer: Option<String>,
        jwt_expires_time: Option<String>,
    ) -> (r: Result<Config, ConfigError>)
        ensures
            database_url is None ==> r == Err::<Config, ConfigError>(ConfigError::DatabaseUrl),
            database_url is Some && jwt_secret is None ==> r == Err::<Config, ConfigError>(
                ConfigError::JwtSecret,
            ),
            database_url is Some && jwt_secret is Some && redis_url is None ==> r == Err::<
                Config,
                ConfigError,
            >(ConfigError::RedisUrl),
            database_url is Some && jwt_secret is Some && redis_url is Some && jwt_expires_time is None
                ==> r == Err::<Config, ConfigError>(ConfigError::JwtExpiresTime),
            r is Ok <==> database_url is Some && jwt_secret is Some && redis_url is Some
                && jwt_expires_time is Some,
            r matches Ok(c) ==> {
                &&& c.database_url == database_url->0
                &&& c.jwt_secret == jwt_secret->0
                &&& c.redis_url == redis_url->0
                &&& c.jwt_expires_time == jwt_expires_time->0
                &&& c.jwt_issuer@ == match jwt_issuer {
                    Some(i) => i@,
                    None => default_issuer(),
                }
            },
    {
        let database_url = match database_url {
            Some(v) => v,
            None => return Err(ConfigError::DatabaseUrl),
        };
        let jwt_secret = match jwt_secret {
            Some(v) => v,
            None => return Err(ConfigError::JwtSecret),
        };
        let redis_url = match redis_url {
            Some(v) => v,
            None => return Err(ConfigError::RedisUrl),
        };
        let jwt_issuer = match jwt_issuer {
            Some(v) => v,
            None => "https//issuer.kisuke.uz".to_owned(),
        };
        let jwt_expires_time = match jwt_expires_time {
            Some(v) => v,
            None => return Err(ConfigError::JwtExpiresTime),
        };
        Ok(Config { database_url, jwt_secret, jwt_issuer, redis_url, jwt_expires_time })
    }

    /// The lifetime of an issued token in seconds, read as a signed number
    /// (`None` where `jwt_expires_time` does not write one).
    pub fn expires_secs(&self) -> (r: Option<i64>)
        ensures
            r == i64_from_decimal(self.jwt_expires_time@),
    {
        parse_i64(self.jwt_expires_time.as_str())
    }

    /// The lifetime of an issued token in seconds, read as an unsigned number.
    pub fn expires_secs_unsigned(&self) -> (r: Option<u64>)
        ensures
            r == u64_from_decimal(self.jwt_expires_time@),
    {
        parse_u64(self.jwt_expires_time.as_str())
    }
}

} // verus!
