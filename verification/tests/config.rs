use notes::config::{Config, ConfigError};

fn s(v: &str) -> Option<String> {
    Some(v.to_string())
}

#[test]
fn config_from_complete_environment() {
    let c = Config::new(s("sqlite://notes.db"), s("k"), s("redis://localhost"), s("me"), s("3600")).unwrap();
    assert_eq!(c.database_url, "sqlite://notes.db");
    assert_eq!(c.jwt_secret, "k");
    assert_eq!(c.redis_url, "redis://localhost");
    assert_eq!(c.jwt_issuer, "me");
    assert_eq!(c.jwt_expires_time, "3600");
}

#[test]
fn config_issuer_defaults() {
    let c = Config::new(s("db"), s("k"), s("r"), None, s("60")).unwrap();
    assert_eq!(c.jwt_issuer, "https//issuer.kisuke.uz");
}

#[test]
fn config_missing_variables_in_order() {
    assert_eq!(Config::new(None, None, None, None, None).err(), Some(ConfigError::DatabaseUrl));
    assert_eq!(Config::new(s("db"), None, None, None, None).err(), Some(ConfigError::JwtSecret));
    assert_eq!(Config::new(s("db"), s("k"), None, None, None).err(), Some(ConfigError::RedisUrl));
    assert_eq!(Config::new(s("db"), s("k"), s("r"), s("i"), None).err(), Some(ConfigError::JwtExpiresTime));
}

#[test]
fn config_error_messages() {
    assert_eq!(ConfigError::DatabaseUrl.message(), "DATABASE_URL -> environment variable not found");
    assert_eq!(ConfigError::JwtSecret.message(), "JWT_SECRET -> environment variable not found");
    assert_eq!(ConfigError::RedisUrl.message(), "REDIS_URL -> environment variable not found");
    assert_eq!(ConfigError::JwtExpiresTime.message(), "JWT_EXPIRES_TIME -> environment variable not found");
    assert_eq!(ConfigError::RedisUrl.variable(), "REDIS_URL");
}

#[test]
fn config_expiry_read_as_number() {
    let c = Config::new(s("db"), s("k"), s("r"), None, s("3600")).unwrap();
    assert_eq!(c.expires_secs(), Some(3600));
    assert_eq!(c.expires_secs_unsigned(), Some(3600));
    let c = Config::new(s("db"), s("k"), s("r"), None, s("one hour")).unwrap();
    assert_eq!(c.expires_secs(), None);
    assert_eq!(c.expires_secs_unsigned(), None);
    let c = Config::new(s("db"), s("k"), s("r"), None, s("-5")).unwrap();
    assert_eq!(c.expires_secs(), Some(-5));
    assert_eq!(c.expires_secs_unsigned(), None);
}
