use backend::config::{Config, ConfigError, EnvVars};

fn vars() -> EnvVars {
    EnvVars {
        database_url: Some("postgres://localhost/app".to_string()),
        host: None,
        port: None,
        jwt_secret: Some("secret".to_string()),
        jwt_expiration: None,
        frontend_url: None,
        environment: None,
    }
}

#[test]
fn defaults_apply_where_a_variable_is_not_set() {
    let config = Config::from_env(vars()).unwrap();
    assert_eq!(config.database_url, "postgres://localhost/app");
    assert_eq!(config.host, "127.0.0.1");
    assert_eq!(config.port, 8000);
    assert_eq!(config.jwt_secret, "secret");
    assert_eq!(config.jwt_expiration, 86400);
    assert_eq!(config.frontend_url, "http://localhost:5173");
    assert_eq!(config.environment, "development");
}

#[test]
fn server_address_joins_host_and_port() {
    let mut v = vars();
    v.host = Some("0.0.0.0".to_string());
    v.port = Some("3000".to_string());
    let config = Config::from_env(v).unwrap();
    assert_eq!(config.server_address(), "0.0.0.0:3000");
}

#[test]
fn server_address_of_the_defaults() {
    let config = Config::from_env(vars()).unwrap();
    assert_eq!(config.server_address(), "127.0.0.1:8000");
}

#[test]
fn missing_database_url_is_reported_first() {
    let mut v = vars();
    v.database_url = None;
    v.port = Some("not a port".to_string());
    assert_eq!(Config::from_env(v).unwrap_err(), ConfigError::MissingDatabaseUrl);
}

#[test]
fn port_must_fit_in_sixteen_bits() {
    let mut v = vars();
    v.port = Some("65535".to_string());
    assert_eq!(Config::from_env(v).unwrap().port, 65535);
    let mut v = vars();
    v.port = Some("65536".to_string());
    assert_eq!(Config::from_env(v).unwrap_err(), ConfigError::InvalidPort);
    let mut v = vars();
    v.port = Some("-1".to_string());
    assert_eq!(Config::from_env(v).unwrap_err(), ConfigError::InvalidPort);
    let mut v = vars();
    v.port = Some("".to_string());
    assert_eq!(Config::from_env(v).unwrap_err(), ConfigError::InvalidPort);
    let mut v = vars();
    v.port = Some("+0080".to_string());
    assert_eq!(Config::from_env(v).unwrap().port, 80);
}

#[test]
fn missing_secret_is_reported() {
    let mut v = vars();
    v.jwt_secret = None;
    assert_eq!(Config::from_env(v).unwrap_err(), ConfigError::MissingJwtSecret);
}

#[test]
fn expiration_is_a_signed_number_of_seconds() {
    let mut v = vars();
    v.jwt_expiration = Some("3600".to_string());
    assert_eq!(Config::from_env(v).unwrap().jwt_expiration, 3600);
    let mut v = vars();
    v.jwt_expiration = Some("-9223372036854775808".to_string());
    assert_eq!(Config::from_env(v).unwrap().jwt_expiration, i64::MIN);
    let mut v = vars();
    v.jwt_expiration = Some("9223372036854775808".to_string());
    assert_eq!(Config::from_env(v).unwrap_err(), ConfigError::InvalidJwtExpiration);
    let mut v = vars();
    v.jwt_expiration = Some("1h".to_string());
    assert_eq!(Config::from_env(v).unwrap_err(), ConfigError::InvalidJwtExpiration);
}
