//! The configuration of the process: read once at start, then only handed on.

use vstd::prelude::*;
use vstd::string::*;
use crate::account::opt_view;
use crate::text::{joined, decimal, parse_i64, parse_u16, signed_value, u64_to_decimal, unsigned_value};

verus! {

/// The settings that the core and the server around it run with.
#[derive(Clone, Debug)]
pub struct Config {
    pub database_url: String,
    pub host: String,
    pub port: u16,
    /// The key that session tokens are signed with.
    pub jwt_secret: String,
    /// The lifetime of a session token, in seconds.
    pub jwt_expiration: i64,
    /// Where the result of a federated login is delivered.
    pub frontend_url: String,
    pub environment: String,
}

/// A [`Config`] as a mathematical value.
pub struct ConfigView {
    pub database_url: Seq<char>,
    pub host: Seq<char>,
    pub port: u16,
    pub jwt_secret: Seq<char>,
    pub jwt_expiration: i64,
    pub frontend_url: Seq<char>,
    pub environment: Seq<char>,
}

impl View for Config {
    type V = ConfigView;

    open spec fn view(&self) -> ConfigView {
        ConfigView {
            database_url: self.database_url@,
            host: self.host@,
            port: self.port,
            jwt_secret: self.jwt_secret@,
            jwt_expiration: self.jwt_expiration,
            frontend_url: self.frontend_url@,
            environment: self.environment@,
        }
    }
}

/// The variables of the environment that the configuration is made of, each
/// one set or not.
#[derive(Clone, Debug)]
pub struct EnvVars {
    /// `DATABASE_URL`
    pub database_url: Option<String>,
    /// `HOST`
    pub host: Option<String>,
    /// `PORT`
    pub port: Option<String>,
    /// `JWT_SECRET`
    pub jwt_secret: Option<String>,
    /// `JWT_EXPIRATION`
    pub jwt_expiration: Option<String>,
    /// `FRONTEND_URL`
    pub frontend_url: Option<String>,
    /// `ENVIRONMENT`
    pub environment: Option<String>,
}

/// [`EnvVars`] as a mathematical value.
pub struct EnvVarsView {
    pub database_url: Option<Seq<char>>,
    pub host: Option<Seq<char>>,
    pub port: Option<Seq<char>>,
    pub jwt_secret: Option<Seq<char>>,
    pub jwt_expiration: Option<Seq<char>>,
    pub frontend_url: Option<Seq<char>>,
    pub environment: Option<Seq<char>>,
}

impl View for EnvVars {
    type V = EnvVarsView;

    open spec fn view(&self) -> EnvVarsView {
        EnvVarsView {
            database_url: opt_view(self.database_url),
            host: opt_view(self.host),
            port: opt_view(self.port),
            jwt_secret: opt_view(self.jwt_secret),
            jwt_expiration: opt_view(self.jwt_expiration),
            frontend_url: opt_view(self.frontend_url),
            environment: opt_view(self.environment),
        }
    }
}

/// Why the environment gives no configuration.
#[derive(Clone, Copy, Debug, PartialEq, Eq, Structural)]
pub enum ConfigError {
    /// `DATABASE_URL` is not set.
    MissingDatabaseUrl,
    /// `PORT` is not a number from 0 to 65535.
    InvalidPort,
    /// `JWT_SECRET` is not set.
    MissingJwtSecret,
    /// `JWT_EXPIRATION` is not a number that fits in 64 bits.
    InvalidJwtExpiration,
}

/// The value of a variable, or `default` where it is not set.
pub open spec fn or_default(value: Option<Seq<char>>, default: Seq<char>) -> Seq<char> {
    match value {
        Some(v) => v,
        None => default,
    }
}

/// The port that `PORT` denotes; 8000 where it is not set.
pub open spec fn port_of(value: Option<Seq<char>>) -> Option<u16> {
    match value {
        None => Some(8000u16),
        Some(text) => match unsigned_value(text) {
            Some(v) if v <= u16::MAX => Some(v as u16),
            _ => None,
        },
    }
}

/// The token lifetime that `JWT_EXPIRATION` denotes; 24 hours where it is not set.
pub open spec fn expiration_of(value: Option<Seq<char>>) -> Option<i64> {
    match value {
        None => Some(86400i64),
        Some(text) => match signed_value(text) {
            Some(v) if i64::MIN <= v <= i64::MAX => Some(v as i64),
            _ => None,
        },
    }
}

/// The configuration that the variables `vars` give. The first fault, in the
/// order database URL, port, secret, lifetime, is the one reported.
pub open spec fn config_of(vars: EnvVarsView) -> Result<ConfigView, ConfigError> {
    if vars.database_url is None {
        Err(ConfigError::MissingDatabaseUrl)
    } else if port_of(vars.port) is None {
        Err(ConfigError::InvalidPort)
    } else if vars.jwt_secret is None {
        Err(ConfigError::MissingJwtSecret)
    } else if expiration_of(vars.jwt_expiration) is None {
        Err(ConfigError::InvalidJwtExpiration)
    } else {
        Ok(
            ConfigView {
                database_url: vars.database_url->0,
                host: or_default(vars.host, "127.0.0.1"@),
                port: port_of(vars.port)->0,
                jwt_secret: vars.jwt_secret->0,
                jwt_expiration: expiration_of(vars.jwt_expiration)->0,
                frontend_url: or_default(vars.frontend_url, "http://localhost:5173"@),
                environment: or_default(vars.environment, "development"@),
            },
        )
    }
}

/// The view of a result that holds a configuration.
pub open spec fn config_result(r: Result<Config, ConfigError>) -> Result<ConfigView, ConfigError> {
    match r {
        Ok(c) => Ok(c@),
        Err(e) => Err(e),
    }
}

fn value_or(value: Option<String>, default: &str) -> (r: String)
    ensures
        r@ == or_default(opt_view(value), default@),
{
    match value {
        Some(v) => v,
        None => default.to_string(),
    }
}

impl Config {
    /// Builds the configuration from the environment's variables. The
    /// database URL and the signing secret must be set; the host, the port,
    /// the token lifetime, the frontend URL and the environment's name have
    /// defaults.
    pub fn from_env(vars: EnvVars) -> (r: Result<Config, ConfigError>)
        ensures
            config_result(r) == config_of(vars@),
    {
        let database_url = match vars.database_url {
            Some(url) => url,
            None => {
                return Err(ConfigError::MissingDatabaseUrl);
            },
        };
        let port: u16 = match &vars.port {
            None => 8000,
            Some(text) => match parse_u16(text.as_str()) {
                Some(port) => port,
                None => {
                    return Err(ConfigError::InvalidPort);
                },
            },
        };
        let jwt_secret = match vars.jwt_secret {
            Some(secret) => secret,
            None => {
                return Err(ConfigError::MissingJwtSecret);
            },
        };
        let jwt_expiration: i64 = match &vars.jwt_expiration {
            None => 86400,
            Some(text) => match parse_i64(text.as_str()) {
                Some(seconds) => seconds,
                None => {
                    return Err(ConfigError::InvalidJwtExpiration);
                },
            },
        };
        Ok(
            Config {
                database_url,
                host: value_or(vars.host, "127.0.0.1"),
                port,
                jwt_secret,
                jwt_expiration,
                frontend_url: value_or(vars.frontend_url, "http://localhost:5173"),
                environment: value_or(vars.environment, "development"),
            },
        )
    }

    /// The address to listen on: the host, a colon, and the port in decimal.
    pub fn server_address(&self) -> (r: String)
        ensures
            r@ == self.host@ + seq![':'] + decimal(self.port as nat),
    {
        let port = u64_to_decimal(self.port as u64);
        let mut r = joined(self.host.as_str(), ":");
        r.append(port.as_str());
        proof {
            reveal_strlit(":");
            assert(":"@ =~= seq![':']);
        }
        r
    }
}

} // verus!
