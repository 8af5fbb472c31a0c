//! Process-wide settings, fixed once at start-up.

use vstd::prelude::*;
use crate::middleware::AuthMiddleware;

verus! {

/// Token lifetime when none is configured: one day.
pub const DEFAULT_TOKEN_TTL: i64 = 86400;

/// Why the settings cannot be used.
#[derive(Debug, Clone, Copy, PartialEq, Eq, Structural)]
pub enum ConfigError {
    /// No token secret was given.
    MissingSecret,
    /// The token lifetime is not a positive number of seconds.
    InvalidExpiration,
}

/// A configured lifetime that is not positive.
pub open spec fn ttl_rejected(jwt_expiration: Option<i64>) -> bool {
    match jwt_expiration {
        Some(t) => t <= 0,
        None => false,
    }
}

/// The token secret, the token lifetime in seconds, and the directory that
/// uploaded images are stored in.
#[derive(Debug, Clone)]
pub struct AppConfig {
    pub jwt_secret: String,
    pub jwt_expiration: i64,
    pub upload_dir: String,
}

impl AppConfig {
    /// Settings that tokens can be issued with.
    pub open spec fn wf(&self) -> bool {
        self.jwt_expiration > 0
    }

    /// Builds the settings: the secret is required, the lifetime defaults to
    /// a day and must be positive, the upload directory defaults to
    /// `../data/images`.
    pub fn new(jwt_secret: Option<String>, jwt_expiration: Option<i64>, upload_dir: Option<String>) -> (r:
        Result<AppConfig, ConfigError>)
        ensures
            jwt_secret is None ==> r == Err::<AppConfig, ConfigError>(ConfigError::MissingSecret),
            jwt_secret is Some && ttl_rejected(jwt_expiration) ==> r == Err::<
                AppConfig,
                ConfigError,
            >(ConfigError::InvalidExpiration),
            r matches Ok(c) ==> {
                &&& c.wf()
                &&& c.jwt_secret@ == jwt_secret->Some_0@
                &&& c.jwt_expiration == match jwt_expiration {
                    Some(t) => t,
                    None => DEFAULT_TOKEN_TTL,
                }
                &&& c.upload_dir@ == match upload_dir {
                    Some(d) => d@,
                    None => "../data/images"@,
                }
            },
            jwt_secret is Some && !ttl_rejected(jwt_expiration) ==> r is Ok,
    {
        let secret = match jwt_secret {
            Some(s) => s,
            None => {
                return Err(ConfigError::MissingSecret);
            },
        };
        let ttl = match jwt_expiration {
            Some(t) => t,
            None => DEFAULT_TOKEN_TTL,
        };
        if ttl <= 0 {
            return Err(ConfigError::InvalidExpiration);
        }
        let dir = match upload_dir {
            Some(d) => d,
            None => String::from_str("../data/images"),
        };
        Ok(AppConfig { jwt_secret: secret, jwt_expiration: ttl, upload_dir: dir })
    }

    /// The guard for protected routes, holding these settings' secret.
    pub fn auth_middleware(&self) -> (r: AuthMiddleware)
        ensures
            r.jwt_secret@ == self.jwt_secret@,
    {
        AuthMiddleware { jwt_secret: self.jwt_secret.clone() }
    }
}

} // verus!
