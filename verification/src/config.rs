//! Settings the server runs with, read from the environment by the caller
//! and resolved here with their defaults.
use vstd::prelude::*;

verus! {

/// The server's settings.
#[derive(Debug, Clone)]
pub struct Config {
    pub mongo_uri: String,
    pub jwt_secret: String,
    /// Whether the refresh cookie is `Secure`; on unless set to `false`
    /// (plain-HTTP development).
    pub cookie_secure: bool,
    /// The origin allowed to make credentialed cross-origin requests.
    pub frontend_origin: String,
    /// Without it the AI endpoints fail per request; the rest works.
    pub gemini_api_key: Option<String>,
}

/// A required setting that is absent.
#[derive(Debug, Clone, Copy, PartialEq, Eq, Structural)]
pub enum ConfigError {
    MissingMongoUri,
    MissingJwtSecret,
}

/// The origin used when none is configured.
pub const DEFAULT_FRONTEND_ORIGIN: &'static str = "http://localhost:5173";

/// `COOKIE_SECURE` turns the `Secure` attribute off only with the exact
/// value `false`.
pub open spec fn cookie_secure_from(value: Option<Seq<char>>) -> bool {
    match value {
        Some(v) => v != "false"@,
        None => true,
    }
}

impl Config {
    /// The settings from the environment's values (`None` for an unset or
    /// unreadable variable): the database URI and the token secret are
    /// required, the rest have defaults.
    pub fn from_values(
        mongo_uri: Option<String>,
        jwt_secret: Option<String>,
        cookie_secure: Option<String>,
        frontend_origin: Option<String>,
        gemini_api_key: Option<String>,
    ) -> (r: Result<Config, ConfigError>)
        ensures
            mongo_uri is None ==> r == Err::<Config, ConfigError>(ConfigError::MissingMongoUri),
            mongo_uri is Some && jwt_secret is None ==> r == Err::<Config, ConfigError>(
                ConfigError::MissingJwtSecret,
            ),
            r is Ok <==> (mongo_uri is Some && jwt_secret is Some),
            r matches Ok(c) ==> {
                &&& Some(c.mongo_uri) == mongo_uri
                &&& Some(c.jwt_secret) == jwt_secret
                &&& c.cookie_secure == cookie_secure_from(
                    match cookie_secure {
                        Some(v) => Some(v@),
                        None => None,
                    },
                )
                &&& c.frontend_origin@ == match frontend_origin {
                    Some(o) => o@,
                    None => "http://localhost:5173"@,
                }
                &&& c.gemini_api_key == gemini_api_key
            },
    {
        let mongo_uri = match mongo_uri {
            Some(v) => v,
            None => return Err(ConfigError::MissingMongoUri),
        };
        let jwt_secret = match jwt_secret {
            Some(v) => v,
            None => return Err(ConfigError::MissingJwtSecret),
        };
        let off = "false".to_string();
        let cookie_secure = match cookie_secure {
            Some(v) => v != off,
            None => true,
        };
        let frontend_origin = match frontend_origin {
            Some(o) => o,
            None => DEFAULT_FRONTEND_ORIGIN.to_string(),
        };
        Ok(Config { mongo_uri, jwt_secret, cookie_secure, frontend_origin, gemini_api_key })
    }

    /// Where the server listens.
    pub fn bind_address(&self) -> (s: String)
        ensures
            s@ == "127.0.0.1:8080"@,
    {
        "127.0.0.1:8080".to_string()
    }
}

} // verus!
