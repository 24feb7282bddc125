//! Why the configuration could not be loaded.

use vstd::prelude::*;

verus! {

/// Each failure of another component carries what that component said.
#[derive(Debug, Clone, PartialEq)]
pub enum ConfigError {
    EnvVarNotFound(String),
    Dotenv(String),
    ParsingError(String),
    ParseInt(String),
    InsecureJwtSecret,
    MissingDataEncryptionKey,
    Invalid(String),
    InvalidHeaderValue(String),
}

/// What the error says.
pub open spec fn config_text(e: ConfigError) -> Seq<char> {
    match e {
        ConfigError::EnvVarNotFound(m) => "Failed to load environment variable: "@ + m@,
        ConfigError::Dotenv(m) => "Error loading .env file: "@ + m@,
        ConfigError::ParsingError(m) => "Error parsing data: "@ + m@,
        ConfigError::ParseInt(m) => "Failed to parse integer: "@ + m@,
        ConfigError::InsecureJwtSecret =>
            "JWT_SECRET must be at least 32 characters long for security reasons"@,
        ConfigError::MissingDataEncryptionKey =>
            "DATA_ENCRYPTION_KEY is required: it encrypts two-factor secrets at rest. Generate one with `openssl rand -base64 32`, store it with your other secrets and never change it (stored secrets become unreadable). For local development only, ALLOW_DERIVED_DATA_KEY=true derives it from JWT_SECRET instead."@,
        ConfigError::Invalid(m) => "Invalid configuration value: "@ + m@,
        ConfigError::InvalidHeaderValue(m) => "Invalid header value: "@ + m@,
    }
}

fn with_cause(text: &str, cause: &String) -> (r: String)
    ensures
        r@ == text@ + cause@,
{
    let mut r = text.to_string();
    r.append(cause.as_str());
    r
}

impl ConfigError {
    /// What the error says.
    pub fn text(&self) -> (r: String)
        ensures
            r@ == config_text(*self),
    {
        match self {
            ConfigError::EnvVarNotFound(m) => with_cause(
                "Failed to load environment variable: ",
                m,
            ),
            ConfigError::Dotenv(m) => with_cause("Error loading .env file: ", m),
            ConfigError::ParsingError(m) => with_cause("Error parsing data: ", m),
            ConfigError::ParseInt(m) => with_cause("Failed to parse integer: ", m),
            ConfigError::InsecureJwtSecret =>
                "JWT_SECRET must be at least 32 characters long for security reasons".to_string(),
            ConfigError::MissingDataEncryptionKey =>
                "DATA_ENCRYPTION_KEY is required: it encrypts two-factor secrets at rest. Generate one with `openssl rand -base64 32`, store it with your other secrets and never change it (stored secrets become unreadable). For local development only, ALLOW_DERIVED_DATA_KEY=true derives it from JWT_SECRET instead.".to_string(),
            ConfigError::Invalid(m) => with_cause("Invalid configuration value: ", m),
            ConfigError::InvalidHeaderValue(m) => with_cause("Invalid header value: ", m),
        }
    }
}

} // verus!
