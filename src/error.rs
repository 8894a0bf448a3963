//! The kinds of failure the library reports.
use vstd::prelude::*;

verus! {

#[verifier::external_type_specification]
#[verifier::external_body]
pub struct ExReqwestError(reqwest::Error);

#[verifier::external_type_specification]
#[verifier::external_body]
pub struct ExIoError(std::io::Error);

#[verifier::external_type_specification]
#[verifier::external_body]
pub struct ExInvalidHeaderName(reqwest::header::InvalidHeaderName);

#[verifier::external_type_specification]
#[verifier::external_body]
pub struct ExInvalidHeaderValue(reqwest::header::InvalidHeaderValue);

pub type CoreResult<T> = Result<T, CoreError>;

/// Every failure of the library, by kind.
#[derive(Debug)]
pub enum CoreError {
    /// The bridge could not be reached.
    Network(reqwest::Error),
    /// A body was not JSON, or not JSON of the expected shape.
    Serialization(serde_json::Error),
    /// Reading, writing or creating a directory failed.
    FileHandlerError(std::io::Error),
    /// The bridge reported an error entry.
    Bridge(HueBridgeError),
    /// The configuration store failed above the file layer.
    Config(ConfigError),
    /// A header name is not an HTTP token.
    InvalidReqwestHeaderName(reqwest::header::InvalidHeaderName),
    /// A header value holds a byte that HTTP does not allow there.
    InvalidReqwestHeaderValue(reqwest::header::InvalidHeaderValue),
    /// A well-formed answer that holds nothing usable.
    UnexpectedResponse(String),
}

#[derive(Debug, Clone, Copy, PartialEq, Eq, Structural)]
pub enum ConfigError {
    ConfigDirectoryNotFoundError,
    ConfigDirectoryCreateError,
    ConfigPathInvalidError,
}

#[derive(Debug)]
pub enum HueBridgeError {
    /// The link button must be pressed before a user can be created.
    LinkButtonNotPressed,
    LightNotFound,
    UnauthorizedUser,
    UnexpectedJSON,
    /// Any other error type code, with the bridge's description.
    Other { code: String, message: String },
}

impl ConfigError {
    /// A sentence that describes the error.
    pub fn message(&self) -> (r: &'static str)
        ensures
            r@ == match self {
                ConfigError::ConfigDirectoryNotFoundError => "config directory not found"@,
                ConfigError::ConfigDirectoryCreateError => "failed to create config directory"@,
                ConfigError::ConfigPathInvalidError => "config path was invalid"@,
            },
    {
        match self {
            ConfigError::ConfigDirectoryNotFoundError => "config directory not found",
            ConfigError::ConfigDirectoryCreateError => "failed to create config directory",
            ConfigError::ConfigPathInvalidError => "config path was invalid",
        }
    }
}

impl HueBridgeError {
    /// A sentence that describes the error.
    pub fn message(&self) -> (r: String)
        ensures
            r@ == match self {
                HueBridgeError::LinkButtonNotPressed => "link button not pressed"@,
                HueBridgeError::LightNotFound => "specified light not found"@,
                HueBridgeError::UnauthorizedUser => "unauthorized user"@,
                HueBridgeError::UnexpectedJSON => "unexpected JSON"@,
                HueBridgeError::Other { code, message } => "bridge error "@ + code@ + ": "@
                    + message@,
            },
    {
        match self {
            HueBridgeError::LinkButtonNotPressed => "link button not pressed".to_owned(),
            HueBridgeError::LightNotFound => "specified light not found".to_owned(),
            HueBridgeError::UnauthorizedUser => "unauthorized user".to_owned(),
            HueBridgeError::UnexpectedJSON => "unexpected JSON".to_owned(),
            HueBridgeError::Other { code, message } => {
                let mut s = "bridge error ".to_owned();
                s.append(code.as_str());
                s.append(": ");
                s.append(message.as_str());
                s
            },
        }
    }
}

} // verus!
