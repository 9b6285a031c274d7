//! Error taxonomy for the credential-acquisition flow.

use vstd::prelude::*;

verus! {

/// Typed failures of the flow. Transport, serialization and I/O failures
/// carry the message of the underlying error as plain text.
#[derive(Debug)]
pub enum McpError {
    AuthError(String),
    BrowserError(String),
    HttpError(String),
    CredentialError(String),
    ConfigError(String),
    SerdeError(String),
    IoError(String),
    NotAuthenticated,
    Other(String),
}

impl McpError {
    /// The human-readable message for this error, prefixed by its category.
    pub fn message(&self) -> (r: String)
        ensures
            r@ == self.spec_message(),
    {
        match self {
            McpError::AuthError(m) => prefixed("Authentication error: ", m),
            McpError::BrowserError(m) => prefixed("Browser automation error: ", m),
            McpError::HttpError(m) => prefixed("HTTP request error: ", m),
            McpError::CredentialError(m) => prefixed("Credential storage error: ", m),
            McpError::ConfigError(m) => prefixed("Config error: ", m),
            McpError::SerdeError(m) => prefixed("JSON serialization error: ", m),
            McpError::IoError(m) => prefixed("IO error: ", m),
            McpError::NotAuthenticated => "Not authenticated. Please login first.".to_owned(),
            McpError::Other(m) => prefixed("Unexpected error: ", m),
        }
    }

    /// What `message` returns, as a sequence of characters.
    pub open spec fn spec_message(&self) -> Seq<char> {
        match self {
            McpError::AuthError(m) => "Authentication error: "@ + m@,
            McpError::BrowserError(m) => "Browser automation error: "@ + m@,
            McpError::HttpError(m) => "HTTP request error: "@ + m@,
            McpError::CredentialError(m) => "Credential storage error: "@ + m@,
            McpError::ConfigError(m) => "Config error: "@ + m@,
            McpError::SerdeError(m) => "JSON serialization error: "@ + m@,
            McpError::IoError(m) => "IO error: "@ + m@,
            McpError::NotAuthenticated => "Not authenticated. Please login first."@,
            McpError::Other(m) => "Unexpected error: "@ + m@,
        }
    }
}

/// `prefix` followed by `m`.
fn prefixed(prefix: &str, m: &String) -> (r: String)
    ensures
        r@ == prefix@ + m@,
{
    let mut r = prefix.to_owned();
    r.append(m.as_str());
    r
}

pub type McpResult<T> = Result<T, McpError>;

} // verus!
