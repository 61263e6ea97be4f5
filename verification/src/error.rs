//! What can go wrong while a client is set up or a call is made.

use vstd::prelude::*;

verus! {

/// A fault in the configuration. It is fatal to construction and never
/// retried.
#[derive(Clone, Copy, Debug, PartialEq, Eq, Structural)]
pub enum ConfigError {
    /// The endpoint URL is not a well-formed URI.
    MalformedUrl,
    /// The token holds a character that may not stand in a header value.
    MalformedToken,
}

/// The step of a client's life that an error comes from, with its cause.
#[derive(Clone, Debug, PartialEq, Eq)]
pub enum ClientError {
    /// The configuration was rejected before or after the connection attempt.
    Config(ConfigError),
    /// The endpoint could not be reached or the handshake failed; the text is
    /// the transport's own account of the failure.
    Connection(String),
    /// A remote operation failed; the text is the failure as the transport or
    /// the service reported it.
    Call(String),
}

impl ConfigError {
    /// A sentence that names the construction step that failed.
    pub fn message(&self) -> (text: String)
        ensures
            text@ == match *self {
                ConfigError::MalformedUrl => "failed to parse seabird URL"@,
                ConfigError::MalformedToken => "failed to parse the bearer token as a header value"@,
            },
    {
        match self {
            ConfigError::MalformedUrl => String::from_str("failed to parse seabird URL"),
            ConfigError::MalformedToken => String::from_str(
                "failed to parse the bearer token as a header value",
            ),
        }
    }
}

impl ClientError {
    /// A sentence that names the step that failed, followed by the cause
    /// where one was reported.
    pub fn message(&self) -> (text: String)
        ensures
            text@ == match *self {
                ClientError::Config(fault) => match fault {
                    ConfigError::MalformedUrl => "failed to parse seabird URL"@,
                    ConfigError::MalformedToken => "failed to parse the bearer token as a header value"@,
                },
                ClientError::Connection(cause) => "Failed to connect to seabird: "@ + cause@,
                ClientError::Call(cause) => "call failed: "@ + cause@,
            },
    {
        match self {
            ClientError::Config(fault) => fault.message(),
            ClientError::Connection(cause) => String::from_str(
                "Failed to connect to seabird: ",
            ).concat(cause.as_str()),
            ClientError::Call(cause) => String::from_str("call failed: ").concat(cause.as_str()),
        }
    }
}

} // verus!
