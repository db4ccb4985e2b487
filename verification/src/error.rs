//! The error taxonomy shared by every client in this crate.

use vstd::prelude::*;
use vstd::string::StringExecFns;

verus! {

/// A typed failure returned by registry and runtime operations.
#[derive(Debug, Clone, PartialEq, Eq)]
pub enum Error {
    /// Configuration errors, including unimplemented features.
    Config(String),
    /// Network and HTTP errors: non-success statuses, unreachable hosts.
    Network(String),
    /// Runtime-control API errors.
    Bolt(String),
    /// QUIC/HTTP3 transport errors.
    Quic(String),
    /// A response body that does not match the expected schema.
    Serialization(String),
    /// I/O errors surfaced by the surrounding process.
    Io(String),
    /// Authentication errors: challenge parse failures, rejected credentials.
    Auth(String),
    /// Container operation errors.
    Container(String),
    /// GPU and gaming configuration errors.
    Gaming(String),
}

/// The display text of an error: its kind, then its message.
pub open spec fn error_message(e: Error) -> Seq<char> {
    match e {
        Error::Config(m) => "Configuration error: "@ + m@,
        Error::Network(m) => "Network error: "@ + m@,
        Error::Bolt(m) => "Bolt error: "@ + m@,
        Error::Quic(m) => "QUIC error: "@ + m@,
        Error::Serialization(m) => "Serialization error: "@ + m@,
        Error::Io(m) => "I/O error: "@ + m@,
        Error::Auth(m) => "Authentication error: "@ + m@,
        Error::Container(m) => "Container error: "@ + m@,
        Error::Gaming(m) => "Gaming error: "@ + m@,
    }
}

impl Error {
    /// Renders the error for display: its kind, then its message.
    pub fn message(&self) -> (r: String)
        ensures
            r@ == error_message(*self),
    {
        match self {
            Error::Config(m) => "Configuration error: ".to_owned().concat(m.as_str()),
            Error::Network(m) => "Network error: ".to_owned().concat(m.as_str()),
            Error::Bolt(m) => "Bolt error: ".to_owned().concat(m.as_str()),
            Error::Quic(m) => "QUIC error: ".to_owned().concat(m.as_str()),
            Error::Serialization(m) => "Serialization error: ".to_owned().concat(m.as_str()),
            Error::Io(m) => "I/O error: ".to_owned().concat(m.as_str()),
            Error::Auth(m) => "Authentication error: ".to_owned().concat(m.as_str()),
            Error::Container(m) => "Container error: ".to_owned().concat(m.as_str()),
            Error::Gaming(m) => "Gaming error: ".to_owned().concat(m.as_str()),
        }
    }
}

} // verus!
