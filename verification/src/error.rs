//! The error type of the web service, with the text each error prints and
//! the HTTP status it is answered with.
use vstd::prelude::*;

verus! {

/// What can go wrong while serving a request. The payload of the first
/// three variants is the text of the underlying I/O, MQTT client or JSON
/// error.
#[derive(Debug, PartialEq, Eq)]
pub enum AppError {
    Io(String),
    Mqtt(String),
    Serialization(String),
    Encryption(String),
    Validation(String),
    ConnectionTimeout,
    DisconnectTimeout,
    NoActiveConnection,
}

impl AppError {
    /// The text the error prints.
    pub open spec fn message_spec(&self) -> Seq<char> {
        match self {
            AppError::Io(e) => "IO error: "@ + e@,
            AppError::Mqtt(e) => "MQTT error: "@ + e@,
            AppError::Serialization(e) => "Serialization error: "@ + e@,
            AppError::Encryption(e) => "Encryption error: "@ + e@,
            AppError::Validation(e) => "Validation error: "@ + e@,
            AppError::ConnectionTimeout => "Connection timeout"@,
            AppError::DisconnectTimeout => "Disconnect timeout"@,
            AppError::NoActiveConnection => "No active connection"@,
        }
    }

    /// The HTTP status code the error is answered with.
    pub open spec fn status_spec(&self) -> u16 {
        match self {
            AppError::Validation(_) => 400,
            AppError::Io(_) => 500,
            AppError::Mqtt(_) => 502,
            AppError::Serialization(_) => 500,
            AppError::Encryption(_) => 500,
            AppError::ConnectionTimeout => 504,
            AppError::DisconnectTimeout => 504,
            AppError::NoActiveConnection => 409,
        }
    }

    /// The text the error prints (what its `Display` shows).
    pub fn message(&self) -> (m: String)
        ensures
            m@ == self.message_spec(),
    {
        match self {
            AppError::Io(e) => String::from_str("IO error: ").concat(e.as_str()),
            AppError::Mqtt(e) => String::from_str("MQTT error: ").concat(e.as_str()),
            AppError::Serialization(e) => String::from_str("Serialization error: ").concat(
                e.as_str(),
            ),
            AppError::Encryption(e) => String::from_str("Encryption error: ").concat(e.as_str()),
            AppError::Validation(e) => String::from_str("Validation error: ").concat(e.as_str()),
            AppError::ConnectionTimeout => String::from_str("Connection timeout"),
            AppError::DisconnectTimeout => String::from_str("Disconnect timeout"),
            AppError::NoActiveConnection => String::from_str("No active connection"),
        }
    }

    /// The HTTP status code the error is answered with.
    pub fn status_code(&self) -> (s: u16)
        ensures
            s == self.status_spec(),
    {
        match self {
            AppError::Validation(_) => 400,
            AppError::Io(_) => 500,
            AppError::Mqtt(_) => 502,
            AppError::Serialization(_) => 500,
            AppError::Encryption(_) => 500,
            AppError::ConnectionTimeout => 504,
            AppError::DisconnectTimeout => 504,
            AppError::NoActiveConnection => 409,
        }
    }
}

} // verus!
