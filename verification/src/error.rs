//! Errors that the client reports, with their codes and their text.

use vstd::prelude::*;

verus! {

/// A JSON document attached to a service error; the library carries it
/// through unread.
#[verifier::external_type_specification]
#[verifier::external_body]
pub struct ExJsonValue(serde_json::Value);

/// An error of the client.
#[derive(Debug)]
pub enum Error {
    /// The client is not configured well enough to run.
    Config(String),
    /// The service refused or failed a request.
    Api { code: String, message: String, details: Option<serde_json::Value> },
    /// The service could not be reached.
    Network(String),
}

/// The code of an error, as its view.
pub open spec fn error_code(e: &Error) -> Seq<char> {
    match e {
        Error::Config(_) => "CONFIG_ERROR"@,
        Error::Api { code, .. } => code@,
        Error::Network(_) => "NETWORK_ERROR"@,
    }
}

/// The text of an error, as its view.
pub open spec fn error_text(e: &Error) -> Seq<char> {
    match e {
        Error::Config(m) => "Configuration error: "@ + m@,
        Error::Api { code, message, .. } => "API error ["@ + code@ + "]: "@ + message@,
        Error::Network(m) => "Network error: "@ + m@,
    }
}

impl Error {
    /// The stable, machine-readable code of the error.
    pub fn code(&self) -> (r: String)
        ensures
            r@ == error_code(self),
    {
        match self {
            Error::Config(_) => String::from_str("CONFIG_ERROR"),
            Error::Api { code, .. } => code.clone(),
            Error::Network(_) => String::from_str("NETWORK_ERROR"),
        }
    }

    /// The human-readable text of the error.
    pub fn to_string(&self) -> (r: String)
        ensures
            r@ == error_text(self),
    {
        match self {
            Error::Config(m) => {
                let mut s = String::from_str("Configuration error: ");
                s.append(m.as_str());
                s
            },
            Error::Api { code, message, .. } => {
                let mut s = String::from_str("API error [");
                s.append(code.as_str());
                s.append("]: ");
                s.append(message.as_str());
                s
            },
            Error::Network(m) => {
                let mut s = String::from_str("Network error: ");
                s.append(m.as_str());
                s
            },
        }
    }
}

} // verus!

verus! {

/// The text of an error ends with what the error says: the message of a
/// configuration or network error, the service's message of a service error.
pub proof fn law_error_text_ends_with_its_message(e: &Error)
    ensures
        e matches Error::Config(m) ==> error_text(e).subrange(
            error_text(e).len() - m@.len(),
            error_text(e).len() as int,
        ) == m@,
        e matches Error::Network(m) ==> error_text(e).subrange(
            error_text(e).len() - m@.len(),
            error_text(e).len() as int,
        ) == m@,
        e matches Error::Api { message, .. } ==> error_text(e).subrange(
            error_text(e).len() - message@.len(),
            error_text(e).len() as int,
        ) == message@,
{
    match e {
        Error::Config(m) => {
            assert(error_text(e).subrange(error_text(e).len() - m@.len(), error_text(e).len() as int) =~= m@);
        },
        Error::Network(m) => {
            assert(error_text(e).subrange(error_text(e).len() - m@.len(), error_text(e).len() as int) =~= m@);
        },
        Error::Api { code, message, .. } => {
            assert(error_text(e).subrange(error_text(e).len() - message@.len(), error_text(e).len() as int) =~= message@);
        },
    }
}

} // verus!
