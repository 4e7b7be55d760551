//! Common error type for anything that can go wrong with this crate.

use vstd::prelude::*;

verus! {

/// Common error type for anything that can go wrong with this crate.
#[derive(Clone, Copy, Debug, PartialEq, Eq, Structural)]
pub enum Error {
    /// Network, connection, timeout or TLS failure in the transport.
    Transport,

    /// The response body did not match the expected shape.
    Deserialization,

    /// The access token has expired (HTTP 401).
    AuthExpired,

    /// Any other API client error (4xx other than 401).
    Client(u16),

    /// An API server error (5xx).
    Server(u16),

    /// The token refresh call itself failed or returned a non-success status.
    RefreshFailed,

    /// A status outside every range the API is documented to return; kept as
    /// a defensive internal-consistency error rather than a panic.
    UnexpectedStatus(u16),
}

/// How a non-success HTTP status is classified: 401 is the sole signal for
/// the refresh path, other 4xx are client errors, 5xx are server errors, and
/// everything else is an internal-consistency error.
pub open spec fn classify_status(status: u16) -> Error {
    if status == 401 {
        Error::AuthExpired
    } else if 400 <= status && status <= 499 {
        Error::Client(status)
    } else if 500 <= status && status <= 599 {
        Error::Server(status)
    } else {
        Error::UnexpectedStatus(status)
    }
}

impl From<u16> for Error {
    /// Classify a non-success HTTP status code.
    fn from(status: u16) -> (e: Error)
        ensures
            e == classify_status(status),
    {
        if status == 401 {
            Error::AuthExpired
        } else if 400 <= status && status <= 499 {
            Error::Client(status)
        } else if 500 <= status && status <= 599 {
            Error::Server(status)
        } else {
            Error::UnexpectedStatus(status)
        }
    }
}

impl vstd::std_specs::convert::FromSpecImpl<u16> for Error {
    open spec fn obeys_from_spec() -> bool {
        true
    }

    open spec fn from_spec(status: u16) -> Error {
        classify_status(status)
    }
}

impl Error {
    /// A short human-readable description of the error.
    pub fn message(&self) -> String {
        match self {
            Error::Transport => String::from_str("HTTP transport error"),
            Error::Deserialization => String::from_str(
                "unable to serialise/deserialise struct",
            ),
            Error::AuthExpired => String::from_str("Access token has expired!"),
            Error::Client(_) => String::from_str("Client error"),
            Error::Server(_) => String::from_str("Server error"),
            Error::RefreshFailed => String::from_str("Token refresh failed"),
            Error::UnexpectedStatus(_) => String::from_str(
                "unexpected HTTP status outside every documented range",
            ),
        }
    }
}

} // verus!
