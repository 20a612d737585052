//! The error type for discovery operations.

use vstd::prelude::*;
use vstd::string::StringExecFns;

verus! {

/// The error type for a discovery operation.
///
/// Failures of the service-discovery layer and of the HTTP layer reach the
/// verified core as plain messages; `NoAddress` is raised by the resolver
/// itself when an announcement carries no usable address. Each error is
/// carried inline in the stream's output, except `Mdns`, which is fatal to
/// opening a browse session in the first place.
#[derive(Debug, Clone, PartialEq, Eq)]
#[non_exhaustive]
pub enum Error {
    /// The service-discovery daemon could not be reached or failed.
    Mdns(String),
    /// The HTTP layer failed: connection error, bad status, or a response
    /// body that could not be read.
    Reqwest(String),
    /// The announcement carried an empty address list.
    NoAddress,
    /// The response body did not match the expected document shape.
    Deserialization(String),
}

impl Error {
    /// The human-readable description of this error.
    pub open spec fn spec_message(self) -> Seq<char> {
        match self {
            Error::Mdns(m) => "mdns cannot be accessed "@ + m@,
            Error::Reqwest(m) => "reqwest error "@ + m@,
            Error::NoAddress => "Missing address"@,
            Error::Deserialization(m) => "deserialization error "@ + m@,
        }
    }

    /// Render the error as a message string.
    pub fn message(&self) -> (s: String)
        ensures
            s@ == self.spec_message(),
    {
        match self {
            Error::Mdns(m) => {
                let mut s = "mdns cannot be accessed ".to_owned();
                s.append(m.as_str());
                s
            },
            Error::Reqwest(m) => {
                let mut s = "reqwest error ".to_owned();
                s.append(m.as_str());
                s
            },
            Error::NoAddress => "Missing address".to_owned(),
            Error::Deserialization(m) => {
                let mut s = "deserialization error ".to_owned();
                s.append(m.as_str());
                s
            },
        }
    }
}

} // verus!
