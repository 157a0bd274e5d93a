//! The errors this library reports.

use vstd::prelude::*;

verus! {

/// A well-formed error payload returned by the remote service in place
/// of the expected entity.
#[derive(Clone, Debug, PartialEq)]
pub struct ApiError {
    /// The type of error.
    pub error: Option<String>,
    /// The description of the error.
    pub error_description: Option<String>,
}

impl View for ApiError {
    type V = (Option<Seq<char>>, Option<Seq<char>>);

    open spec fn view(&self) -> Self::V {
        (self.error.deep_view(), self.error_description.deep_view())
    }
}

/// Spec-level picture of an `Error`.
pub enum ErrorV {
    Api(Option<Seq<char>>, Option<Seq<char>>),
    Io(Seq<char>),
    Decode,
    UnknownEvent(Seq<char>),
    MissingPayload(Seq<char>),
    Client(u16),
    Server(u16),
    Other(Seq<char>),
}

/// What can go wrong using the library.
#[derive(Clone, Debug, PartialEq)]
pub enum Error {
    /// A well-formed error payload from the remote service, returned in
    /// place of the expected entity.
    Api(ApiError),
    /// A transport read or write failure, described in words.  Fatal for
    /// a page fetch; transient for a stream pull.
    Io(String),
    /// An entity payload failed to parse.
    Decode,
    /// A stream frame named an event this library does not know; the
    /// field holds that name.
    UnknownEvent(String),
    /// A stream frame required a payload and carried none; the field
    /// holds the event name the payload was missing for.
    MissingPayload(String),
    /// The response carried a client-error status code.
    Client(u16),
    /// The response carried a server-error status code.
    Server(u16),
    /// Anything else, described in words.
    Other(String),
}

impl View for Error {
    type V = ErrorV;

    open spec fn view(&self) -> ErrorV {
        match self {
            Error::Api(e) => ErrorV::Api(e.error.deep_view(), e.error_description.deep_view()),
            Error::Io(s) => ErrorV::Io(s@),
            Error::Decode => ErrorV::Decode,
            Error::UnknownEvent(s) => ErrorV::UnknownEvent(s@),
            Error::MissingPayload(s) => ErrorV::MissingPayload(s@),
            Error::Client(c) => ErrorV::Client(*c),
            Error::Server(c) => ErrorV::Server(*c),
            Error::Other(s) => ErrorV::Other(s@),
        }
    }
}

impl From<ApiError> for Error {
    /// Wrap a service error payload as a library error.
    fn from(e: ApiError) -> (r: Error) {
        Error::Api(e)
    }
}

impl vstd::std_specs::convert::FromSpecImpl<ApiError> for Error {
    open spec fn obeys_from_spec() -> bool {
        true
    }

    open spec fn from_spec(e: ApiError) -> Error {
        Error::Api(e)
    }
}

} // verus!
