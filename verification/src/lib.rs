//! A verified client core for a remote file-storage HTTP API: it manages the
//! bearer-token lifecycle, encodes the three request shapes the wire protocol
//! uses, classifies responses into a typed error taxonomy, bridges push- and
//! pull-based byte streams, and pages through cursor-based listings.

pub mod auth;
pub mod check;
pub mod client;
pub mod constrained;
pub mod client_helpers;
pub mod client_trait;
pub mod encoder;
pub mod escape;
pub mod file_helpers;
pub mod file_properties;
pub mod json;
pub mod oauth2;
pub mod stream;
pub mod strutil;
pub mod team_common;

use vstd::prelude::*;
use crate::auth::{AuthError, AuthErrorV, RateLimitReason};

verus! {

/// An error from a call: either the error the route defines, or something
/// that went wrong around the call.
#[derive(Debug, Clone, PartialEq)]
pub enum Error<E> {
    /// Error returned from the API, of the type the route defines.
    API(E),
    /// Some other error not specific to the route called.
    Other(MiscError),
}

/// The route-independent errors of the pipeline.
#[derive(Debug, Clone, PartialEq)]
pub enum MiscError {
    /// An error occurred in the course of making the HTTP request.
    HttpClient(String),
    /// A body could not be understood as, or a value could not be written
    /// as, the JSON the wire format calls for; holds the offending text.
    Json(String),
    /// Malformed response from the API.
    UnexpectedResponse(String),
    /// The server said the request was malformed.
    BadRequest(String),
    /// The access token was rejected and the response body did not say why.
    InvalidToken(String),
    /// The access token was rejected for the reason carried here; an expired
    /// token is retried once by the authenticated client.
    Authentication(AuthError),
    /// The server declined the request due to rate-limiting; callers that
    /// retry must wait at least the carried number of seconds.
    RateLimited { reason: RateLimitReason, retry_after_seconds: u64 },
    /// The server had an internal problem with the request.
    ServerError(String),
    /// Some unexpected HTTP response code was received.
    UnexpectedHttpError { code: u16, response_body: String },
}

/// The mathematical shape of a [`MiscError`].
pub enum MiscErrorV {
    HttpClient(Seq<char>),
    Json(Seq<char>),
    UnexpectedResponse(Seq<char>),
    BadRequest(Seq<char>),
    InvalidToken(Seq<char>),
    Authentication(AuthErrorV),
    RateLimited { reason: RateLimitReason, retry_after_seconds: u64 },
    ServerError(Seq<char>),
    UnexpectedHttpError { code: u16, response_body: Seq<char> },
}

impl View for MiscError {
    type V = MiscErrorV;

    open spec fn view(&self) -> MiscErrorV {
        match self {
            MiscError::HttpClient(s) => MiscErrorV::HttpClient(s@),
            MiscError::Json(s) => MiscErrorV::Json(s@),
            MiscError::UnexpectedResponse(s) => MiscErrorV::UnexpectedResponse(s@),
            MiscError::BadRequest(s) => MiscErrorV::BadRequest(s@),
            MiscError::InvalidToken(s) => MiscErrorV::InvalidToken(s@),
            MiscError::Authentication(e) => MiscErrorV::Authentication(e@),
            MiscError::RateLimited { reason, retry_after_seconds } => MiscErrorV::RateLimited {
                reason: *reason,
                retry_after_seconds: *retry_after_seconds,
            },
            MiscError::ServerError(s) => MiscErrorV::ServerError(s@),
            MiscError::UnexpectedHttpError { code, response_body } => (
            MiscErrorV::UnexpectedHttpError { code: *code, response_body: response_body@ }),
        }
    }
}

/// The mathematical shape of an [`Error`].
pub enum ErrorV<EV> {
    API(EV),
    Other(MiscErrorV),
}

impl<E: View> View for Error<E> {
    type V = ErrorV<E::V>;

    open spec fn view(&self) -> ErrorV<E::V> {
        match self {
            Error::API(e) => ErrorV::API(e@),
            Error::Other(m) => ErrorV::Other(m@),
        }
    }
}

impl<E> From<MiscError> for Error<E> {
    fn from(e: MiscError) -> (r: Error<E>) {
        Error::Other(e)
    }
}

impl<E> vstd::std_specs::convert::FromSpecImpl<MiscError> for Error<E> {
    open spec fn obeys_from_spec() -> bool {
        true
    }

    open spec fn from_spec(e: MiscError) -> Error<E> {
        Error::Other(e)
    }
}

impl<E> Error<E> {
    /// Return the inner API error if it is one.
    pub fn api_err(&self) -> (r: Option<&E>)
        ensures
            match r {
                Some(e) => self matches Error::API(inner) && e == inner,
                None => self matches Error::Other(_),
            },
    {
        match self {
            Error::API(e) => Some(e),
            Error::Other(_) => None,
        }
    }

    /// Returns `true` if this is the `Error::API` variant.
    pub fn is_api(&self) -> (r: bool)
        ensures
            r == (self matches Error::API(_)),
    {
        matches!(self, Error::API(_))
    }
}

} // verus!
