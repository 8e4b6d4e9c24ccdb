//! Everything needed to implement your HTTP client.

use vstd::prelude::*;

verus! {

/// An error returned by the HTTP client.
#[derive(Debug, Clone, PartialEq)]
pub enum HttpClientError {
    /// The server responded with something other than a success status.
    HttpError { code: u16, response_body: String },
    /// Some other error occurred in the course of making the HTTP request.
    Other(String),
}

/// The mathematical shape of an [`HttpClientError`].
pub enum HttpClientErrorV {
    HttpError { code: u16, response_body: Seq<char> },
    Other(Seq<char>),
}

impl View for HttpClientError {
    type V = HttpClientErrorV;

    open spec fn view(&self) -> HttpClientErrorV {
        match self {
            HttpClientError::HttpError { code, response_body } => (
            HttpClientErrorV::HttpError { code: *code, response_body: response_body@ }),
            HttpClientError::Other(s) => HttpClientErrorV::Other(s@),
        }
    }
}

/// A successful transport-level response: the JSON result text, and for a
/// download the length and the byte stream of the payload.
pub struct HttpRequestResultRaw<B> {
    pub result_json: String,
    pub content_length: Option<u64>,
    pub body: Option<B>,
}

/// A successful typed response.
pub struct HttpRequestResult<T, B> {
    pub result: T,
    pub content_length: Option<u64>,
    pub body: Option<B>,
}

/// The base URL a route is served under.
#[derive(Debug, Copy, Clone, PartialEq, Eq, Structural)]
pub enum Endpoint {
    Api,
    Content,
    Notify,
}

/// The request shape of a route: parameters in the body, an upload, or a
/// download.
#[derive(Debug, Copy, Clone, PartialEq, Eq, Structural)]
pub enum Style {
    Rpc,
    Upload,
    Download,
}

/// How the credential in the Authorization header is labelled.
#[derive(Debug, Copy, Clone, PartialEq, Eq, Structural)]
pub enum TokenType {
    /// An OAuth2 bearer token.
    Bearer,
    /// An app key and secret pair.
    Basic,
}

/// A user or team context to operate in, for team-authenticated calls.
#[derive(Debug, Clone, PartialEq, Eq)]
pub enum TeamSelect {
    /// A team member's id.
    User(String),
    /// A team admin's id.
    Admin(String),
}

/// The mathematical shape of a [`TeamSelect`].
pub enum TeamSelectV {
    User(Seq<char>),
    Admin(Seq<char>),
}

impl View for TeamSelect {
    type V = TeamSelectV;

    open spec fn view(&self) -> TeamSelectV {
        match self {
            TeamSelect::User(s) => TeamSelectV::User(s@),
            TeamSelect::Admin(s) => TeamSelectV::Admin(s@),
        }
    }
}

impl Endpoint {
    /// The base URL of the endpoint.
    pub fn url(self) -> (r: &'static str)
        ensures
            self is Api ==> r@ == "https://api.dropboxapi.com/2/"@,
            self is Content ==> r@ == "https://content.dropboxapi.com/2/"@,
            self is Notify ==> r@ == "https://notify.dropboxapi.com/2/"@,
    {
        match self {
            Endpoint::Api => "https://api.dropboxapi.com/2/",
            Endpoint::Content => "https://content.dropboxapi.com/2/",
            Endpoint::Notify => "https://notify.dropboxapi.com/2/",
        }
    }
}

impl TokenType {
    /// The word before the credential in the Authorization header.
    pub fn authorization_type(self) -> (r: &'static str)
        ensures
            self is Bearer ==> r@ == "Bearer"@,
            self is Basic ==> r@ == "Basic"@,
    {
        match self {
            TokenType::Bearer => "Bearer",
            TokenType::Basic => "Basic",
        }
    }
}

/// The pluggable transport: one call sends a fully described request and
/// yields the raw response.  Implementations do the I/O; nothing is assumed
/// about what they return.
pub trait HttpClient<B> {
    fn request(
        &self,
        endpoint: Endpoint,
        style: Style,
        function: &str,
        params_json: &str,
        body: Option<&[u8]>,
        range_start: Option<u64>,
        range_end: Option<u64>,
        token: Option<(TokenType, &str)>,
        path_root: Option<&str>,
        team_select: Option<&TeamSelect>,
    ) -> Result<HttpRequestResultRaw<B>, HttpClientError>;
}

} // verus!
