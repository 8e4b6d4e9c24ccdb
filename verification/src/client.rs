//! Clients for the various types of authentication supported by the API
//! routes.  The authenticated ones wrap a token cache and retry a call at
//! most once, when the server says the access token has expired.

use vstd::prelude::*;
use crate::auth::AuthErrorV;
use crate::client_helpers::spec_auth_401;
use crate::client_trait::{
    Endpoint, HttpClient, HttpClientError, HttpRequestResultRaw, Style, TeamSelect, TokenType,
};
use crate::oauth2::{TokenCache, TokenSource};
use base64::Engine;

verus! {

/// Common interface to each of the types of client: the route layer hands
/// over a fully encoded request and receives the raw response, with the
/// client's own credentials and context attached.
pub trait Client<B> {
    #[allow(clippy::too_many_arguments)]
    fn request(
        &mut self,
        endpoint: Endpoint,
        style: Style,
        function: &str,
        params_json: &str,
        body: Option<&[u8]>,
        range_start: Option<u64>,
        range_end: Option<u64>,
    ) -> Result<HttpRequestResultRaw<B>, HttpClientError>;
}

/// Client for unauthenticated API calls.
pub struct NoauthClient<H> {
    http: H,
    path_root: Option<String>,
}

impl<H> NoauthClient<H> {
    /// Make a new unauthenticated client, using the given HTTP client
    /// implementation.
    pub fn new(http: H) -> Self {
        Self { http, path_root: None }
    }
}

impl<B, H: HttpClient<B>> Client<B> for NoauthClient<H> {
    fn request(
        &mut self,
        endpoint: Endpoint,
        style: Style,
        function: &str,
        params_json: &str,
        body: Option<&[u8]>,
        range_start: Option<u64>,
        range_end: Option<u64>,
    ) -> Result<HttpRequestResultRaw<B>, HttpClientError> {
        let path_root = match &self.path_root {
            Some(s) => Some(s.as_str()),
            None => None,
        };
        self.http.request(
            endpoint,
            style,
            function,
            params_json,
            body,
            range_start,
            range_end,
            None,
            path_root,
            None,
        )
    }
}

/// Whether a transport outcome is the one condition the authenticated
/// client recovers from locally: an HTTP 401 whose body names an expired
/// access token.
pub open spec fn spec_expired_token_outcome<B>(
    r: Result<HttpRequestResultRaw<B>, HttpClientError>,
) -> bool {
    match r {
        Err(HttpClientError::HttpError { code, response_body }) => code == 401 && spec_auth_401(
            response_body@,
        ) == Some(AuthErrorV::ExpiredAccessToken),
        _ => false,
    }
}

/// Whether an outcome calls for the one-shot retry: never once a retry has
/// already happened.
pub open spec fn spec_should_retry<B>(
    r: Result<HttpRequestResultRaw<B>, HttpClientError>,
    already_retried: bool,
) -> bool {
    !already_retried && spec_expired_token_outcome(r)
}

/// Law: the retry budget is one.  Whatever the transport returned, once a
/// retry has happened no outcome calls for another, so a call dispatches at
/// most twice.
pub proof fn lemma_retry_at_most_once<B>(r: Result<HttpRequestResultRaw<B>, HttpClientError>)
    ensures
        !spec_should_retry(r, true),
{
}

fn should_retry<B>(
    r: &Result<HttpRequestResultRaw<B>, HttpClientError>,
    already_retried: bool,
) -> (b: bool)
    ensures
        b == spec_should_retry(*r, already_retried),
{
    if already_retried {
        return false;
    }
    match r {
        Err(HttpClientError::HttpError { code, response_body }) => {
            if *code != 401 {
                return false;
            }
            match crate::client_helpers::parse_typed::<
                crate::client_helpers::TopLevelError<crate::auth::AuthError>,
            >(response_body.as_str()) {
                Some(env) => matches!(env.error, crate::auth::AuthError::ExpiredAccessToken),
                None => false,
            }
        },
        _ => false,
    }
}

/// Takes care of making requests with up-to-date auth tokens, by refreshing
/// and retrying once when the token expires.
pub struct AuthedClient<H, S> {
    http: H,
    tokens: TokenCache,
    source: S,
}

impl<H, S> AuthedClient<H, S> {
    /// How many times the token source has been asked for a token.
    pub closed spec fn refresh_count(&self) -> nat {
        self.tokens.refresh_count()
    }

    /// The credential the inner cache holds.
    pub closed spec fn cached(&self) -> Option<Seq<char>> {
        self.tokens.cached()
    }

    pub fn new(http: H, source: S, tokens: TokenCache) -> (r: Self)
        ensures
            r.refresh_count() == tokens.refresh_count(),
            r.cached() == tokens.cached(),
    {
        AuthedClient { http, tokens, source }
    }

    /// One authenticated dispatch, with the one-shot retry: obtains the
    /// current token, sends the request, and if the server says the token
    /// has expired, refreshes by compare-and-refresh and retries exactly
    /// once.  Any other outcome is returned as it came.  At most one
    /// refresh is spent on retrying; one more fetch may happen when the
    /// cache starts out empty.
    #[allow(clippy::too_many_arguments)]
    pub fn request<B>(
        &mut self,
        endpoint: Endpoint,
        style: Style,
        function: &str,
        params_json: &str,
        body: Option<&[u8]>,
        range_start: Option<u64>,
        range_end: Option<u64>,
        path_root: Option<&str>,
        team_select: Option<&TeamSelect>,
    ) -> (r: Result<HttpRequestResultRaw<B>, HttpClientError>) where
        H: HttpClient<B>,
        S: TokenSource,

        ensures
            final(self).refresh_count() <= old(self).refresh_count() + 2,
            old(self).cached() is Some ==> final(self).refresh_count() <= old(
                self,
            ).refresh_count() + 1,
    {
        let token = match self.tokens.get_token(&self.source) {
            Ok(t) => t,
            Err(e) => {
                return Err(e);
            },
        };
        let first = self.http.request(
            endpoint,
            style,
            function,
            params_json,
            body,
            range_start,
            range_end,
            Some((TokenType::Bearer, token.as_str())),
            path_root,
            team_select,
        );
        if should_retry(&first, false) {
            let new_token = match self.tokens.update_token(&self.source, token.as_str()) {
                Ok(t) => t,
                Err(e) => {
                    return Err(e);
                },
            };
            self.http.request(
                endpoint,
                style,
                function,
                params_json,
                body,
                range_start,
                range_end,
                Some((TokenType::Bearer, new_token.as_str())),
                path_root,
                team_select,
            )
        } else {
            first
        }
    }
}

/// Client for user-authenticated API calls.
pub struct UserAuthClient<H, S> {
    authed: AuthedClient<H, S>,
    path_root: Option<String>,
}

impl<H, S> UserAuthClient<H, S> {
    /// How many times the token source has been asked for a token.
    pub closed spec fn refresh_count(&self) -> nat {
        self.authed.refresh_count()
    }

    /// The credential the inner cache holds.
    pub closed spec fn cached(&self) -> Option<Seq<char>> {
        self.authed.cached()
    }

    /// Construct a new client from the given HTTP client implementation and
    /// OAuth2 authorization; the first call will fetch a token.
    pub fn from_auth(http: H, auth: S) -> (r: Self)
        ensures
            r.cached() is None,
            r.refresh_count() == 0,
    {
        Self { authed: AuthedClient::new(http, auth, TokenCache::new()), path_root: None }
    }

    /// Construct a new client from the given HTTP client implementation,
    /// an authorization, and a token cache carried over from elsewhere,
    /// so that several clients go through one credential.  The cache is
    /// kept as it was handed over.
    pub fn from_shared_tokens(http: H, auth: S, tokens: TokenCache) -> (r: Self)
        ensures
            r.cached() == tokens.cached(),
            r.refresh_count() == tokens.refresh_count(),
    {
        Self { authed: AuthedClient::new(http, auth, tokens), path_root: None }
    }
}

impl<B, H: HttpClient<B>, S: TokenSource> Client<B> for UserAuthClient<H, S> {
    fn request(
        &mut self,
        endpoint: Endpoint,
        style: Style,
        function: &str,
        params_json: &str,
        body: Option<&[u8]>,
        range_start: Option<u64>,
        range_end: Option<u64>,
    ) -> Result<HttpRequestResultRaw<B>, HttpClientError> {
        let path_root = match &self.path_root {
            Some(s) => Some(s.as_str()),
            None => None,
        };
        self.authed.request(
            endpoint,
            style,
            function,
            params_json,
            body,
            range_start,
            range_end,
            path_root,
            None,
        )
    }
}

/// Client for team-authenticated API calls.
pub struct TeamAuthClient<H, S> {
    authed: AuthedClient<H, S>,
    path_root: Option<String>,
    team_select: Option<TeamSelect>,
}

impl<H, S> TeamAuthClient<H, S> {
    /// The user or team context calls operate in.
    pub closed spec fn spec_team_select(&self) -> Option<TeamSelect> {
        self.team_select
    }

    /// How many times the token source has been asked for a token.
    pub closed spec fn refresh_count(&self) -> nat {
        self.authed.refresh_count()
    }

    /// The credential the inner cache holds.
    pub closed spec fn cached(&self) -> Option<Seq<char>> {
        self.authed.cached()
    }

    /// Construct a new client from the given HTTP client implementation and
    /// OAuth2 authorization; the first call will fetch a token.
    pub fn from_auth(http: H, auth: S) -> (r: Self)
        ensures
            r.spec_team_select() is None,
            r.cached() is None,
            r.refresh_count() == 0,
    {
        Self {
            authed: AuthedClient::new(http, auth, TokenCache::new()),
            path_root: None,
            team_select: None,
        }
    }

    /// Construct a new client from the given HTTP client implementation,
    /// an authorization, and a token cache carried over from elsewhere,
    /// so that several clients go through one credential.  The cache is
    /// kept as it was handed over.
    pub fn from_shared_tokens(http: H, auth: S, tokens: TokenCache) -> (r: Self)
        ensures
            r.spec_team_select() is None,
            r.cached() == tokens.cached(),
            r.refresh_count() == tokens.refresh_count(),
    {
        Self {
            authed: AuthedClient::new(http, auth, tokens),
            path_root: None,
            team_select: None,
        }
    }

    /// Select a user or team context to operate in.
    pub fn select(&mut self, team_select: Option<TeamSelect>)
        ensures
            final(self).spec_team_select() == team_select,
    {
        self.team_select = team_select;
    }
}

impl<B, H: HttpClient<B>, S: TokenSource> Client<B> for TeamAuthClient<H, S> {
    fn request(
        &mut self,
        endpoint: Endpoint,
        style: Style,
        function: &str,
        params_json: &str,
        body: Option<&[u8]>,
        range_start: Option<u64>,
        range_end: Option<u64>,
    ) -> Result<HttpRequestResultRaw<B>, HttpClientError> {
        let path_root = match &self.path_root {
            Some(s) => Some(s.as_str()),
            None => None,
        };
        let team_select = match &self.team_select {
            Some(t) => Some(t),
            None => None,
        };
        self.authed.request(
            endpoint,
            style,
            function,
            params_json,
            body,
            range_start,
            range_end,
            path_root,
            team_select,
        )
    }
}

/// The credential an app-authenticated client sends: the encoding of
/// `key:secret` that the Basic scheme calls for.
pub uninterp spec fn base64_of(s: Seq<char>) -> Seq<char>;

/// Relies on base64's standard-alphabet engine: the result is a function of
/// the input bytes alone.
#[verifier::external_body]
fn base64_encode_str(s: &str) -> (r: String)
    ensures
        r@ == base64_of(s@),
{
    base64::engine::general_purpose::STANDARD.encode(s.as_bytes())
}

/// Client for app-authenticated API calls.
pub struct AppAuthClient<H> {
    http: H,
    path_root: Option<String>,
    base64_key_secret_pair: String,
}

impl<H> AppAuthClient<H> {
    /// The credential sent with each request.
    pub closed spec fn spec_credential(&self) -> Seq<char> {
        self.base64_key_secret_pair@
    }

    /// Construct a new client from the given HTTP client implementation,
    /// app key, and app secret.
    pub fn new(http: H, app_key: &str, app_secret: &str) -> (r: Self)
        ensures
            r.spec_credential() == base64_of(app_key@ + ":"@ + app_secret@),
    {
        let pair = app_key.to_owned().concat(":").concat(app_secret);
        let base64_key_secret_pair = base64_encode_str(pair.as_str());
        Self { http, base64_key_secret_pair, path_root: None }
    }
}

impl<B, H: HttpClient<B>> Client<B> for AppAuthClient<H> {
    fn request(
        &mut self,
        endpoint: Endpoint,
        style: Style,
        function: &str,
        params_json: &str,
        body: Option<&[u8]>,
        range_start: Option<u64>,
        range_end: Option<u64>,
    ) -> Result<HttpRequestResultRaw<B>, HttpClientError> {
        let path_root = match &self.path_root {
            Some(s) => Some(s.as_str()),
            None => None,
        };
        self.http.request(
            endpoint,
            style,
            function,
            params_json,
            body,
            range_start,
            range_end,
            Some((TokenType::Basic, self.base64_key_secret_pair.as_str())),
            path_root,
            None,
        )
    }
}

} // verus!
