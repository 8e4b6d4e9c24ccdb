use std::cell::Cell;
use std::rc::Rc;

use dropbox_sdk::auth::{AuthError, RateLimitReason, TokenFromOAuth1Error, TokenFromOAuth1Result};
use dropbox_sdk::client::{AppAuthClient, Client, UserAuthClient};
use dropbox_sdk::client_helpers::{classify_error, handle_response, parse_typed, request, TopLevelError};
use dropbox_sdk::client_trait::{
    Endpoint, HttpClient, HttpClientError, HttpRequestResultRaw, Style, TeamSelect, TokenType,
};
use dropbox_sdk::encoder::{encode_request, WireBody};
use dropbox_sdk::oauth2::{TokenCache, TokenSource};
use dropbox_sdk::{Error, MiscError};

// ---------------------------------------------------------------------------
// Fakes.
// ---------------------------------------------------------------------------

struct CountingSource {
    calls: Rc<Cell<u64>>,
    token: &'static str,
}

impl TokenSource for CountingSource {
    fn fetch_token(&self) -> Result<String, HttpClientError> {
        self.calls.set(self.calls.get() + 1);
        Ok(self.token.to_owned())
    }
}

/// A transport that always reports an expired access token.
struct AlwaysExpired {
    dispatches: Rc<Cell<u64>>,
}

const EXPIRED_BODY: &str =
    r#"{"error_summary": "expired_access_token/...", "error": {".tag": "expired_access_token"}}"#;

impl HttpClient<()> for AlwaysExpired {
    fn request(
        &self,
        _endpoint: Endpoint,
        _style: Style,
        _function: &str,
        _params_json: &str,
        _body: Option<&[u8]>,
        _range_start: Option<u64>,
        _range_end: Option<u64>,
        _token: Option<(TokenType, &str)>,
        _path_root: Option<&str>,
        _team_select: Option<&TeamSelect>,
    ) -> Result<HttpRequestResultRaw<()>, HttpClientError> {
        self.dispatches.set(self.dispatches.get() + 1);
        Err(HttpClientError::HttpError { code: 401, response_body: EXPIRED_BODY.to_owned() })
    }
}

/// A transport that records the Authorization header it was given and
/// returns a fixed success body.
struct RecordingTransport {
    auth: Rc<Cell<Option<(TokenType, String)>>>,
}

impl HttpClient<()> for RecordingTransport {
    fn request(
        &self,
        _endpoint: Endpoint,
        _style: Style,
        _function: &str,
        _params_json: &str,
        _body: Option<&[u8]>,
        _range_start: Option<u64>,
        _range_end: Option<u64>,
        token: Option<(TokenType, &str)>,
        _path_root: Option<&str>,
        _team_select: Option<&TeamSelect>,
    ) -> Result<HttpRequestResultRaw<()>, HttpClientError> {
        self.auth.set(token.map(|(t, s)| (t, s.to_owned())));
        Ok(HttpRequestResultRaw {
            result_json: r#"{"oauth2_token":"z"}"#.to_owned(),
            content_length: None,
            body: None,
        })
    }
}

// ---------------------------------------------------------------------------
// Token cache: at most one refresh per staleness window.
// ---------------------------------------------------------------------------

#[test]
fn compare_and_refresh_refreshes_at_most_once() {
    let calls = Rc::new(Cell::new(0));
    let source = CountingSource { calls: calls.clone(), token: "token2" };
    let mut cache = TokenCache::with_token("token1".to_owned());

    // Two callers hold the same stale credential.  The first refreshes;
    // the second gets the same new credential without another fetch.
    let t1 = cache.update_token(&source, "token1").unwrap();
    assert_eq!("token2", t1);
    assert_eq!(1, calls.get());
    let t2 = cache.update_token(&source, "token1").unwrap();
    assert_eq!("token2", t2);
    assert_eq!(1, calls.get());
}

#[test]
fn get_token_fetches_only_on_first_use() {
    let calls = Rc::new(Cell::new(0));
    let source = CountingSource { calls: calls.clone(), token: "tok" };
    let mut cache = TokenCache::new();
    assert_eq!("tok", cache.get_token(&source).unwrap());
    assert_eq!("tok", cache.get_token(&source).unwrap());
    assert_eq!(1, calls.get());
}

// ---------------------------------------------------------------------------
// Authenticated client: exactly one retry on token expiry.
// ---------------------------------------------------------------------------

#[test]
fn retries_exactly_once_then_surfaces_auth_error() {
    let dispatches = Rc::new(Cell::new(0));
    let fetches = Rc::new(Cell::new(0));
    let http = AlwaysExpired { dispatches: dispatches.clone() };
    let source = CountingSource { calls: fetches.clone(), token: "fresh" };
    let mut client = UserAuthClient::from_auth(http, source);

    let result: Result<TokenFromOAuth1Result, Error<TokenFromOAuth1Error>> =
        request(&mut client, Endpoint::Api, Style::Rpc, "check/user", &(), None);

    assert_eq!(2, dispatches.get());
    // One fetch for first use, one for the single compare-and-refresh.
    assert_eq!(2, fetches.get());
    match result {
        Err(Error::Other(MiscError::Authentication(AuthError::ExpiredAccessToken))) => {},
        other => panic!("unexpected outcome: {:?}", other),
    }
}

// ---------------------------------------------------------------------------
// Response classifier.
// ---------------------------------------------------------------------------

#[test]
fn classifies_409_into_the_route_error() {
    let e: Error<TokenFromOAuth1Error> =
        classify_error(409, r#"{"error_summary":"x/y/","error":{".tag":"app_id_mismatch"}}"#.to_owned());
    assert!(e.is_api());
    assert_eq!(Some(&TokenFromOAuth1Error::AppIdMismatch), e.api_err());

    // An unrecognized tag falls back to the catch-all variant instead of
    // failing deserialization.
    let e: Error<TokenFromOAuth1Error> =
        classify_error(409, r#"{"error_summary":"x/y/","error":{".tag":"not_found"}}"#.to_owned());
    assert_eq!(Some(&TokenFromOAuth1Error::Other), e.api_err());

    // Malformed JSON in the body is a serialization error, not a panic.
    let e: Error<TokenFromOAuth1Error> = classify_error(409, "{not json".to_owned());
    match e {
        Error::Other(MiscError::Json(body)) => assert_eq!("{not json", body),
        other => panic!("unexpected outcome: {:?}", other),
    }
}

#[test]
fn classifies_the_other_statuses() {
    let e: Error<TokenFromOAuth1Error> = classify_error(400, "bad".to_owned());
    assert!(matches!(e, Error::Other(MiscError::BadRequest(ref b)) if b == "bad"));

    let e: Error<TokenFromOAuth1Error> = classify_error(401, EXPIRED_BODY.to_owned());
    assert!(matches!(
        e,
        Error::Other(MiscError::Authentication(AuthError::ExpiredAccessToken))
    ));

    // A 401 body that is not the envelope keeps the raw text.
    let e: Error<TokenFromOAuth1Error> = classify_error(401, "nope".to_owned());
    assert!(matches!(e, Error::Other(MiscError::InvalidToken(ref b)) if b == "nope"));

    let e: Error<TokenFromOAuth1Error> =
        classify_error(429, r#"{"reason": {".tag": "too_many_requests"}, "retry_after": 9}"#.to_owned());
    assert!(matches!(
        e,
        Error::Other(MiscError::RateLimited {
            reason: RateLimitReason::TooManyRequests,
            retry_after_seconds: 9
        })
    ));

    // Absent retry_after defaults to one second.
    let e: Error<TokenFromOAuth1Error> =
        classify_error(429, r#"{"reason": {".tag": "too_many_requests"}}"#.to_owned());
    assert!(matches!(
        e,
        Error::Other(MiscError::RateLimited { retry_after_seconds: 1, .. })
    ));

    let e: Error<TokenFromOAuth1Error> = classify_error(503, "oops".to_owned());
    assert!(matches!(e, Error::Other(MiscError::ServerError(ref b)) if b == "oops"));

    let e: Error<TokenFromOAuth1Error> = classify_error(418, "tea".to_owned());
    assert!(matches!(
        e,
        Error::Other(MiscError::UnexpectedHttpError { code: 418, ref response_body }) if response_body == "tea"
    ));
}

#[test]
fn handles_success_and_transport_failure() {
    let raw: Result<HttpRequestResultRaw<()>, HttpClientError> = Ok(HttpRequestResultRaw {
        result_json: r#"{"oauth2_token":"z"}"#.to_owned(),
        content_length: Some(3),
        body: None,
    });
    let r = handle_response::<TokenFromOAuth1Result, TokenFromOAuth1Error, ()>(raw);
    let hr = r.unwrap();
    assert_eq!("z", hr.result.oauth2_token);
    assert_eq!(Some(3), hr.content_length);

    let raw: Result<HttpRequestResultRaw<()>, HttpClientError> =
        Err(HttpClientError::Other("connection reset".to_owned()));
    let r = handle_response::<TokenFromOAuth1Result, TokenFromOAuth1Error, ()>(raw);
    assert!(matches!(
        r,
        Err(Error::Other(MiscError::HttpClient(ref m))) if m == "connection reset"
    ));

    // A success body that does not deserialize is a serialization error.
    let raw: Result<HttpRequestResultRaw<()>, HttpClientError> = Ok(HttpRequestResultRaw {
        result_json: "[]".to_owned(),
        content_length: None,
        body: None,
    });
    let r = handle_response::<TokenFromOAuth1Result, TokenFromOAuth1Error, ()>(raw);
    assert!(matches!(r, Err(Error::Other(MiscError::Json(ref b))) if b == "[]"));
}

#[test]
fn envelope_rejects_unknown_fields() {
    let ok: Option<TopLevelError<AuthError>> = parse_typed(
        r#"{"error_summary": "s", "user_message": "m", "error": {".tag": "user_suspended"}}"#,
    );
    let ok = ok.unwrap();
    assert_eq!("s", ok.error_summary);
    assert_eq!(Some("m".to_owned()), ok.user_message);
    assert_eq!(AuthError::UserSuspended, ok.error);

    let bad: Option<TopLevelError<AuthError>> = parse_typed(
        r#"{"error_summary": "s", "error": {".tag": "user_suspended"}, "extra": 1}"#,
    );
    assert!(bad.is_none());
}

// ---------------------------------------------------------------------------
// App-authenticated client: the Basic credential.
// ---------------------------------------------------------------------------

#[test]
fn app_auth_sends_encoded_key_and_secret() {
    let auth = Rc::new(Cell::new(None));
    let http = RecordingTransport { auth: auth.clone() };
    let mut client = AppAuthClient::new(http, "key", "secret");
    let _: Result<TokenFromOAuth1Result, Error<TokenFromOAuth1Error>> =
        request(&mut client, Endpoint::Api, Style::Rpc, "check/app", &(), None);
    let (token_type, credential) = auth.take().expect("a credential should have been sent");
    assert!(matches!(token_type, TokenType::Basic));
    assert_eq!("a2V5OnNlY3JldA==", credential);
}

// ---------------------------------------------------------------------------
// Request encoder: deterministic, byte-identical wire requests.
// ---------------------------------------------------------------------------

#[test]
fn encoding_is_deterministic() {
    let make = || {
        encode_request(
            Endpoint::Api,
            Style::Rpc,
            "files/list_folder",
            r#"{"path":""}"#,
            None,
            None,
            None,
            Some((TokenType::Bearer, "tok")),
            None,
            None,
        )
    };
    let a = make();
    let b = make();
    assert_eq!(a.url, b.url);
    assert_eq!(a.headers, b.headers);
    match (&a.body, &b.body) {
        (WireBody::Text(x), WireBody::Text(y)) => assert_eq!(x, y),
        _ => panic!("bodies took an unexpected shape"),
    }
}

#[test]
fn encodes_each_style() {
    let r = encode_request(
        Endpoint::Api,
        Style::Rpc,
        "files/list_folder",
        r#"{"path":""}"#,
        None,
        None,
        None,
        Some((TokenType::Bearer, "tok")),
        None,
        None,
    );
    assert_eq!("https://api.dropboxapi.com/2/files/list_folder", r.url);
    assert_eq!(
        vec![
            ("User-Agent".to_owned(), "Dropbox-APIv2-Rust".to_owned()),
            ("Authorization".to_owned(), "Bearer tok".to_owned()),
            ("Content-Type".to_owned(), "application/json".to_owned()),
        ],
        r.headers
    );
    assert!(matches!(r.body, WireBody::Text(ref t) if t == r#"{"path":""}"#));

    let r = encode_request(
        Endpoint::Content,
        Style::Upload,
        "files/upload",
        "{\"path\":\"/\u{fc}\"}",
        Some(b"data"),
        None,
        None,
        None,
        None,
        None,
    );
    assert_eq!(
        vec![
            ("User-Agent".to_owned(), "Dropbox-APIv2-Rust".to_owned()),
            ("Dropbox-API-Arg".to_owned(), "{\"path\":\"/\\u00fc\"}".to_owned()),
            ("Content-Type".to_owned(), "application/octet-stream".to_owned()),
        ],
        r.headers
    );
    assert!(matches!(r.body, WireBody::Bytes(ref b) if b == b"data"));

    let r = encode_request(
        Endpoint::Content,
        Style::Download,
        "files/download",
        r#"{"path":"/a"}"#,
        None,
        Some(5),
        Some(10),
        None,
        None,
        Some(&TeamSelect::Admin("id9".to_owned())),
    );
    assert_eq!(
        vec![
            ("User-Agent".to_owned(), "Dropbox-APIv2-Rust".to_owned()),
            ("Dropbox-API-Select-Admin".to_owned(), "id9".to_owned()),
            ("Range".to_owned(), "bytes=5-10".to_owned()),
            ("Dropbox-API-Arg".to_owned(), r#"{"path":"/a"}"#.to_owned()),
        ],
        r.headers
    );
    assert!(matches!(r.body, WireBody::Empty));

    let r = encode_request(
        Endpoint::Api,
        Style::Download,
        "f",
        "x",
        None,
        None,
        Some(100),
        None,
        None,
        None,
    );
    assert_eq!(("Range".to_owned(), "bytes=-100".to_owned()), r.headers[1]);
}

#[test]
fn unserializable_params_fail_before_dispatch() {
    let dispatches = Rc::new(Cell::new(0));
    let http = AlwaysExpired { dispatches: dispatches.clone() };
    let source = CountingSource { calls: Rc::new(Cell::new(0)), token: "t" };
    let mut client = UserAuthClient::from_auth(http, source);

    // A union's catch-all variant has no wire form.
    let result: Result<TokenFromOAuth1Result, Error<TokenFromOAuth1Error>> = request(
        &mut client,
        Endpoint::Api,
        Style::Rpc,
        "check/user",
        &AuthError::Other,
        None,
    );
    assert_eq!(0, dispatches.get());
    assert!(matches!(
        result,
        Err(Error::Other(MiscError::Json(ref m))) if m == "request parameters have no wire form"
    ));
}
