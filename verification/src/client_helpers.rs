//! The route-independent half of every call: turning a raw transport
//! outcome into a typed result or a typed error, exactly as the wire
//! protocol defines it.

use vstd::prelude::*;
use crate::{Error, ErrorV, MiscError, MiscErrorV};
use crate::auth::{AuthError, AuthErrorV, RateLimitError};
use crate::client::Client;
use crate::client_trait::{Endpoint, HttpClientError, HttpRequestResult, HttpRequestResultRaw, Style};
use crate::json::{
    Json, JsonVal, FromJson, ToJson, key_count, key_first, scan_members, view_members,
    lemma_view_members_index, spec_parse_json, parse_json, write_json_string,
};
use crate::strutil::string_eq_str;

verus! {

/// The envelope an HTTP 409 response carries: the route-specific error with
/// a summary around it.
#[derive(Debug, Clone, PartialEq)]
pub struct TopLevelError<T> {
    pub error_summary: String,
    pub user_message: Option<String>,
    pub error: T,
}

/// The mathematical shape of a [`TopLevelError`].
pub struct TopLevelErrorV<TV> {
    pub error_summary: Seq<char>,
    pub user_message: Option<Seq<char>>,
    pub error: TV,
}

impl<T: View> View for TopLevelError<T> {
    type V = TopLevelErrorV<T::V>;

    open spec fn view(&self) -> TopLevelErrorV<T::V> {
        TopLevelErrorV {
            error_summary: self.error_summary@,
            user_message: match self.user_message {
                Some(ref s) => Some(s@),
                None => None,
            },
            error: self.error@,
        }
    }
}

/// Whether every member of the envelope is one of its three fields; the
/// envelope, unlike the other wire structs, rejects unknown fields.
pub open spec fn spec_envelope_keys_known(ms: Seq<(Seq<char>, JsonVal)>) -> bool {
    forall|i: int|
        0 <= i < ms.len() ==> (#[trigger] ms[i].0) == "error_summary"@ || ms[i].0
            == "user_message"@ || ms[i].0 == "error"@
}

fn envelope_keys_known(members: &Vec<(String, Json)>) -> (r: bool)
    ensures
        r == spec_envelope_keys_known(view_members(members@)),
{
    proof {
        lemma_view_members_index(members@);
    }
    let ghost ms = view_members(members@);
    let mut i: usize = 0;
    let mut ok = true;
    while i < members.len()
        invariant
            i <= members@.len(),
            ms == view_members(members@),
            ms.len() == members@.len(),
            forall|k: int| 0 <= k < members@.len() ==> #[trigger] ms[k] == (
                members@[k].0@,
                members@[k].1@,
            ),
            ok == (forall|k: int|
                0 <= k < i ==> (#[trigger] ms[k].0) == "error_summary"@ || ms[k].0
                    == "user_message"@ || ms[k].0 == "error"@),
        decreases members@.len() - i,
    {
        let known = string_eq_str(&members[i].0, "error_summary") || string_eq_str(
            &members[i].0,
            "user_message",
        ) || string_eq_str(&members[i].0, "error");
        proof {
            assert(ms[i as int] == (members@[i as int].0@, members@[i as int].1@));
            if ok && known {
                assert forall|k: int|
                    0 <= k < i + 1 implies ((#[trigger] ms[k].0) == "error_summary"@ || ms[k].0
                    == "user_message"@ || ms[k].0 == "error"@) by {
                    if k < i {
                        assert(ms[k].0 == "error_summary"@ || ms[k].0 == "user_message"@
                            || ms[k].0 == "error"@);
                    }
                }
            } else if !known {
                assert(!(ms[i as int].0 == "error_summary"@ || ms[i as int].0 == "user_message"@
                    || ms[i as int].0 == "error"@));
            }
        }
        ok = ok && known;
        i = i + 1;
    }
    ok
}

/// What the envelope's fields denote among an object's members.
pub open spec fn spec_envelope_fields<TV>(
    ms: Seq<(Seq<char>, JsonVal)>,
    parse_error: spec_fn(JsonVal) -> Option<TV>,
) -> Option<TopLevelErrorV<TV>> {
    if !spec_envelope_keys_known(ms) {
        None
    } else if key_count(ms, "error_summary"@) != 1 || key_count(ms, "user_message"@) > 1
        || key_count(ms, "error"@) != 1 {
        None
    } else {
        match (key_first(ms, "error_summary"@), key_first(ms, "error"@)) {
            (Some(JsonVal::Str(summary)), Some(ev)) => {
                let um = if key_count(ms, "user_message"@) == 0 {
                    Some(None)
                } else {
                    match key_first(ms, "user_message"@) {
                        Some(JsonVal::Str(m)) => Some(Some(m)),
                        _ => None,
                    }
                };
                match um {
                    Some(user_message) => match parse_error(ev) {
                        Some(e) => Some(
                            TopLevelErrorV { error_summary: summary, user_message, error: e },
                        ),
                        None => None,
                    },
                    None => None,
                }
            },
            _ => None,
        }
    }
}

impl<T: FromJson> FromJson for TopLevelError<T> {
    open spec fn spec_from_json(v: JsonVal) -> Option<TopLevelErrorV<T::V>> {
        match v {
            JsonVal::Obj(ms) => spec_envelope_fields(ms, |ev: JsonVal| T::spec_from_json(ev)),
            _ => None,
        }
    }

    fn from_json(v: &Json) -> (r: Option<Self>) {
        match v {
            Json::Obj(members) => {
                proof {
                    lemma_view_members_index(members@);
                }
                if !envelope_keys_known(members) {
                    return None;
                }
                let (sc, si) = scan_members(members, "error_summary");
                let (uc, ui) = scan_members(members, "user_message");
                let (ec, ei) = scan_members(members, "error");
                if sc != 1 || uc > 1 || ec != 1 {
                    return None;
                }
                let (si, ei) = match (si, ei) {
                    (Some(a), Some(b)) => (a, b),
                    _ => {
                        assert(false);
                        return None;
                    },
                };
                let summary = match &members[si].1 {
                    Json::Str(s) => s.clone(),
                    _ => {
                        return None;
                    },
                };
                let user_message = if uc == 0 {
                    None
                } else {
                    match ui {
                        Some(k) => match &members[k].1 {
                            Json::Str(m) => Some(m.clone()),
                            _ => {
                                return None;
                            },
                        },
                        None => {
                            assert(false);
                            return None;
                        },
                    }
                };
                match T::from_json(&members[ei].1) {
                    Some(e) => Some(
                        TopLevelError { error_summary: summary, user_message, error: e },
                    ),
                    None => None,
                }
            },
            _ => None,
        }
    }
}

/// A JSON text read as a typed value: it must parse and the value must have
/// the type's shape.
pub open spec fn spec_parse_typed<T: FromJson>(s: Seq<char>) -> Option<T::V> {
    match spec_parse_json(s) {
        Some(v) => T::spec_from_json(v),
        None => None,
    }
}

/// Reads a JSON text as a typed value.
pub fn parse_typed<T: FromJson>(s: &str) -> (r: Option<T>)
    ensures
        match r {
            Some(t) => spec_parse_typed::<T>(s@) == Some(t@),
            None => spec_parse_typed::<T>(s@) is None,
        },
{
    match parse_json(s) {
        Some(j) => T::from_json(&j),
        None => None,
    }
}

/// The authentication error an HTTP 401 body names, when it can be read as
/// the error envelope.
pub open spec fn spec_auth_401(body: Seq<char>) -> Option<AuthErrorV> {
    match spec_parse_typed::<TopLevelError<AuthError>>(body) {
        Some(env) => Some(env.error),
        None => None,
    }
}

/// How a non-success HTTP status and its body classify, route error type
/// `E`:
/// - 400 is a bad request, with the raw body as the message;
/// - 401 is an authentication error when the body's envelope can be read
///   (an expired access token is what the authenticated client retries on),
///   and otherwise an invalid token carrying the raw body;
/// - 409 carries the route's typed error in the envelope; a body that does
///   not deserialize is a serialization error, never a panic;
/// - 429 is rate limiting, with the reason and the seconds to wait
///   (one second when the body does not carry the field);
/// - 500 through 599 are server errors;
/// - anything else is an unexpected HTTP error with its code and body.
pub open spec fn spec_classify_error<E: FromJson>(code: u16, body: Seq<char>) -> ErrorV<E::V> {
    if code == 400 {
        ErrorV::Other(MiscErrorV::BadRequest(body))
    } else if code == 401 {
        match spec_auth_401(body) {
            Some(ae) => ErrorV::Other(MiscErrorV::Authentication(ae)),
            None => ErrorV::Other(MiscErrorV::InvalidToken(body)),
        }
    } else if code == 409 {
        match spec_parse_typed::<TopLevelError<E>>(body) {
            Some(env) => ErrorV::API(env.error),
            None => ErrorV::Other(MiscErrorV::Json(body)),
        }
    } else if code == 429 {
        match spec_parse_typed::<RateLimitError>(body) {
            Some(rl) => ErrorV::Other(
                MiscErrorV::RateLimited { reason: rl.reason, retry_after_seconds: rl.retry_after },
            ),
            None => ErrorV::Other(MiscErrorV::Json(body)),
        }
    } else if 500 <= code && code <= 599 {
        ErrorV::Other(MiscErrorV::ServerError(body))
    } else {
        ErrorV::Other(MiscErrorV::UnexpectedHttpError { code, response_body: body })
    }
}

/// Classifies a non-success HTTP response.
pub fn classify_error<E: FromJson>(code: u16, body: String) -> (r: Error<E>)
    ensures
        r@ == spec_classify_error::<E>(code, body@),
{
    if code == 400 {
        Error::Other(MiscError::BadRequest(body))
    } else if code == 401 {
        match parse_typed::<TopLevelError<AuthError>>(body.as_str()) {
            Some(env) => Error::Other(MiscError::Authentication(env.error)),
            None => Error::Other(MiscError::InvalidToken(body)),
        }
    } else if code == 409 {
        match parse_typed::<TopLevelError<E>>(body.as_str()) {
            Some(env) => Error::API(env.error),
            None => Error::Other(MiscError::Json(body)),
        }
    } else if code == 429 {
        match parse_typed::<RateLimitError>(body.as_str()) {
            Some(rl) => Error::Other(
                MiscError::RateLimited {
                    reason: rl.reason,
                    retry_after_seconds: rl.retry_after,
                },
            ),
            None => Error::Other(MiscError::Json(body)),
        }
    } else if 500 <= code && code <= 599 {
        Error::Other(MiscError::ServerError(body))
    } else {
        Error::Other(MiscError::UnexpectedHttpError { code, response_body: body })
    }
}

/// Turns a raw transport outcome into the two-level result callers see: the
/// outer error says the call failed around the route, `Error::API` carries
/// the error the route itself reported, and a success holds the typed
/// result with the body stream passed through untouched.
pub fn handle_response<T: FromJson, E: FromJson, B>(
    result: Result<HttpRequestResultRaw<B>, HttpClientError>,
) -> (r: Result<HttpRequestResult<T, B>, Error<E>>)
    ensures
        match result {
            Ok(raw) => match spec_parse_typed::<T>(raw.result_json@) {
                Some(t) => r matches Ok(hr) && hr.result@ == t && hr.content_length
                    == raw.content_length && hr.body == raw.body,
                None => r matches Err(e) && e@ == ErrorV::<E::V>::Other(
                    MiscErrorV::Json(raw.result_json@),
                ),
            },
            Err(HttpClientError::HttpError { code, response_body }) => r matches Err(e) && e@
                == spec_classify_error::<E>(code, response_body@),
            Err(HttpClientError::Other(m)) => r matches Err(e) && e@ == ErrorV::<E::V>::Other(
                MiscErrorV::HttpClient(m@),
            ),
        },
{
    match result {
        Ok(raw) => {
            match parse_typed::<T>(raw.result_json.as_str()) {
                Some(t) => Ok(
                    HttpRequestResult {
                        result: t,
                        content_length: raw.content_length,
                        body: raw.body,
                    },
                ),
                None => Err(Error::Other(MiscError::Json(raw.result_json))),
            }
        },
        Err(HttpClientError::HttpError { code, response_body }) => Err(
            classify_error::<E>(code, response_body),
        ),
        Err(HttpClientError::Other(m)) => Err(Error::Other(MiscError::HttpClient(m))),
    }
}

/// Does the request and returns the two-level result, with the response's
/// body stream kept.  The route's parameters are serialized here; a value
/// without a wire form is a serialization error before anything is sent.
pub fn request_with_body<T: FromJson, E: FromJson, P: ToJson, B, C: Client<B>>(
    client: &mut C,
    endpoint: Endpoint,
    style: Style,
    function: &str,
    params: &P,
    body: Option<&[u8]>,
    range_start: Option<u64>,
    range_end: Option<u64>,
) -> (r: Result<HttpRequestResult<T, B>, Error<E>>)
    ensures
        P::spec_to_json(params@) is None ==> (r matches Err(e) && e@ == ErrorV::<E::V>::Other(
            MiscErrorV::Json("request parameters have no wire form"@),
        )),
{
    let params_json = match params.to_json() {
        Some(j) => write_json_string(&j),
        None => {
            // The one failure of the library's own making carries a fixed
            // message, so callers can tell it from a classified response
            // body.
            return Err(Error::Other(MiscError::Json(
                "request parameters have no wire form".to_owned(),
            )));
        },
    };
    let raw = client.request(
        endpoint,
        style,
        function,
        params_json.as_str(),
        body,
        range_start,
        range_end,
    );
    handle_response::<T, E, B>(raw)
}

/// Does the request and returns the two-level result, dropping any body
/// stream.
pub fn request<T: FromJson, E: FromJson, P: ToJson, B, C: Client<B>>(
    client: &mut C,
    endpoint: Endpoint,
    style: Style,
    function: &str,
    params: &P,
    body: Option<&[u8]>,
) -> (r: Result<T, Error<E>>)
    ensures
        P::spec_to_json(params@) is None ==> (r matches Err(e) && e@ == ErrorV::<E::V>::Other(
            MiscErrorV::Json("request parameters have no wire form"@),
        )),
{
    match request_with_body::<T, E, P, B, C>(
        client,
        endpoint,
        style,
        function,
        params,
        body,
        None,
        None,
    ) {
        Ok(hr) => Ok(hr.result),
        Err(e) => Err(e),
    }
}

} // verus!
