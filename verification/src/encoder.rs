//! The request encoder: from a route's endpoint, style, parameters, body
//! and context to the exact wire request the transport must send.  The
//! encoding is deterministic, so equal calls produce byte-identical
//! requests.

use vstd::prelude::*;
use crate::client_trait::{Endpoint, Style, TeamSelect, TeamSelectV, TokenType};
use crate::escape::{json_escape_header, spec_escape_header};
use crate::strutil::{spec_u64_dec, u64_dec_chars, chars_string};

verus! {

/// The body a wire request carries.
pub enum WireBody {
    /// No body at all.
    Empty,
    /// The parameters as JSON text (the RPC style).
    Text(String),
    /// Raw bytes (the upload style).
    Bytes(Vec<u8>),
}

/// The mathematical shape of a [`WireBody`].
pub enum WireBodyV {
    Empty,
    Text(Seq<char>),
    Bytes(Seq<u8>),
}

impl View for WireBody {
    type V = WireBodyV;

    open spec fn view(&self) -> WireBodyV {
        match self {
            WireBody::Empty => WireBodyV::Empty,
            WireBody::Text(s) => WireBodyV::Text(s@),
            WireBody::Bytes(b) => WireBodyV::Bytes(b@),
        }
    }
}

/// A fully encoded wire request: the URL, the headers in order, and the
/// body.
pub struct WireRequest {
    pub url: String,
    pub headers: Vec<(String, String)>,
    pub body: WireBody,
}

/// The mathematical shape of a [`WireRequest`].
pub struct WireRequestV {
    pub url: Seq<char>,
    pub headers: Seq<(Seq<char>, Seq<char>)>,
    pub body: WireBodyV,
}

pub open spec fn view_headers(s: Seq<(String, String)>) -> Seq<(Seq<char>, Seq<char>)>
    decreases s,
{
    if s.len() == 0 {
        Seq::empty()
    } else {
        seq![(s[0].0@, s[0].1@)] + view_headers(s.drop_first())
    }
}

pub proof fn lemma_view_headers_index(s: Seq<(String, String)>)
    ensures
        view_headers(s).len() == s.len(),
        forall|i: int|
            0 <= i < s.len() ==> #[trigger] view_headers(s)[i] == (s[i].0@, s[i].1@),
    decreases s,
{
    if s.len() > 0 {
        lemma_view_headers_index(s.drop_first());
        assert(view_headers(s) == seq![(s[0].0@, s[0].1@)] + view_headers(s.drop_first()));
        assert forall|i: int|
            0 <= i < s.len() implies #[trigger] view_headers(s)[i] == (s[i].0@, s[i].1@) by {
            if i > 0 {
                assert(view_headers(s)[i] == view_headers(s.drop_first())[i - 1]);
                assert(s.drop_first()[i - 1] == s[i]);
            }
        }
    }
}

impl View for WireRequest {
    type V = WireRequestV;

    open spec fn view(&self) -> WireRequestV {
        WireRequestV { url: self.url@, headers: view_headers(self.headers@), body: self.body@ }
    }
}

/// The name this library announces itself under.
pub open spec fn spec_user_agent() -> Seq<char> {
    "Dropbox-APIv2-Rust"@
}

/// The URL of an endpoint, as [`Endpoint::url`] gives it.
pub open spec fn spec_endpoint_url(endpoint: Endpoint) -> Seq<char> {
    match endpoint {
        Endpoint::Api => "https://api.dropboxapi.com/2/"@,
        Endpoint::Content => "https://content.dropboxapi.com/2/"@,
        Endpoint::Notify => "https://notify.dropboxapi.com/2/"@,
    }
}

/// The Range header's value: `bytes=start-end`, either bound optional.
pub open spec fn spec_range_value(range_start: Option<u64>, range_end: Option<u64>) -> Seq<char> {
    match (range_start, range_end) {
        (Some(s), Some(e)) => "bytes="@ + spec_u64_dec(s as nat) + "-"@ + spec_u64_dec(e as nat),
        (Some(s), None) => "bytes="@ + spec_u64_dec(s as nat) + "-"@,
        (None, Some(e)) => "bytes=-"@ + spec_u64_dec(e as nat),
        (None, None) => Seq::empty(),
    }
}

/// The headers every request carries before the style decides the rest:
/// the user agent, then the credential, the path-root override and the
/// team selector when present, then the byte range when present.
pub open spec fn spec_common_headers(
    token: Option<(TokenType, Seq<char>)>,
    path_root: Option<Seq<char>>,
    team_select: Option<TeamSelectV>,
    range_start: Option<u64>,
    range_end: Option<u64>,
) -> Seq<(Seq<char>, Seq<char>)> {
    let h0 = seq![("User-Agent"@, spec_user_agent())];
    let h1 = match token {
        Some((TokenType::Bearer, t)) => h0 + seq![("Authorization"@, "Bearer"@ + " "@ + t)],
        Some((TokenType::Basic, t)) => h0 + seq![("Authorization"@, "Basic"@ + " "@ + t)],
        None => h0,
    };
    let h2 = match path_root {
        Some(p) => h1 + seq![("Dropbox-API-Path-Root"@, p)],
        None => h1,
    };
    let h3 = match team_select {
        Some(TeamSelectV::User(id)) => h2 + seq![("Dropbox-API-Select-User"@, id)],
        Some(TeamSelectV::Admin(id)) => h2 + seq![("Dropbox-API-Select-Admin"@, id)],
        None => h2,
    };
    if range_start is Some || range_end is Some {
        h3 + seq![("Range"@, spec_range_value(range_start, range_end))]
    } else {
        h3
    }
}

/// The headers and body the style adds:
/// - RPC with empty parameters sends nothing more;
/// - RPC otherwise sends the parameters as a JSON body;
/// - upload and download put the parameters, escaped, into the argument
///   header; an upload's body is the raw bytes, a download sends none.
pub open spec fn spec_style_headers(style: Style, params: Seq<char>) -> Seq<
    (Seq<char>, Seq<char>),
> {
    if params.len() == 0 {
        match style {
            Style::Rpc => Seq::empty(),
            Style::Upload => seq![
                ("Dropbox-API-Arg"@, Seq::<char>::empty()),
                ("Content-Type"@, "application/octet-stream"@),
            ],
            Style::Download => seq![("Dropbox-API-Arg"@, Seq::<char>::empty())],
        }
    } else {
        match style {
            Style::Rpc => seq![("Content-Type"@, "application/json"@)],
            Style::Upload => seq![
                ("Dropbox-API-Arg"@, spec_escape_header(params)),
                ("Content-Type"@, "application/octet-stream"@),
            ],
            Style::Download => seq![("Dropbox-API-Arg"@, spec_escape_header(params))],
        }
    }
}

/// The body the style sends.
pub open spec fn spec_style_body(style: Style, params: Seq<char>, body: Option<Seq<u8>>) -> (
    WireBodyV
) {
    match style {
        Style::Rpc => if params.len() == 0 {
            WireBodyV::Empty
        } else {
            WireBodyV::Text(params)
        },
        Style::Upload => match body {
            Some(b) => WireBodyV::Bytes(b),
            None => WireBodyV::Bytes(Seq::empty()),
        },
        Style::Download => WireBodyV::Empty,
    }
}

/// The whole encoded request.
pub open spec fn spec_encode_request(
    endpoint: Endpoint,
    style: Style,
    function: Seq<char>,
    params: Seq<char>,
    body: Option<Seq<u8>>,
    range_start: Option<u64>,
    range_end: Option<u64>,
    token: Option<(TokenType, Seq<char>)>,
    path_root: Option<Seq<char>>,
    team_select: Option<TeamSelectV>,
) -> WireRequestV {
    WireRequestV {
        url: spec_endpoint_url(endpoint) + function,
        headers: spec_common_headers(token, path_root, team_select, range_start, range_end)
            + spec_style_headers(style, params),
        body: spec_style_body(style, params, body),
    }
}

fn push_header(headers: &mut Vec<(String, String)>, name: &str, value: String)
    ensures
        view_headers(final(headers)@) == view_headers(old(headers)@) + seq![(name@, value@)],
{
    proof {
        lemma_view_headers_index(old(headers)@);
    }
    let n = name.to_owned();
    let ghost pair = (n, value);
    headers.push((n, value));
    proof {
        lemma_view_headers_index(headers@);
        assert(headers@ =~= old(headers)@ + seq![pair]);
        assert(view_headers(headers@) =~= view_headers(old(headers)@) + seq![(name@, value@)]);
    }
}

/// The value of the Range header.
fn range_value(range_start: Option<u64>, range_end: Option<u64>) -> (r: String)
    ensures
        r@ == spec_range_value(range_start, range_end),
{
    proof {
        reveal_strlit("-");
        reveal_strlit("bytes=");
        reveal_strlit("bytes=-");
    }
    let mut out: Vec<char> = Vec::new();
    match (range_start, range_end) {
        (Some(s), Some(e)) => {
            let mut p: Vec<char> = crate::strutil::str_chars("bytes=");
            out.append(&mut p);
            let mut d = u64_dec_chars(s);
            out.append(&mut d);
            out.push('-');
            let mut d2 = u64_dec_chars(e);
            out.append(&mut d2);
            assert(out@ =~= spec_range_value(range_start, range_end));
        },
        (Some(s), None) => {
            let mut p: Vec<char> = crate::strutil::str_chars("bytes=");
            out.append(&mut p);
            let mut d = u64_dec_chars(s);
            out.append(&mut d);
            out.push('-');
            assert(out@ =~= spec_range_value(range_start, range_end));
        },
        (None, Some(e)) => {
            let mut p: Vec<char> = crate::strutil::str_chars("bytes=-");
            out.append(&mut p);
            let mut d = u64_dec_chars(e);
            out.append(&mut d);
            assert(out@ =~= spec_range_value(range_start, range_end));
        },
        (None, None) => {},
    }
    chars_string(&out)
}

/// Builds the wire request for a call, deterministically.  Only an upload
/// may carry a request body, and the RPC style admits no byte range:
/// violating either is a programmer error, not a runtime condition.
#[allow(clippy::too_many_arguments)]
pub fn encode_request(
    endpoint: Endpoint,
    style: Style,
    function: &str,
    params: &str,
    body: Option<&[u8]>,
    range_start: Option<u64>,
    range_end: Option<u64>,
    token: Option<(TokenType, &str)>,
    path_root: Option<&str>,
    team_select: Option<&TeamSelect>,
) -> (r: WireRequest)
    requires
        !(style is Upload) ==> body is None,
        style is Rpc ==> range_start is None && range_end is None,
    ensures
        r@ == spec_encode_request(
            endpoint,
            style,
            function@,
            params@,
            match body {
                Some(b) => Some(b@),
                None => None,
            },
            range_start,
            range_end,
            match token {
                Some((tt, t)) => Some((tt, t@)),
                None => None,
            },
            match path_root {
                Some(p) => Some(p@),
                None => None,
            },
            match team_select {
                Some(t) => Some(t@),
                None => None,
            },
        ),
{
    let url = endpoint.url().to_owned().concat(function);

    let mut headers: Vec<(String, String)> = Vec::new();
    assert(view_headers(headers@) =~= Seq::<(Seq<char>, Seq<char>)>::empty());
    push_header(&mut headers, "User-Agent", "Dropbox-APIv2-Rust".to_owned());
    match token {
        Some((tt, t)) => {
            let value = tt.authorization_type().to_owned().concat(" ").concat(t);
            push_header(&mut headers, "Authorization", value);
        },
        None => {},
    }
    match path_root {
        Some(p) => {
            push_header(&mut headers, "Dropbox-API-Path-Root", p.to_owned());
        },
        None => {},
    }
    match team_select {
        Some(TeamSelect::User(id)) => {
            push_header(&mut headers, "Dropbox-API-Select-User", id.clone());
        },
        Some(TeamSelect::Admin(id)) => {
            push_header(&mut headers, "Dropbox-API-Select-Admin", id.clone());
        },
        None => {},
    }
    if range_start.is_some() || range_end.is_some() {
        let value = range_value(range_start, range_end);
        push_header(&mut headers, "Range", value);
    }
    assert(view_headers(headers@) =~= spec_common_headers(
        match token {
            Some((tt, t)) => Some((tt, t@)),
            None => None,
        },
        match path_root {
            Some(p) => Some(p@),
            None => None,
        },
        match team_select {
            Some(t) => Some(t@),
            None => None,
        },
        range_start,
        range_end,
    ));

    let wire_body: WireBody;
    if params.is_empty() {
        match style {
            Style::Rpc => {
                wire_body = WireBody::Empty;
            },
            Style::Upload => {
                push_header(&mut headers, "Dropbox-API-Arg", json_escape_header(params));
                push_header(
                    &mut headers,
                    "Content-Type",
                    "application/octet-stream".to_owned(),
                );
                proof {
                    crate::escape::lemma_escape_header_ascii_identity(params@);
                }
                wire_body = match body {
                    Some(b) => WireBody::Bytes(crate::strutil::bytes_to_vec(b)),
                    None => WireBody::Bytes(Vec::new()),
                };
            },
            Style::Download => {
                push_header(&mut headers, "Dropbox-API-Arg", json_escape_header(params));
                proof {
                    crate::escape::lemma_escape_header_ascii_identity(params@);
                }
                wire_body = WireBody::Empty;
            },
        }
    } else {
        match style {
            Style::Rpc => {
                push_header(&mut headers, "Content-Type", "application/json".to_owned());
                wire_body = WireBody::Text(params.to_owned());
            },
            Style::Upload => {
                push_header(&mut headers, "Dropbox-API-Arg", json_escape_header(params));
                push_header(
                    &mut headers,
                    "Content-Type",
                    "application/octet-stream".to_owned(),
                );
                wire_body = match body {
                    Some(b) => WireBody::Bytes(crate::strutil::bytes_to_vec(b)),
                    None => WireBody::Bytes(Vec::new()),
                };
            },
            Style::Download => {
                push_header(&mut headers, "Dropbox-API-Arg", json_escape_header(params));
                wire_body = WireBody::Empty;
            },
        }
    }

    let r = WireRequest { url, headers, body: wire_body };
    proof {
        assert(r@.headers =~= spec_common_headers(
            match token {
                Some((tt, t)) => Some((tt, t@)),
                None => None,
            },
            match path_root {
                Some(p) => Some(p@),
                None => None,
            },
            match team_select {
                Some(t) => Some(t@),
                None => None,
            },
            range_start,
            range_end,
        ) + spec_style_headers(style, params@));
    }
    r
}

/// Law: encoding is a function of the call alone.  Any two wire requests
/// that the encoder's contract admits for the same endpoint, style, route,
/// parameters, body, range and context are equal, so issuing the same call
/// twice produces byte-identical requests.
pub proof fn lemma_encode_deterministic(
    r1: WireRequestV,
    r2: WireRequestV,
    endpoint: Endpoint,
    style: Style,
    function: Seq<char>,
    params: Seq<char>,
    body: Option<Seq<u8>>,
    range_start: Option<u64>,
    range_end: Option<u64>,
    token: Option<(TokenType, Seq<char>)>,
    path_root: Option<Seq<char>>,
    team_select: Option<TeamSelectV>,
)
    requires
        r1 == spec_encode_request(
            endpoint,
            style,
            function,
            params,
            body,
            range_start,
            range_end,
            token,
            path_root,
            team_select,
        ),
        r2 == spec_encode_request(
            endpoint,
            style,
            function,
            params,
            body,
            range_start,
            range_end,
            token,
            path_root,
            team_select,
        ),
    ensures
        r1 == r2,
{
}

} // verus!
