//! The OAuth2 side of the pipeline: the token cache that makes refreshing
//! safe under concurrent callers, and the authorization-URL builder.

use vstd::prelude::*;
use vstd::string::StringSliceAdditionalSpecFns;
use crate::{MiscError, MiscErrorV};
use crate::client_trait::HttpClientError;
use crate::json::{Json, JsonVal, key_first, scan_members, view_members, lemma_view_members_index,
    parse_json, spec_parse_json};
use crate::strutil::{string_eq_str, str_chars, chars_string};

verus! {

/// A source of fresh bearer tokens: whatever can run the refresh flow.
/// Implementations do the I/O; nothing is assumed about what they return.
pub trait TokenSource {
    /// Obtains a fresh bearer token.
    fn fetch_token(&self) -> Result<String, HttpClientError>;
}

/// Holds the current bearer credential and replaces it at most once per
/// staleness window: a caller that observed a stale credential triggers a
/// refresh only while that credential is still the cached one
/// (compare-and-refresh).
pub struct TokenCache {
    current: Option<String>,
    refreshes: Ghost<nat>,
}

impl TokenCache {
    /// The credential the cache holds.
    pub closed spec fn cached(&self) -> Option<Seq<char>> {
        match self.current {
            Some(ref s) => Some(s@),
            None => None,
        }
    }

    /// How many times the underlying source has been asked for a token.
    pub closed spec fn refresh_count(&self) -> nat {
        self.refreshes@
    }

    /// Whether a caller that holds `stale` would cause a refresh: only when
    /// the cache still holds that very credential, or none at all.
    pub open spec fn spec_needs_refresh(cached: Option<Seq<char>>, stale: Seq<char>) -> bool {
        match cached {
            Some(c) => c == stale,
            None => true,
        }
    }

    /// An empty cache: the first use will fetch a token.
    pub fn new() -> (r: Self)
        ensures
            r.cached() is None,
            r.refresh_count() == 0,
    {
        TokenCache { current: None, refreshes: Ghost(0) }
    }

    /// A cache that starts out holding a known credential.
    pub fn with_token(token: String) -> (r: Self)
        ensures
            r.cached() == Some(token@),
            r.refresh_count() == 0,
    {
        TokenCache { current: Some(token), refreshes: Ghost(0) }
    }

    /// The current credential, fetching one on first use.
    pub fn get_token<S: TokenSource>(&mut self, source: &S) -> (r: Result<String, HttpClientError>)
        ensures
            old(self).cached() matches Some(c) ==> r matches Ok(t) && t@ == c && *final(self)
                == *old(self),
            old(self).cached() is None ==> match r {
                Ok(t) => final(self).cached() == Some(t@) && final(self).refresh_count() == old(
                    self,
                ).refresh_count() + 1,
                Err(_) => *final(self) == *old(self),
            },
    {
        match &self.current {
            Some(t) => Ok(t.clone()),
            None => {
                match source.fetch_token() {
                    Ok(t) => {
                        self.current = Some(t.clone());
                        proof {
                            self.refreshes@ = self.refreshes@ + 1;
                        }
                        Ok(t)
                    },
                    Err(e) => Err(e),
                }
            },
        }
    }

    /// Compare-and-refresh: replaces the credential only if the caller's
    /// stale credential is still the cached one; if another caller already
    /// refreshed past it, returns the newer credential without a redundant
    /// fetch.  A refresh failure is handed back verbatim and leaves the
    /// cache as it was.
    pub fn update_token<S: TokenSource>(&mut self, source: &S, stale: &str) -> (r: Result<
        String,
        HttpClientError,
    >)
        ensures
            !Self::spec_needs_refresh(old(self).cached(), stale@) ==> (*final(self) == *old(
                self,
            ) && (r matches Ok(t) && old(self).cached() == Some(t@))),
            Self::spec_needs_refresh(old(self).cached(), stale@) ==> match r {
                Ok(t) => final(self).cached() == Some(t@) && final(self).refresh_count() == old(
                    self,
                ).refresh_count() + 1,
                Err(_) => *final(self) == *old(self),
            },
    {
        match &self.current {
            Some(c) => {
                if !string_eq_str(c, stale) {
                    return Ok(c.clone());
                }
            },
            None => {},
        }
        match source.fetch_token() {
            Ok(t) => {
                self.current = Some(t.clone());
                proof {
                    self.refreshes@ = self.refreshes@ + 1;
                }
                Ok(t)
            },
            Err(e) => Err(e),
        }
    }
}

/// What one compare-and-refresh does to the cache, as
/// [`TokenCache::update_token`]'s contract states it, given the credential
/// the source would hand back on a refresh: the new cache contents, the
/// credential the caller receives, and whether a refresh was spent.
pub open spec fn spec_update_step(
    cached: Option<Seq<char>>,
    stale: Seq<char>,
    fetched: Seq<char>,
) -> (Option<Seq<char>>, Seq<char>, bool) {
    if !TokenCache::spec_needs_refresh(cached, stale) {
        (cached, cached->Some_0, false)
    } else {
        (Some(fetched), fetched, true)
    }
}

/// `n` callers in turn, each holding the same stale credential: the cache
/// contents afterwards, and how many refreshes were spent in all.
pub open spec fn spec_update_many(
    cached: Option<Seq<char>>,
    stale: Seq<char>,
    fetched: Seq<char>,
    n: nat,
) -> (Option<Seq<char>>, nat)
    decreases n,
{
    if n == 0 {
        (cached, 0)
    } else {
        let (after, count) = spec_update_many(cached, stale, fetched, (n - 1) as nat);
        let (next, _, refreshed) = spec_update_step(after, stale, fetched);
        (next, count + if refreshed {
            1nat
        } else {
            0nat
        })
    }
}

/// Law: compare-and-refresh performs at most one refresh per staleness
/// window, and every caller receives the same new credential.  However many
/// callers hold the same stale credential, only the first one's call spends
/// a refresh (the fresh credential differs from the stale one, as a fresh
/// token does); each later call takes the no-refresh path and receives the
/// credential the first caller installed.
pub proof fn lemma_compare_and_refresh_once(stale: Seq<char>, fresh: Seq<char>, n: nat)
    requires
        fresh != stale,
        n >= 1,
    ensures
        TokenCache::spec_needs_refresh(Some(stale), stale),
        !TokenCache::spec_needs_refresh(Some(fresh), stale),
        spec_update_many(Some(stale), stale, fresh, n) == (Some(fresh), 1nat),
        forall|k: nat|
            1 <= k <= n ==> #[trigger] spec_update_step(
                spec_update_many(Some(stale), stale, fresh, (k - 1) as nat).0,
                stale,
                fresh,
            ).1 == fresh,
    decreases n,
{
    if n == 1 {
        assert(spec_update_many(Some(stale), stale, fresh, 0) == (Some(stale), 0nat));
        assert(spec_update_many(Some(stale), stale, fresh, 1) == (Some(fresh), 1nat));
    } else {
        lemma_compare_and_refresh_once(stale, fresh, (n - 1) as nat);
        assert(spec_update_many(Some(stale), stale, fresh, n) == (Some(fresh), 1nat));
        assert forall|k: nat| 1 <= k <= n implies #[trigger] spec_update_step(
            spec_update_many(Some(stale), stale, fresh, (k - 1) as nat).0,
            stale,
            fresh,
        ).1 == fresh by {
            if k < n {
            } else {
                assert(spec_update_many(Some(stale), stale, fresh, (n - 1) as nat).0 == Some(
                    fresh,
                ));
            }
        }
    }
}

/// Which type of OAuth2 flow to use.
#[derive(Debug, Copy, Clone)]
pub enum Oauth2Type {
    /// Authorization yields a temporary authorization code which must be
    /// turned into an OAuth2 token by making another call.  This can be used
    /// without a redirect URI, where the user inputs the code directly into
    /// the program.
    AuthorizationCode,
    /// Authorization directly returns an OAuth2 token.  This can only be
    /// used with a redirect URI, where the server redirects the user's web
    /// browser to the program.
    ImplicitGrant,
}

impl Oauth2Type {
    /// The response type parameter of the authorization URL.
    pub fn as_str(self) -> (r: &'static str)
        ensures
            self is AuthorizationCode ==> r@ == "code"@,
            self is ImplicitGrant ==> r@ == "token"@,
    {
        match self {
            Oauth2Type::AuthorizationCode => "code",
            Oauth2Type::ImplicitGrant => "token",
        }
    }
}

/// Builds a URL that can be given to the user to visit to have the service
/// authorize your app.
#[derive(Debug)]
pub struct Oauth2AuthorizeUrlBuilder<'a> {
    client_id: &'a str,
    response_type: &'a str,
    force_reapprove: bool,
    force_reauthentication: bool,
    disable_signup: bool,
    redirect_uri: Option<&'a str>,
    state: Option<&'a str>,
    require_role: Option<&'a str>,
    locale: Option<&'a str>,
}

impl<'a> Oauth2AuthorizeUrlBuilder<'a> {
    pub closed spec fn spec_client_id(&self) -> Seq<char> {
        self.client_id@
    }

    pub closed spec fn spec_response_type(&self) -> Seq<char> {
        self.response_type@
    }

    pub closed spec fn spec_flags(&self) -> (bool, bool, bool) {
        (self.force_reapprove, self.force_reauthentication, self.disable_signup)
    }

    pub closed spec fn spec_redirect_uri(&self) -> Option<Seq<char>> {
        match self.redirect_uri {
            Some(s) => Some(s@),
            None => None,
        }
    }

    pub closed spec fn spec_state(&self) -> Option<Seq<char>> {
        match self.state {
            Some(s) => Some(s@),
            None => None,
        }
    }

    pub closed spec fn spec_require_role(&self) -> Option<Seq<char>> {
        match self.require_role {
            Some(s) => Some(s@),
            None => None,
        }
    }

    pub closed spec fn spec_locale(&self) -> Option<Seq<char>> {
        match self.locale {
            Some(s) => Some(s@),
            None => None,
        }
    }

    pub fn new(client_id: &'a str, oauth2_type: Oauth2Type) -> (r: Self)
        ensures
            r.spec_client_id() == client_id@,
            r.spec_response_type() == (match oauth2_type {
                Oauth2Type::AuthorizationCode => "code"@,
                Oauth2Type::ImplicitGrant => "token"@,
            }),
            r.spec_flags() == (false, false, false),
            r.spec_redirect_uri() is None,
            r.spec_state() is None,
            r.spec_require_role() is None,
            r.spec_locale() is None,
    {
        Self {
            client_id,
            response_type: oauth2_type.as_str(),
            force_reapprove: false,
            force_reauthentication: false,
            disable_signup: false,
            redirect_uri: None,
            state: None,
            require_role: None,
            locale: None,
        }
    }

    /// What every setter leaves alone: the identity of the builder but for
    /// the one field it sets.
    pub open spec fn same_but_flags(&self, o: &Self) -> bool {
        self.spec_client_id() == o.spec_client_id() && self.spec_response_type()
            == o.spec_response_type() && self.spec_redirect_uri() == o.spec_redirect_uri()
            && self.spec_state() == o.spec_state() && self.spec_require_role()
            == o.spec_require_role() && self.spec_locale() == o.spec_locale()
    }

    pub fn force_reapprove(self, value: bool) -> (r: Self)
        ensures
            r.same_but_flags(&self),
            r.spec_flags() == (value, self.spec_flags().1, self.spec_flags().2),
    {
        Self { force_reapprove: value, ..self }
    }

    pub fn force_reauthentication(self, value: bool) -> (r: Self)
        ensures
            r.same_but_flags(&self),
            r.spec_flags() == (self.spec_flags().0, value, self.spec_flags().2),
    {
        Self { force_reauthentication: value, ..self }
    }

    pub fn disable_signup(self, value: bool) -> (r: Self)
        ensures
            r.same_but_flags(&self),
            r.spec_flags() == (self.spec_flags().0, self.spec_flags().1, value),
    {
        Self { disable_signup: value, ..self }
    }

    pub fn redirect_uri(self, value: &'a str) -> (r: Self)
        ensures
            r.spec_redirect_uri() == Some(value@),
            r.spec_flags() == self.spec_flags(),
            r.spec_client_id() == self.spec_client_id(),
            r.spec_response_type() == self.spec_response_type(),
            r.spec_state() == self.spec_state(),
            r.spec_require_role() == self.spec_require_role(),
            r.spec_locale() == self.spec_locale(),
    {
        Self { redirect_uri: Some(value), ..self }
    }

    pub fn state(self, value: &'a str) -> (r: Self)
        ensures
            r.spec_state() == Some(value@),
            r.spec_flags() == self.spec_flags(),
            r.spec_client_id() == self.spec_client_id(),
            r.spec_response_type() == self.spec_response_type(),
            r.spec_redirect_uri() == self.spec_redirect_uri(),
            r.spec_require_role() == self.spec_require_role(),
            r.spec_locale() == self.spec_locale(),
    {
        Self { state: Some(value), ..self }
    }

    pub fn require_role(self, value: &'a str) -> (r: Self)
        ensures
            r.spec_require_role() == Some(value@),
            r.spec_flags() == self.spec_flags(),
            r.spec_client_id() == self.spec_client_id(),
            r.spec_response_type() == self.spec_response_type(),
            r.spec_redirect_uri() == self.spec_redirect_uri(),
            r.spec_state() == self.spec_state(),
            r.spec_locale() == self.spec_locale(),
    {
        Self { require_role: Some(value), ..self }
    }

    pub fn locale(self, value: &'a str) -> (r: Self)
        ensures
            r.spec_locale() == Some(value@),
            r.spec_flags() == self.spec_flags(),
            r.spec_client_id() == self.spec_client_id(),
            r.spec_response_type() == self.spec_response_type(),
            r.spec_redirect_uri() == self.spec_redirect_uri(),
            r.spec_state() == self.spec_state(),
            r.spec_require_role() == self.spec_require_role(),
    {
        Self { locale: Some(value), ..self }
    }

    /// The URL the builder produces: the authorization endpoint with the
    /// response type and client id, then each option that was set, in a
    /// fixed order, with values form-urlencoded.
    pub closed spec fn spec_build(&self) -> Seq<char> {
        let base = "https://www.dropbox.com/oauth2/authorize?response_type="@ + spec_form_encode(
            self.response_type,
        ) + "&client_id="@ + spec_form_encode(self.client_id);
        let b1 = if self.force_reapprove {
            base + "&force_reapprove=true"@
        } else {
            base
        };
        let b2 = if self.force_reauthentication {
            b1 + "&force_reauthentication=true"@
        } else {
            b1
        };
        let b3 = if self.disable_signup {
            b2 + "&disable_signup=true"@
        } else {
            b2
        };
        let b4 = match self.redirect_uri {
            Some(u) => b3 + "&redirect_uri="@ + spec_form_encode(u),
            None => b3,
        };
        let b5 = match self.state {
            Some(u) => b4 + "&state="@ + spec_form_encode(u),
            None => b4,
        };
        let b6 = match self.require_role {
            Some(u) => b5 + "&require_role="@ + spec_form_encode(u),
            None => b5,
        };
        match self.locale {
            Some(u) => b6 + "&locale="@ + spec_form_encode(u),
            None => b6,
        }
    }

    /// Builds the authorization URL.
    pub fn build(self) -> (r: String)
        ensures
            r@ == self.spec_build(),
    {
        let mut out: Vec<char> = str_chars(
            "https://www.dropbox.com/oauth2/authorize?response_type=",
        );
        form_encode_into(self.response_type, &mut out);
        let mut p = str_chars("&client_id=");
        out.append(&mut p);
        form_encode_into(self.client_id, &mut out);
        if self.force_reapprove {
            let mut q = str_chars("&force_reapprove=true");
            out.append(&mut q);
        }
        if self.force_reauthentication {
            let mut q = str_chars("&force_reauthentication=true");
            out.append(&mut q);
        }
        if self.disable_signup {
            let mut q = str_chars("&disable_signup=true");
            out.append(&mut q);
        }
        match self.redirect_uri {
            Some(u) => {
                let mut q = str_chars("&redirect_uri=");
                out.append(&mut q);
                form_encode_into(u, &mut out);
            },
            None => {},
        }
        match self.state {
            Some(u) => {
                let mut q = str_chars("&state=");
                out.append(&mut q);
                form_encode_into(u, &mut out);
            },
            None => {},
        }
        match self.require_role {
            Some(u) => {
                let mut q = str_chars("&require_role=");
                out.append(&mut q);
                form_encode_into(u, &mut out);
            },
            None => {},
        }
        match self.locale {
            Some(u) => {
                let mut q = str_chars("&locale=");
                out.append(&mut q);
                form_encode_into(u, &mut out);
            },
            None => {},
        }
        assert(out@ =~= self.spec_build());
        chars_string(&out)
    }
}


// ---------------------------------------------------------------------------
// Form-urlencoding, as the OAuth2 endpoints want their parameters.
// ---------------------------------------------------------------------------

/// The upper-case hexadecimal digit character for a value below sixteen.
pub open spec fn hex_digit_upper(d: int) -> char
    recommends
        0 <= d < 16,
{
    if d < 10 {
        (('0' as u32) + d as u32) as char
    } else {
        (('A' as u32) + (d - 10) as u32) as char
    }
}

/// How one byte appears in a form-urlencoded value: a space becomes `+`,
/// ASCII alphanumerics and `*-._` stand for themselves, and every other
/// byte becomes `%` and two upper-case hex digits.
pub open spec fn spec_form_byte(b: u8) -> Seq<char> {
    if b == 0x20 {
        seq!['+']
    } else if (0x30 <= b && b <= 0x39) || (0x41 <= b && b <= 0x5A) || (0x61 <= b && b <= 0x7A)
        || b == 0x2A || b == 0x2D || b == 0x2E || b == 0x5F {
        seq![b as char]
    } else {
        seq!['%', hex_digit_upper((b / 16) as int), hex_digit_upper((b % 16) as int)]
    }
}

pub open spec fn spec_form_bytes(s: Seq<u8>, k: int) -> Seq<char>
    decreases k,
{
    if k <= 0 {
        Seq::empty()
    } else {
        spec_form_bytes(s, k - 1) + spec_form_byte(s[k - 1])
    }
}

/// A string's bytes, form-urlencoded.
pub open spec fn spec_form_encode(s: &str) -> Seq<char> {
    spec_form_bytes(s.spec_bytes(), s.spec_bytes().len() as int)
}

fn hex_digit_upper_exec(d: u8) -> (r: char)
    requires
        d < 16,
    ensures
        r == hex_digit_upper(d as int),
{
    if d < 10 {
        (('0' as u8) + d) as char
    } else {
        (('A' as u8) + (d - 10)) as char
    }
}

/// Form-urlencodes a string's bytes.
fn form_encode_into(s: &str, out: &mut Vec<char>)
    ensures
        final(out)@ == old(out)@ + spec_form_encode(s),
{
    let bytes = s.as_bytes();
    let mut k: usize = 0;
    while k < bytes.len()
        invariant
            k <= bytes@.len(),
            bytes@ == s.spec_bytes(),
            out@ == old(out)@ + spec_form_bytes(s.spec_bytes(), k as int),
        decreases bytes@.len() - k,
    {
        let b = bytes[k];
        if b == 0x20 {
            out.push('+');
        } else if (0x30 <= b && b <= 0x39) || (0x41 <= b && b <= 0x5A) || (0x61 <= b && b
            <= 0x7A) || b == 0x2A || b == 0x2D || b == 0x2E || b == 0x5F {
            out.push(b as char);
        } else {
            out.push('%');
            out.push(hex_digit_upper_exec(b / 16));
            out.push(hex_digit_upper_exec(b % 16));
        }
        assert(out@ =~= old(out)@ + (spec_form_bytes(s.spec_bytes(), k as int) + spec_form_byte(
            s.spec_bytes()[k as int],
        )));
        k = k + 1;
    }
}

/// The body of the token-exchange request: the authorization code and the
/// app's credentials, form-urlencoded in a fixed order.
pub open spec fn spec_token_request_params(
    client_id: &str,
    client_secret: &str,
    authorization_code: &str,
    redirect_uri: Option<&str>,
) -> Seq<char> {
    let base = "code="@ + spec_form_encode(authorization_code)
        + "&grant_type=authorization_code&client_id="@ + spec_form_encode(client_id)
        + "&client_secret="@ + spec_form_encode(client_secret);
    match redirect_uri {
        Some(u) => base + "&redirect_uri="@ + spec_form_encode(u),
        None => base,
    }
}

/// Builds the form-urlencoded parameters for exchanging an authorization
/// code for an OAuth2 token.
pub fn oauth2_token_request_params(
    client_id: &str,
    client_secret: &str,
    authorization_code: &str,
    redirect_uri: Option<&str>,
) -> (r: String)
    ensures
        r@ == spec_token_request_params(client_id, client_secret, authorization_code, redirect_uri),
{
    let mut out: Vec<char> = str_chars("code=");
    form_encode_into(authorization_code, &mut out);
    let mut p = str_chars("&grant_type=authorization_code&client_id=");
    out.append(&mut p);
    form_encode_into(client_id, &mut out);
    let mut p2 = str_chars("&client_secret=");
    out.append(&mut p2);
    form_encode_into(client_secret, &mut out);
    match redirect_uri {
        Some(u) => {
            let mut p3 = str_chars("&redirect_uri=");
            out.append(&mut p3);
            form_encode_into(u, &mut out);
        },
        None => {},
    }
    assert(out@ =~= spec_token_request_params(
        client_id,
        client_secret,
        authorization_code,
        redirect_uri,
    ));
    chars_string(&out)
}

/// What the token endpoint's response denotes: the access token out of the
/// response object, or why it cannot be read — a body that is not JSON is
/// a serialization error carrying the text, a JSON body that is not an
/// object or has no string `access_token` member is a protocol error.
pub open spec fn spec_token_from_response(body: Seq<char>) -> Result<Seq<char>, MiscErrorV> {
    match spec_parse_json(body) {
        None => Err(MiscErrorV::Json(body)),
        Some(v) => match v {
            JsonVal::Obj(ms) => match key_first(ms, "access_token"@) {
                Some(JsonVal::Str(t)) => Ok(t),
                _ => Err(MiscErrorV::UnexpectedResponse("no access token in response"@)),
            },
            _ => Err(MiscErrorV::UnexpectedResponse("response is not a JSON object"@)),
        },
    }
}

/// Reads the access token out of the token endpoint's response body.
pub fn oauth2_token_from_response(body: &str) -> (r: Result<String, MiscError>)
    ensures
        match r {
            Ok(t) => spec_token_from_response(body@) == Ok::<Seq<char>, MiscErrorV>(t@),
            Err(e) => spec_token_from_response(body@) == Err::<Seq<char>, MiscErrorV>(e@),
        },
{
    match parse_json(body) {
        None => Err(MiscError::Json(body.to_owned())),
        Some(v) => match v {
            Json::Obj(members) => {
                proof {
                    lemma_view_members_index(members@);
                }
                let (_, idx) = scan_members(&members, "access_token");
                match idx {
                    Some(i) => match &members[i].1 {
                        Json::Str(t) => Ok(t.clone()),
                        _ => Err(MiscError::UnexpectedResponse(
                            "no access token in response".to_owned(),
                        )),
                    },
                    None => Err(MiscError::UnexpectedResponse(
                        "no access token in response".to_owned(),
                    )),
                }
            },
            _ => Err(MiscError::UnexpectedResponse("response is not a JSON object".to_owned())),
        },
    }
}

} // verus!
