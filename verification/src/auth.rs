//! Authentication-related wire types: the errors the server reports about
//! tokens, and the token-from-OAuth1 exchange values.

use vstd::prelude::*;
use crate::json::{
    Json, JsonVal, FromJson, ToJson, spec_union_tag, union_tag, tag_obj, key_count, key_first,
    scan_members, view_members, lemma_view_members_index,
};
use crate::strutil::string_eq_str;

verus! {

/// Error occurred because the account doesn't have permission to access the
/// resource.
#[derive(Debug, Clone, PartialEq, Eq, Structural)]
#[non_exhaustive]
pub enum AccessError {
    /// Current account type cannot access the resource.
    InvalidAccountType(InvalidAccountTypeError),
    /// Current account cannot access Paper.
    PaperAccessDenied(PaperAccessError),
    /// Catch-all for tags this library does not know; the server may add
    /// variants at any time.
    Other,
}

/// Errors occurred during authentication.
#[derive(Debug, Clone, PartialEq, Eq)]
#[non_exhaustive]
pub enum AuthError {
    /// The access token is invalid.
    InvalidAccessToken,
    /// The user specified in 'Dropbox-API-Select-User' is no longer on the team.
    InvalidSelectUser,
    /// The user specified in 'Dropbox-API-Select-Admin' is not a Dropbox Business team admin.
    InvalidSelectAdmin,
    /// The user has been suspended.
    UserSuspended,
    /// The access token has expired.
    ExpiredAccessToken,
    /// The access token does not have the required scope to access the route.
    MissingScope(TokenScopeError),
    /// The route is not available to public.
    RouteAccessDenied,
    /// Catch-all for tags this library does not know.
    Other,
}

/// The mathematical shape of an [`AuthError`].
pub enum AuthErrorV {
    InvalidAccessToken,
    InvalidSelectUser,
    InvalidSelectAdmin,
    UserSuspended,
    ExpiredAccessToken,
    MissingScope(TokenScopeErrorV),
    RouteAccessDenied,
    Other,
}

impl View for AuthError {
    type V = AuthErrorV;

    open spec fn view(&self) -> AuthErrorV {
        match self {
            AuthError::InvalidAccessToken => AuthErrorV::InvalidAccessToken,
            AuthError::InvalidSelectUser => AuthErrorV::InvalidSelectUser,
            AuthError::InvalidSelectAdmin => AuthErrorV::InvalidSelectAdmin,
            AuthError::UserSuspended => AuthErrorV::UserSuspended,
            AuthError::ExpiredAccessToken => AuthErrorV::ExpiredAccessToken,
            AuthError::MissingScope(x) => AuthErrorV::MissingScope(x@),
            AuthError::RouteAccessDenied => AuthErrorV::RouteAccessDenied,
            AuthError::Other => AuthErrorV::Other,
        }
    }
}

#[derive(Debug, Clone, PartialEq, Eq, Structural)]
#[non_exhaustive]
pub enum InvalidAccountTypeError {
    /// Current account type doesn't have permission to access this route endpoint.
    Endpoint,
    /// Current account type doesn't have permission to access this feature.
    Feature,
    /// Catch-all for tags this library does not know.
    Other,
}

#[derive(Debug, Clone, PartialEq, Eq, Structural)]
#[non_exhaustive]
pub enum PaperAccessError {
    /// Paper is disabled.
    PaperDisabled,
    /// The provided user has not used Paper yet.
    NotPaperUser,
    /// Catch-all for tags this library does not know.
    Other,
}

/// Error occurred because the app is being rate limited.
#[derive(Debug, Clone, PartialEq, Eq, Structural)]
#[non_exhaustive]
pub struct RateLimitError {
    /// The reason why the app is being rate limited.
    pub reason: RateLimitReason,
    /// The number of seconds that the app should wait before making another
    /// request.
    pub retry_after: u64,
}

#[derive(Debug, Clone, PartialEq, Eq, Structural)]
#[non_exhaustive]
pub enum RateLimitReason {
    /// You are making too many requests in the past few minutes.
    TooManyRequests,
    /// There are currently too many write operations happening in the user's
    /// Dropbox.
    TooManyWriteOperations,
    /// Catch-all for tags this library does not know.
    Other,
}

#[derive(Debug, Clone, PartialEq, Eq)]
#[non_exhaustive]
pub struct TokenFromOAuth1Arg {
    /// The supplied OAuth 1.0 access token.
    pub oauth1_token: String,
    /// The token secret associated with the supplied access token.
    pub oauth1_token_secret: String,
}

/// The mathematical shape of a [`TokenFromOAuth1Arg`].
pub struct TokenFromOAuth1ArgV {
    pub oauth1_token: Seq<char>,
    pub oauth1_token_secret: Seq<char>,
}

impl View for TokenFromOAuth1Arg {
    type V = TokenFromOAuth1ArgV;

    open spec fn view(&self) -> TokenFromOAuth1ArgV {
        TokenFromOAuth1ArgV {
            oauth1_token: self.oauth1_token@,
            oauth1_token_secret: self.oauth1_token_secret@,
        }
    }
}

#[derive(Debug, Clone, PartialEq, Eq, Structural)]
#[non_exhaustive]
pub enum TokenFromOAuth1Error {
    /// Part or all of the OAuth 1.0 access token info is invalid.
    InvalidOauth1TokenInfo,
    /// The authorized app does not match the app associated with the supplied
    /// access token.
    AppIdMismatch,
    /// Catch-all for tags this library does not know.
    Other,
}

#[derive(Debug, Clone, PartialEq, Eq)]
#[non_exhaustive]
pub struct TokenFromOAuth1Result {
    /// The OAuth 2.0 token generated from the supplied OAuth 1.0 token.
    pub oauth2_token: String,
}

/// The mathematical shape of a [`TokenFromOAuth1Result`].
pub struct TokenFromOAuth1ResultV {
    pub oauth2_token: Seq<char>,
}

impl View for TokenFromOAuth1Result {
    type V = TokenFromOAuth1ResultV;

    open spec fn view(&self) -> TokenFromOAuth1ResultV {
        TokenFromOAuth1ResultV { oauth2_token: self.oauth2_token@ }
    }
}

#[derive(Debug, Clone, PartialEq, Eq)]
#[non_exhaustive]
pub struct TokenScopeError {
    /// The required scope to access the route.
    pub required_scope: String,
}

/// The mathematical shape of a [`TokenScopeError`].
pub struct TokenScopeErrorV {
    pub required_scope: Seq<char>,
}

impl View for TokenScopeError {
    type V = TokenScopeErrorV;

    open spec fn view(&self) -> TokenScopeErrorV {
        TokenScopeErrorV { required_scope: self.required_scope@ }
    }
}


// The payload-free unions and the string-free struct stand for themselves in
// specifications.
impl View for AccessError {
    type V = Self;

    open spec fn view(&self) -> Self {
        *self
    }
}

impl View for InvalidAccountTypeError {
    type V = Self;

    open spec fn view(&self) -> Self {
        *self
    }
}

impl View for PaperAccessError {
    type V = Self;

    open spec fn view(&self) -> Self {
        *self
    }
}

impl View for RateLimitError {
    type V = Self;

    open spec fn view(&self) -> Self {
        *self
    }
}

impl View for RateLimitReason {
    type V = Self;

    open spec fn view(&self) -> Self {
        *self
    }
}

impl View for TokenFromOAuth1Error {
    type V = Self;

    open spec fn view(&self) -> Self {
        *self
    }
}

// ---------------------------------------------------------------------------
// Constructors.
// ---------------------------------------------------------------------------

impl RateLimitError {
    /// A rate-limit error with the default one-second retry interval the wire
    /// format assumes when the field is absent.
    pub fn new(reason: RateLimitReason) -> (r: Self)
        ensures
            r == (RateLimitError { reason, retry_after: 1u64 }),
    {
        RateLimitError { reason, retry_after: 1 }
    }

    pub fn with_retry_after(self, value: u64) -> (r: Self)
        ensures
            r == (RateLimitError { retry_after: value, ..self }),
    {
        RateLimitError { retry_after: value, ..self }
    }
}

impl TokenFromOAuth1Arg {
    pub fn new(oauth1_token: String, oauth1_token_secret: String) -> (r: Self)
        ensures
            r@.oauth1_token == oauth1_token@,
            r@.oauth1_token_secret == oauth1_token_secret@,
    {
        TokenFromOAuth1Arg { oauth1_token, oauth1_token_secret }
    }
}

impl TokenFromOAuth1Result {
    pub fn new(oauth2_token: String) -> (r: Self)
        ensures
            r@.oauth2_token == oauth2_token@,
    {
        TokenFromOAuth1Result { oauth2_token }
    }
}

impl TokenScopeError {
    pub fn new(required_scope: String) -> (r: Self)
        ensures
            r@.required_scope == required_scope@,
    {
        TokenScopeError { required_scope }
    }
}

// ---------------------------------------------------------------------------
// Wire forms.
// ---------------------------------------------------------------------------

impl FromJson for InvalidAccountTypeError {
    open spec fn spec_from_json(v: JsonVal) -> Option<Self> {
        match spec_union_tag(v) {
            Some(tag) => if tag == "endpoint"@ {
                Some(InvalidAccountTypeError::Endpoint)
            } else if tag == "feature"@ {
                Some(InvalidAccountTypeError::Feature)
            } else {
                Some(InvalidAccountTypeError::Other)
            },
            None => None,
        }
    }

    fn from_json(v: &Json) -> (r: Option<Self>) {
        match union_tag(v) {
            Some(tag) => if string_eq_str(&tag, "endpoint") {
                Some(InvalidAccountTypeError::Endpoint)
            } else if string_eq_str(&tag, "feature") {
                Some(InvalidAccountTypeError::Feature)
            } else {
                Some(InvalidAccountTypeError::Other)
            },
            None => None,
        }
    }
}

impl ToJson for InvalidAccountTypeError {
    open spec fn spec_to_json(v: Self) -> Option<JsonVal> {
        match v {
            InvalidAccountTypeError::Endpoint => Some(
                JsonVal::Obj(seq![(".tag"@, JsonVal::Str("endpoint"@))]),
            ),
            InvalidAccountTypeError::Feature => Some(
                JsonVal::Obj(seq![(".tag"@, JsonVal::Str("feature"@))]),
            ),
            InvalidAccountTypeError::Other => None,
        }
    }

    fn to_json(&self) -> (r: Option<Json>) {
        match self {
            InvalidAccountTypeError::Endpoint => Some(tag_obj("endpoint")),
            InvalidAccountTypeError::Feature => Some(tag_obj("feature")),
            InvalidAccountTypeError::Other => None,
        }
    }
}


impl FromJson for PaperAccessError {
    open spec fn spec_from_json(v: JsonVal) -> Option<Self> {
        match spec_union_tag(v) {
            Some(tag) => if tag == "paper_disabled"@ {
                Some(PaperAccessError::PaperDisabled)
            } else if tag == "not_paper_user"@ {
                Some(PaperAccessError::NotPaperUser)
            } else {
                Some(PaperAccessError::Other)
            },
            None => None,
        }
    }

    fn from_json(v: &Json) -> (r: Option<Self>) {
        match union_tag(v) {
            Some(tag) => if string_eq_str(&tag, "paper_disabled") {
                Some(PaperAccessError::PaperDisabled)
            } else if string_eq_str(&tag, "not_paper_user") {
                Some(PaperAccessError::NotPaperUser)
            } else {
                Some(PaperAccessError::Other)
            },
            None => None,
        }
    }
}

impl ToJson for PaperAccessError {
    open spec fn spec_to_json(v: Self) -> Option<JsonVal> {
        match v {
            PaperAccessError::PaperDisabled => Some(
                JsonVal::Obj(seq![(".tag"@, JsonVal::Str("paper_disabled"@))]),
            ),
            PaperAccessError::NotPaperUser => Some(
                JsonVal::Obj(seq![(".tag"@, JsonVal::Str("not_paper_user"@))]),
            ),
            PaperAccessError::Other => None,
        }
    }

    fn to_json(&self) -> (r: Option<Json>) {
        match self {
            PaperAccessError::PaperDisabled => Some(tag_obj("paper_disabled")),
            PaperAccessError::NotPaperUser => Some(tag_obj("not_paper_user")),
            PaperAccessError::Other => None,
        }
    }
}

impl FromJson for RateLimitReason {
    open spec fn spec_from_json(v: JsonVal) -> Option<Self> {
        match spec_union_tag(v) {
            Some(tag) => if tag == "too_many_requests"@ {
                Some(RateLimitReason::TooManyRequests)
            } else if tag == "too_many_write_operations"@ {
                Some(RateLimitReason::TooManyWriteOperations)
            } else {
                Some(RateLimitReason::Other)
            },
            None => None,
        }
    }

    fn from_json(v: &Json) -> (r: Option<Self>) {
        match union_tag(v) {
            Some(tag) => if string_eq_str(&tag, "too_many_requests") {
                Some(RateLimitReason::TooManyRequests)
            } else if string_eq_str(&tag, "too_many_write_operations") {
                Some(RateLimitReason::TooManyWriteOperations)
            } else {
                Some(RateLimitReason::Other)
            },
            None => None,
        }
    }
}

impl ToJson for RateLimitReason {
    open spec fn spec_to_json(v: Self) -> Option<JsonVal> {
        match v {
            RateLimitReason::TooManyRequests => Some(
                JsonVal::Obj(seq![(".tag"@, JsonVal::Str("too_many_requests"@))]),
            ),
            RateLimitReason::TooManyWriteOperations => Some(
                JsonVal::Obj(seq![(".tag"@, JsonVal::Str("too_many_write_operations"@))]),
            ),
            RateLimitReason::Other => None,
        }
    }

    fn to_json(&self) -> (r: Option<Json>) {
        match self {
            RateLimitReason::TooManyRequests => Some(tag_obj("too_many_requests")),
            RateLimitReason::TooManyWriteOperations => Some(tag_obj("too_many_write_operations")),
            RateLimitReason::Other => None,
        }
    }
}

impl FromJson for TokenFromOAuth1Error {
    open spec fn spec_from_json(v: JsonVal) -> Option<Self> {
        match spec_union_tag(v) {
            Some(tag) => if tag == "invalid_oauth1_token_info"@ {
                Some(TokenFromOAuth1Error::InvalidOauth1TokenInfo)
            } else if tag == "app_id_mismatch"@ {
                Some(TokenFromOAuth1Error::AppIdMismatch)
            } else {
                Some(TokenFromOAuth1Error::Other)
            },
            None => None,
        }
    }

    fn from_json(v: &Json) -> (r: Option<Self>) {
        match union_tag(v) {
            Some(tag) => if string_eq_str(&tag, "invalid_oauth1_token_info") {
                Some(TokenFromOAuth1Error::InvalidOauth1TokenInfo)
            } else if string_eq_str(&tag, "app_id_mismatch") {
                Some(TokenFromOAuth1Error::AppIdMismatch)
            } else {
                Some(TokenFromOAuth1Error::Other)
            },
            None => None,
        }
    }
}

impl ToJson for TokenFromOAuth1Error {
    open spec fn spec_to_json(v: Self) -> Option<JsonVal> {
        match v {
            TokenFromOAuth1Error::InvalidOauth1TokenInfo => Some(
                JsonVal::Obj(seq![(".tag"@, JsonVal::Str("invalid_oauth1_token_info"@))]),
            ),
            TokenFromOAuth1Error::AppIdMismatch => Some(
                JsonVal::Obj(seq![(".tag"@, JsonVal::Str("app_id_mismatch"@))]),
            ),
            TokenFromOAuth1Error::Other => None,
        }
    }

    fn to_json(&self) -> (r: Option<Json>) {
        match self {
            TokenFromOAuth1Error::InvalidOauth1TokenInfo => Some(
                tag_obj("invalid_oauth1_token_info"),
            ),
            TokenFromOAuth1Error::AppIdMismatch => Some(tag_obj("app_id_mismatch")),
            TokenFromOAuth1Error::Other => None,
        }
    }
}

/// What a [`TokenScopeError`]'s fields denote among an object's members:
/// `required_scope` must occur exactly once and hold a string.
pub open spec fn spec_scope_fields(ms: Seq<(Seq<char>, JsonVal)>) -> Option<TokenScopeErrorV> {
    if key_count(ms, "required_scope"@) == 1 {
        match key_first(ms, "required_scope"@) {
            Some(JsonVal::Str(s)) => Some(TokenScopeErrorV { required_scope: s }),
            _ => None,
        }
    } else {
        None
    }
}

/// Reads a [`TokenScopeError`]'s fields from an object's members.
fn scope_fields(members: &Vec<(String, Json)>) -> (r: Option<TokenScopeError>)
    ensures
        match r {
            Some(x) => spec_scope_fields(view_members(members@)) == Some(x@),
            None => spec_scope_fields(view_members(members@)) is None,
        },
{
    proof {
        lemma_view_members_index(members@);
    }
    let (cnt, idx) = scan_members(members, "required_scope");
    if cnt != 1 {
        return None;
    }
    match idx {
        Some(i) => match &members[i].1 {
            Json::Str(s) => Some(TokenScopeError { required_scope: s.clone() }),
            _ => None,
        },
        None => {
            assert(false);
            None
        },
    }
}

impl FromJson for TokenScopeError {
    open spec fn spec_from_json(v: JsonVal) -> Option<TokenScopeErrorV> {
        match v {
            JsonVal::Obj(ms) => spec_scope_fields(ms),
            _ => None,
        }
    }

    fn from_json(v: &Json) -> (r: Option<Self>) {
        match v {
            Json::Obj(members) => scope_fields(members),
            _ => None,
        }
    }
}

impl ToJson for TokenScopeError {
    open spec fn spec_to_json(v: TokenScopeErrorV) -> Option<JsonVal> {
        Some(JsonVal::Obj(seq![("required_scope"@, JsonVal::Str(v.required_scope))]))
    }

    fn to_json(&self) -> (r: Option<Json>) {
        let mut ms: Vec<(String, Json)> = Vec::new();
        ms.push(("required_scope".to_owned(), Json::Str(self.required_scope.clone())));
        proof {
            lemma_view_members_index(ms@);
            assert(view_members(ms@) =~= seq![
                ("required_scope"@, JsonVal::Str(self@.required_scope)),
            ]);
        }
        Some(Json::Obj(ms))
    }
}

impl FromJson for AuthError {
    open spec fn spec_from_json(v: JsonVal) -> Option<AuthErrorV> {
        match spec_union_tag(v) {
            Some(tag) => if tag == "invalid_access_token"@ {
                Some(AuthErrorV::InvalidAccessToken)
            } else if tag == "invalid_select_user"@ {
                Some(AuthErrorV::InvalidSelectUser)
            } else if tag == "invalid_select_admin"@ {
                Some(AuthErrorV::InvalidSelectAdmin)
            } else if tag == "user_suspended"@ {
                Some(AuthErrorV::UserSuspended)
            } else if tag == "expired_access_token"@ {
                Some(AuthErrorV::ExpiredAccessToken)
            } else if tag == "missing_scope"@ {
                match v {
                    JsonVal::Obj(ms) => match spec_scope_fields(ms) {
                        Some(x) => Some(AuthErrorV::MissingScope(x)),
                        None => None,
                    },
                    _ => None,
                }
            } else if tag == "route_access_denied"@ {
                Some(AuthErrorV::RouteAccessDenied)
            } else {
                Some(AuthErrorV::Other)
            },
            None => None,
        }
    }

    fn from_json(v: &Json) -> (r: Option<Self>) {
        match union_tag(v) {
            Some(tag) => if string_eq_str(&tag, "invalid_access_token") {
                Some(AuthError::InvalidAccessToken)
            } else if string_eq_str(&tag, "invalid_select_user") {
                Some(AuthError::InvalidSelectUser)
            } else if string_eq_str(&tag, "invalid_select_admin") {
                Some(AuthError::InvalidSelectAdmin)
            } else if string_eq_str(&tag, "user_suspended") {
                Some(AuthError::UserSuspended)
            } else if string_eq_str(&tag, "expired_access_token") {
                Some(AuthError::ExpiredAccessToken)
            } else if string_eq_str(&tag, "missing_scope") {
                match v {
                    Json::Obj(members) => match scope_fields(members) {
                        Some(x) => Some(AuthError::MissingScope(x)),
                        None => None,
                    },
                    _ => {
                        assert(false);
                        None
                    },
                }
            } else if string_eq_str(&tag, "route_access_denied") {
                Some(AuthError::RouteAccessDenied)
            } else {
                Some(AuthError::Other)
            },
            None => None,
        }
    }
}

impl ToJson for AuthError {
    open spec fn spec_to_json(v: AuthErrorV) -> Option<JsonVal> {
        match v {
            AuthErrorV::InvalidAccessToken => Some(
                JsonVal::Obj(seq![(".tag"@, JsonVal::Str("invalid_access_token"@))]),
            ),
            AuthErrorV::InvalidSelectUser => Some(
                JsonVal::Obj(seq![(".tag"@, JsonVal::Str("invalid_select_user"@))]),
            ),
            AuthErrorV::InvalidSelectAdmin => Some(
                JsonVal::Obj(seq![(".tag"@, JsonVal::Str("invalid_select_admin"@))]),
            ),
            AuthErrorV::UserSuspended => Some(
                JsonVal::Obj(seq![(".tag"@, JsonVal::Str("user_suspended"@))]),
            ),
            AuthErrorV::ExpiredAccessToken => Some(
                JsonVal::Obj(seq![(".tag"@, JsonVal::Str("expired_access_token"@))]),
            ),
            AuthErrorV::MissingScope(x) => Some(
                JsonVal::Obj(
                    seq![
                        (".tag"@, JsonVal::Str("missing_scope"@)),
                        ("required_scope"@, JsonVal::Str(x.required_scope)),
                    ],
                ),
            ),
            AuthErrorV::RouteAccessDenied => Some(
                JsonVal::Obj(seq![(".tag"@, JsonVal::Str("route_access_denied"@))]),
            ),
            AuthErrorV::Other => None,
        }
    }

    fn to_json(&self) -> (r: Option<Json>) {
        match self {
            AuthError::InvalidAccessToken => Some(tag_obj("invalid_access_token")),
            AuthError::InvalidSelectUser => Some(tag_obj("invalid_select_user")),
            AuthError::InvalidSelectAdmin => Some(tag_obj("invalid_select_admin")),
            AuthError::UserSuspended => Some(tag_obj("user_suspended")),
            AuthError::ExpiredAccessToken => Some(tag_obj("expired_access_token")),
            AuthError::MissingScope(x) => {
                let mut ms: Vec<(String, Json)> = Vec::new();
                ms.push((".tag".to_owned(), Json::Str("missing_scope".to_owned())));
                ms.push(("required_scope".to_owned(), Json::Str(x.required_scope.clone())));
                proof {
                    lemma_view_members_index(ms@);
                    assert(view_members(ms@) =~= seq![
                        (".tag"@, JsonVal::Str("missing_scope"@)),
                        ("required_scope"@, JsonVal::Str(x@.required_scope)),
                    ]);
                }
                Some(Json::Obj(ms))
            },
            AuthError::RouteAccessDenied => Some(tag_obj("route_access_denied")),
            AuthError::Other => None,
        }
    }
}

impl FromJson for AccessError {
    open spec fn spec_from_json(v: JsonVal) -> Option<Self> {
        match spec_union_tag(v) {
            Some(tag) => {
                let ms = v->Obj_0;
                if tag == "invalid_account_type"@ {
                    if ms.len() >= 2 && ms[1].0 == "invalid_account_type"@ {
                        match InvalidAccountTypeError::spec_from_json(ms[1].1) {
                            Some(x) => Some(AccessError::InvalidAccountType(x)),
                            None => None,
                        }
                    } else {
                        None
                    }
                } else if tag == "paper_access_denied"@ {
                    if ms.len() >= 2 && ms[1].0 == "paper_access_denied"@ {
                        match PaperAccessError::spec_from_json(ms[1].1) {
                            Some(x) => Some(AccessError::PaperAccessDenied(x)),
                            None => None,
                        }
                    } else {
                        None
                    }
                } else {
                    Some(AccessError::Other)
                }
            },
            None => None,
        }
    }

    fn from_json(v: &Json) -> (r: Option<Self>) {
        match union_tag(v) {
            Some(tag) => {
                if string_eq_str(&tag, "invalid_account_type") {
                    match v {
                        Json::Obj(members) => {
                            proof {
                                lemma_view_members_index(members@);
                            }
                            if members.len() >= 2 && string_eq_str(
                                &members[1].0,
                                "invalid_account_type",
                            ) {
                                match InvalidAccountTypeError::from_json(&members[1].1) {
                                    Some(x) => Some(AccessError::InvalidAccountType(x)),
                                    None => None,
                                }
                            } else {
                                None
                            }
                        },
                        _ => {
                            assert(false);
                            None
                        },
                    }
                } else if string_eq_str(&tag, "paper_access_denied") {
                    match v {
                        Json::Obj(members) => {
                            proof {
                                lemma_view_members_index(members@);
                            }
                            if members.len() >= 2 && string_eq_str(
                                &members[1].0,
                                "paper_access_denied",
                            ) {
                                match PaperAccessError::from_json(&members[1].1) {
                                    Some(x) => Some(AccessError::PaperAccessDenied(x)),
                                    None => None,
                                }
                            } else {
                                None
                            }
                        },
                        _ => {
                            assert(false);
                            None
                        },
                    }
                } else {
                    Some(AccessError::Other)
                }
            },
            None => None,
        }
    }
}

impl ToJson for AccessError {
    open spec fn spec_to_json(v: Self) -> Option<JsonVal> {
        match v {
            AccessError::InvalidAccountType(x) => match InvalidAccountTypeError::spec_to_json(x) {
                Some(p) => Some(
                    JsonVal::Obj(
                        seq![
                            (".tag"@, JsonVal::Str("invalid_account_type"@)),
                            ("invalid_account_type"@, p),
                        ],
                    ),
                ),
                None => None,
            },
            AccessError::PaperAccessDenied(x) => match PaperAccessError::spec_to_json(x) {
                Some(p) => Some(
                    JsonVal::Obj(
                        seq![
                            (".tag"@, JsonVal::Str("paper_access_denied"@)),
                            ("paper_access_denied"@, p),
                        ],
                    ),
                ),
                None => None,
            },
            AccessError::Other => None,
        }
    }

    fn to_json(&self) -> (r: Option<Json>) {
        match self {
            AccessError::InvalidAccountType(x) => match x.to_json() {
                Some(p) => {
                    let ghost pv = p@;
                    let mut ms: Vec<(String, Json)> = Vec::new();
                    ms.push((".tag".to_owned(), Json::Str("invalid_account_type".to_owned())));
                    ms.push(("invalid_account_type".to_owned(), p));
                    proof {
                        lemma_view_members_index(ms@);
                        assert(view_members(ms@) =~= seq![
                            (".tag"@, JsonVal::Str("invalid_account_type"@)),
                            ("invalid_account_type"@, pv),
                        ]);
                    }
                    Some(Json::Obj(ms))
                },
                None => None,
            },
            AccessError::PaperAccessDenied(x) => match x.to_json() {
                Some(p) => {
                    let ghost pv = p@;
                    let mut ms: Vec<(String, Json)> = Vec::new();
                    ms.push((".tag".to_owned(), Json::Str("paper_access_denied".to_owned())));
                    ms.push(("paper_access_denied".to_owned(), p));
                    proof {
                        lemma_view_members_index(ms@);
                        assert(view_members(ms@) =~= seq![
                            (".tag"@, JsonVal::Str("paper_access_denied"@)),
                            ("paper_access_denied"@, pv),
                        ]);
                    }
                    Some(Json::Obj(ms))
                },
                None => None,
            },
            AccessError::Other => None,
        }
    }
}

/// What a [`RateLimitError`]'s fields denote among an object's members:
/// `reason` must occur exactly once and hold a rate-limit reason, and
/// `retry_after` may occur once, holding a non-negative integer; when it is
/// absent the interval defaults to one second, as the wire format defines.
pub open spec fn spec_rate_limit_fields(ms: Seq<(Seq<char>, JsonVal)>) -> Option<RateLimitError> {
    if key_count(ms, "reason"@) != 1 {
        None
    } else {
        match key_first(ms, "reason"@) {
            Some(rv) => match RateLimitReason::spec_from_json(rv) {
                Some(reason) => {
                    let c = key_count(ms, "retry_after"@);
                    if c == 0 {
                        Some(RateLimitError { reason, retry_after: 1u64 })
                    } else if c == 1 {
                        match key_first(ms, "retry_after"@) {
                            Some(JsonVal::Int(n)) => if n >= 0 {
                                Some(RateLimitError { reason, retry_after: n as u64 })
                            } else {
                                None
                            },
                            _ => None,
                        }
                    } else {
                        None
                    }
                },
                None => None,
            },
            None => None,
        }
    }
}

fn rate_limit_fields(members: &Vec<(String, Json)>) -> (r: Option<RateLimitError>)
    ensures
        match r {
            Some(x) => spec_rate_limit_fields(view_members(members@)) == Some(x),
            None => spec_rate_limit_fields(view_members(members@)) is None,
        },
{
    proof {
        lemma_view_members_index(members@);
    }
    let (rcnt, ridx) = scan_members(members, "reason");
    if rcnt != 1 {
        return None;
    }
    let i = match ridx {
        Some(i) => i,
        None => {
            assert(false);
            return None;
        },
    };
    let reason = match RateLimitReason::from_json(&members[i].1) {
        Some(reason) => reason,
        None => {
            return None;
        },
    };
    let (acnt, aidx) = scan_members(members, "retry_after");
    if acnt == 0 {
        Some(RateLimitError { reason, retry_after: 1 })
    } else if acnt == 1 {
        let k = match aidx {
            Some(k) => k,
            None => {
                assert(false);
                return None;
            },
        };
        match &members[k].1 {
            Json::Int(n) => if *n >= 0 {
                Some(RateLimitError { reason, retry_after: *n as u64 })
            } else {
                None
            },
            _ => None,
        }
    } else {
        None
    }
}

impl FromJson for RateLimitError {
    open spec fn spec_from_json(v: JsonVal) -> Option<Self> {
        match v {
            JsonVal::Obj(ms) => spec_rate_limit_fields(ms),
            _ => None,
        }
    }

    fn from_json(v: &Json) -> (r: Option<Self>) {
        match v {
            Json::Obj(members) => rate_limit_fields(members),
            _ => None,
        }
    }
}

impl ToJson for RateLimitError {
    open spec fn spec_to_json(v: Self) -> Option<JsonVal> {
        match RateLimitReason::spec_to_json(v.reason) {
            Some(rj) => if v.retry_after == 1 {
                Some(JsonVal::Obj(seq![("reason"@, rj)]))
            } else if v.retry_after <= i64::MAX {
                Some(
                    JsonVal::Obj(
                        seq![("reason"@, rj), ("retry_after"@, JsonVal::Int(v.retry_after as i64))],
                    ),
                )
            } else {
                None
            },
            None => None,
        }
    }

    fn to_json(&self) -> (r: Option<Json>) {
        if self.retry_after != 1 && self.retry_after > 0x7fffffffffffffffu64 {
            return None;
        }
        match self.reason.to_json() {
            Some(rj) => {
                let ghost rjv = rj@;
                let mut ms: Vec<(String, Json)> = Vec::new();
                ms.push(("reason".to_owned(), rj));
                if self.retry_after != 1 {
                    ms.push(("retry_after".to_owned(), Json::Int(self.retry_after as i64)));
                    proof {
                        lemma_view_members_index(ms@);
                        assert(view_members(ms@) =~= seq![
                            ("reason"@, rjv),
                            ("retry_after"@, JsonVal::Int(self.retry_after as i64)),
                        ]);
                    }
                } else {
                    proof {
                        lemma_view_members_index(ms@);
                        assert(view_members(ms@) =~= seq![("reason"@, rjv)]);
                    }
                }
                Some(Json::Obj(ms))
            },
            None => None,
        }
    }
}

/// What a [`TokenFromOAuth1Arg`]'s fields denote among an object's members.
pub open spec fn spec_oauth1_arg_fields(ms: Seq<(Seq<char>, JsonVal)>) -> Option<
    TokenFromOAuth1ArgV,
> {
    if key_count(ms, "oauth1_token"@) == 1 && key_count(ms, "oauth1_token_secret"@) == 1 {
        match (key_first(ms, "oauth1_token"@), key_first(ms, "oauth1_token_secret"@)) {
            (Some(JsonVal::Str(t)), Some(JsonVal::Str(s))) => Some(
                TokenFromOAuth1ArgV { oauth1_token: t, oauth1_token_secret: s },
            ),
            _ => None,
        }
    } else {
        None
    }
}

impl FromJson for TokenFromOAuth1Arg {
    open spec fn spec_from_json(v: JsonVal) -> Option<TokenFromOAuth1ArgV> {
        match v {
            JsonVal::Obj(ms) => spec_oauth1_arg_fields(ms),
            _ => None,
        }
    }

    fn from_json(v: &Json) -> (r: Option<Self>) {
        match v {
            Json::Obj(members) => {
                proof {
                    lemma_view_members_index(members@);
                }
                let (tc, ti) = scan_members(members, "oauth1_token");
                let (sc, si) = scan_members(members, "oauth1_token_secret");
                if tc != 1 || sc != 1 {
                    return None;
                }
                match (ti, si) {
                    (Some(a), Some(b)) => match (&members[a].1, &members[b].1) {
                        (Json::Str(t), Json::Str(s)) => Some(
                            TokenFromOAuth1Arg {
                                oauth1_token: t.clone(),
                                oauth1_token_secret: s.clone(),
                            },
                        ),
                        _ => None,
                    },
                    _ => {
                        assert(false);
                        None
                    },
                }
            },
            _ => None,
        }
    }
}

impl ToJson for TokenFromOAuth1Arg {
    open spec fn spec_to_json(v: TokenFromOAuth1ArgV) -> Option<JsonVal> {
        Some(
            JsonVal::Obj(
                seq![
                    ("oauth1_token"@, JsonVal::Str(v.oauth1_token)),
                    ("oauth1_token_secret"@, JsonVal::Str(v.oauth1_token_secret)),
                ],
            ),
        )
    }

    fn to_json(&self) -> (r: Option<Json>) {
        let mut ms: Vec<(String, Json)> = Vec::new();
        ms.push(("oauth1_token".to_owned(), Json::Str(self.oauth1_token.clone())));
        ms.push(("oauth1_token_secret".to_owned(), Json::Str(self.oauth1_token_secret.clone())));
        proof {
            lemma_view_members_index(ms@);
            assert(view_members(ms@) =~= seq![
                ("oauth1_token"@, JsonVal::Str(self@.oauth1_token)),
                ("oauth1_token_secret"@, JsonVal::Str(self@.oauth1_token_secret)),
            ]);
        }
        Some(Json::Obj(ms))
    }
}

/// What a [`TokenFromOAuth1Result`]'s field denotes among an object's members.
pub open spec fn spec_oauth1_result_fields(ms: Seq<(Seq<char>, JsonVal)>) -> Option<
    TokenFromOAuth1ResultV,
> {
    if key_count(ms, "oauth2_token"@) == 1 {
        match key_first(ms, "oauth2_token"@) {
            Some(JsonVal::Str(t)) => Some(TokenFromOAuth1ResultV { oauth2_token: t }),
            _ => None,
        }
    } else {
        None
    }
}

impl FromJson for TokenFromOAuth1Result {
    open spec fn spec_from_json(v: JsonVal) -> Option<TokenFromOAuth1ResultV> {
        match v {
            JsonVal::Obj(ms) => spec_oauth1_result_fields(ms),
            _ => None,
        }
    }

    fn from_json(v: &Json) -> (r: Option<Self>) {
        match v {
            Json::Obj(members) => {
                proof {
                    lemma_view_members_index(members@);
                }
                let (tc, ti) = scan_members(members, "oauth2_token");
                if tc != 1 {
                    return None;
                }
                match ti {
                    Some(a) => match &members[a].1 {
                        Json::Str(t) => Some(TokenFromOAuth1Result { oauth2_token: t.clone() }),
                        _ => None,
                    },
                    None => {
                        assert(false);
                        None
                    },
                }
            },
            _ => None,
        }
    }
}

impl ToJson for TokenFromOAuth1Result {
    open spec fn spec_to_json(v: TokenFromOAuth1ResultV) -> Option<JsonVal> {
        Some(JsonVal::Obj(seq![("oauth2_token"@, JsonVal::Str(v.oauth2_token))]))
    }

    fn to_json(&self) -> (r: Option<Json>) {
        let mut ms: Vec<(String, Json)> = Vec::new();
        ms.push(("oauth2_token".to_owned(), Json::Str(self.oauth2_token.clone())));
        proof {
            lemma_view_members_index(ms@);
            assert(view_members(ms@) =~= seq![("oauth2_token"@, JsonVal::Str(self@.oauth2_token))]);
        }
        Some(Json::Obj(ms))
    }
}

} // verus!
