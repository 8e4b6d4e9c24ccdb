use dropbox_sdk::auth::{
    AccessError, AuthError, InvalidAccountTypeError, PaperAccessError, RateLimitError,
    RateLimitReason, TokenFromOAuth1Arg, TokenFromOAuth1Error, TokenFromOAuth1Result,
    TokenScopeError,
};
use dropbox_sdk::json::{parse_json, write_json_string, FromJson, ToJson};
use dropbox_sdk::team_common::{
    GroupManagementType, GroupSummary, GroupType, MemberSpaceLimitType, TimeRange,
};

fn from_text<T: FromJson>(s: &str) -> Option<T> {
    T::from_json(&parse_json(s).expect("test text should parse"))
}

fn to_text<T: ToJson>(v: &T) -> String {
    write_json_string(&v.to_json().expect("should serialize"))
}

#[test]
fn auth_error_tags() {
    assert_eq!(
        Some(AuthError::ExpiredAccessToken),
        from_text(r#"{".tag": "expired_access_token"}"#)
    );
    assert_eq!(
        Some(AuthError::InvalidAccessToken),
        from_text(r#"{".tag": "invalid_access_token"}"#)
    );
    assert_eq!(Some(AuthError::Other), from_text(r#"{".tag": "from_the_future"}"#));
    assert_eq!(None::<AuthError>, from_text(r#"{"tag": "expired_access_token"}"#));
    assert_eq!(
        Some(AuthError::MissingScope(TokenScopeError::new("files.read".to_owned()))),
        from_text(r#"{".tag": "missing_scope", "required_scope": "files.read"}"#)
    );
}

#[test]
fn auth_error_serializes() {
    assert_eq!(
        r#"{".tag":"user_suspended"}"#,
        to_text(&AuthError::UserSuspended)
    );
    assert_eq!(
        r#"{".tag":"missing_scope","required_scope":"x"}"#,
        to_text(&AuthError::MissingScope(TokenScopeError::new("x".to_owned())))
    );
    assert!(AuthError::Other.to_json().is_none());
}

#[test]
fn access_error_nested_payload() {
    let parsed: Option<AccessError> = from_text(
        r#"{".tag": "invalid_account_type", "invalid_account_type": {".tag": "feature"}}"#,
    );
    assert_eq!(
        Some(AccessError::InvalidAccountType(InvalidAccountTypeError::Feature)),
        parsed
    );
    let text = to_text(&AccessError::PaperAccessDenied(PaperAccessError::PaperDisabled));
    assert_eq!(
        r#"{".tag":"paper_access_denied","paper_access_denied":{".tag":"paper_disabled"}}"#,
        text
    );
    // A nested catch-all variant has no wire form, so neither has the whole.
    assert!(AccessError::InvalidAccountType(InvalidAccountTypeError::Other).to_json().is_none());
}

#[test]
fn rate_limit_error_fields() {
    let e = RateLimitError::new(RateLimitReason::TooManyRequests);
    assert_eq!(1, e.retry_after);
    let e = e.with_retry_after(30);
    assert_eq!(30, e.retry_after);

    let parsed: Option<RateLimitError> =
        from_text(r#"{"reason": {".tag": "too_many_write_operations"}, "retry_after": 5}"#);
    assert_eq!(
        Some(RateLimitError::new(RateLimitReason::TooManyWriteOperations).with_retry_after(5)),
        parsed
    );
    // The wire format defaults the interval to one second when absent.
    let parsed: Option<RateLimitError> = from_text(r#"{"reason": {".tag": "too_many_requests"}}"#);
    assert_eq!(Some(RateLimitError::new(RateLimitReason::TooManyRequests)), parsed);
    // Writing skips the field exactly when it holds the default.
    assert_eq!(
        r#"{"reason":{".tag":"too_many_requests"}}"#,
        to_text(&RateLimitError::new(RateLimitReason::TooManyRequests))
    );
    assert_eq!(
        r#"{"reason":{".tag":"too_many_requests"},"retry_after":0}"#,
        to_text(&RateLimitError::new(RateLimitReason::TooManyRequests).with_retry_after(0))
    );
}

#[test]
fn oauth1_exchange_types() {
    let arg = TokenFromOAuth1Arg::new("tok".to_owned(), "secret".to_owned());
    assert_eq!(
        r#"{"oauth1_token":"tok","oauth1_token_secret":"secret"}"#,
        to_text(&arg)
    );
    let back: Option<TokenFromOAuth1Arg> =
        from_text(r#"{"oauth1_token":"tok","oauth1_token_secret":"secret"}"#);
    assert_eq!(Some(arg), back);

    let result = TokenFromOAuth1Result::new("t2".to_owned());
    assert_eq!(r#"{"oauth2_token":"t2"}"#, to_text(&result));
    assert_eq!(
        Some(TokenFromOAuth1Error::AppIdMismatch),
        from_text(r#"{".tag": "app_id_mismatch"}"#)
    );

    // A duplicated field is an error, not a silent pick.
    assert_eq!(
        None::<TokenFromOAuth1Result>,
        from_text(r#"{"oauth2_token":"a","oauth2_token":"b"}"#)
    );
}

#[test]
fn group_summary_fields() {
    let g = GroupSummary::new(
        "g".to_owned(),
        "id1".to_owned(),
        GroupManagementType::CompanyManaged,
    );
    assert_eq!(None, g.group_external_id);
    assert_eq!(None, g.member_count);
    let g = g.with_group_external_id("ext".to_owned()).with_member_count(7);
    assert_eq!(
        r#"{"group_name":"g","group_id":"id1","group_management_type":{".tag":"company_managed"},"group_external_id":"ext","member_count":7}"#,
        to_text(&g)
    );
    let back: Option<GroupSummary> = from_text(
        r#"{"group_id":"id1","group_name":"g","member_count":7,"group_external_id":"ext","group_management_type":{".tag":"company_managed"},"future_field":[1,2]}"#,
    );
    assert_eq!(Some(g), back);
    // A null optional field reads as absent.
    let back: Option<GroupSummary> = from_text(
        r#"{"group_name":"g","group_id":"i","group_management_type":{".tag":"user_managed"},"group_external_id":null}"#,
    );
    assert_eq!(
        Some(GroupSummary::new("g".to_owned(), "i".to_owned(), GroupManagementType::UserManaged)),
        back
    );
}

#[test]
fn group_and_limit_tags() {
    assert_eq!(Some(GroupType::Team), from_text(r#"{".tag": "team"}"#));
    assert_eq!(r#"{".tag":"user_managed"}"#, to_text(&GroupType::UserManaged));
    assert_eq!(
        Some(MemberSpaceLimitType::StopSync),
        from_text(r#"{".tag": "stop_sync"}"#)
    );
    assert_eq!(r#"{".tag":"alert_only"}"#, to_text(&MemberSpaceLimitType::AlertOnly));
}

#[test]
fn time_range_fields() {
    let t = TimeRange::default();
    assert_eq!(r#"{}"#, to_text(&t));
    let t = t.with_start_time("2020-01-01T00:00:00Z".to_owned());
    assert_eq!(r#"{"start_time":"2020-01-01T00:00:00Z"}"#, to_text(&t));
    let back: Option<TimeRange> = from_text(r#"{"end_time":"2021-01-01T00:00:00Z"}"#);
    assert_eq!(
        Some(TimeRange::default().with_end_time("2021-01-01T00:00:00Z".to_owned())),
        back
    );
}
