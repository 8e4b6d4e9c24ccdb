use dropbox_sdk::constrained::{string_check, Constrained, IntoConstrained, Validator};
use dropbox_sdk::oauth2::{
    oauth2_token_from_response, oauth2_token_request_params, Oauth2AuthorizeUrlBuilder,
    Oauth2Type,
};
use dropbox_sdk::MiscError;

#[test]
fn token_request_params_are_form_urlencoded() {
    assert_eq!(
        "code=the+c%2Fde&grant_type=authorization_code&client_id=app-1&client_secret=s%26s",
        oauth2_token_request_params("app-1", "s&s", "the c/de", None)
    );
    assert_eq!(
        "code=c&grant_type=authorization_code&client_id=i&client_secret=s&redirect_uri=https%3A%2F%2Fx%2Fy",
        oauth2_token_request_params("i", "s", "c", Some("https://x/y"))
    );
}

#[test]
fn token_response_parsing() {
    assert_eq!(
        Ok("abc".to_owned()),
        oauth2_token_from_response(r#"{"token_type": "bearer", "access_token": "abc"}"#)
    );
    assert_eq!(
        Err(MiscError::UnexpectedResponse("no access token in response".to_owned())),
        oauth2_token_from_response(r#"{"token_type": "bearer"}"#)
    );
    assert_eq!(
        Err(MiscError::UnexpectedResponse("response is not a JSON object".to_owned())),
        oauth2_token_from_response("[1,2]")
    );
    assert_eq!(
        Err(MiscError::Json("not json".to_owned())),
        oauth2_token_from_response("not json")
    );
}

#[test]
fn authorize_url_builder() {
    assert_eq!("code", Oauth2Type::AuthorizationCode.as_str());
    assert_eq!("token", Oauth2Type::ImplicitGrant.as_str());

    let url = Oauth2AuthorizeUrlBuilder::new("client123", Oauth2Type::AuthorizationCode).build();
    assert_eq!(
        "https://www.dropbox.com/oauth2/authorize?response_type=code&client_id=client123",
        url
    );

    let url = Oauth2AuthorizeUrlBuilder::new("c", Oauth2Type::ImplicitGrant)
        .force_reapprove(true)
        .disable_signup(true)
        .redirect_uri("https://x/y?z= 1")
        .state("st")
        .require_role("work")
        .locale("en-GB")
        .build();
    assert_eq!(
        "https://www.dropbox.com/oauth2/authorize?response_type=token&client_id=c\
         &force_reapprove=true&disable_signup=true\
         &redirect_uri=https%3A%2F%2Fx%2Fy%3Fz%3D+1&state=st&require_role=work&locale=en-GB",
        url
    );
}

#[test]
fn string_checks_and_constrained_values() {
    assert!(string_check("abc", Some(2), Some(5), None));
    assert!(!string_check("a", Some(2), None, None));
    assert!(!string_check("abcdef", None, Some(5), None));
    // The pattern really runs: a literal match succeeds and a failing one
    // does not.
    assert!(string_check("abc123", None, None, Some("^[a-z]+[0-9]+$")));
    assert!(!string_check("123abc", None, None, Some("^[a-z]+[0-9]+$")));
    // An invalid pattern accepts nothing.
    assert!(!string_check("anything", None, None, Some("(unclosed")));

    struct ShortString;
    impl Validator<String> for ShortString {
        fn is_valid(value: &String) -> bool {
            string_check(value, None, Some(3), None)
        }
    }

    let ok: Result<Constrained<String, ShortString>, String> = "abc".to_owned().try_validate();
    assert_eq!("abc", ok.ok().unwrap().get().as_str());
    let too_long: Result<Constrained<String, ShortString>, String> =
        "abcdef".to_owned().try_validate();
    assert!(matches!(too_long, Err(ref s) if s == "abcdef"));
    let anyway: Constrained<String, ShortString> =
        Constrained::unchecked("way too long anyway".to_owned());
    assert_eq!("way too long anyway", anyway.into_inner());
}
