use kiro_auth::errors::AuthError;
use kiro_auth::web_oauth::classify_portal_failure;
use kiro_auth::web_oauth::extract_session_cookies;
use kiro_auth::web_oauth::interpret_exchange_response;
use kiro_auth::web_oauth::interpret_initiate_response;
use kiro_auth::web_oauth::interpret_refresh_response;
use kiro_auth::web_oauth::merge_exchange_result;
use kiro_auth::web_oauth::str_contains;
use kiro_auth::web_oauth::CookieTokens;
use kiro_auth::web_oauth::ExchangeTokenCborResponse;
use kiro_auth::web_oauth::InitiateLoginResponse;
use kiro_auth::web_oauth::KiroWebPortalClient;
use kiro_auth::web_oauth::RefreshTokenResponse;
use kiro_auth::web_oauth::WebOAuthProvider;
use kiro_auth::webflow::build_window_label;
use kiro_auth::webflow::parse_web_callback;
use kiro_auth::webflow::validate_web_provider;
use kiro_auth::webflow::PendingWebLogin;

fn cookies(session: Option<&str>, access: Option<&str>, idp: Option<&str>) -> CookieTokens {
    CookieTokens {
        session_token: session.map(|s| s.to_string()),
        access_token: access.map(|s| s.to_string()),
        idp: idp.map(|s| s.to_string()),
    }
}

fn body(access: Option<&str>, csrf: Option<&str>, expires: Option<i64>) -> ExchangeTokenCborResponse {
    ExchangeTokenCborResponse {
        access_token: access.map(|s| s.to_string()),
        csrf_token: csrf.map(|s| s.to_string()),
        expires_in: expires,
        profile_arn: None,
    }
}

#[test]
fn body_access_token_beats_the_cookie() {
    let merged = merge_exchange_result(
        body(Some("from-body"), Some("csrf"), Some(60)),
        cookies(Some("sess"), Some("from-cookie"), Some("Google")),
    );
    assert_eq!(merged.access_token.as_deref(), Some("from-body"));
    assert_eq!(merged.session_token.as_deref(), Some("sess"));
    assert_eq!(merged.idp.as_deref(), Some("Google"));
}

#[test]
fn cookie_access_token_is_the_fallback() {
    let merged = merge_exchange_result(
        body(None, Some("csrf"), None),
        cookies(Some("sess"), Some("from-cookie"), None),
    );
    assert_eq!(merged.access_token.as_deref(), Some("from-cookie"));
}

#[test]
fn session_cookies_are_read_from_set_cookie_lines() {
    let headers = vec![
        "RefreshToken=sess-token; Path=/; HttpOnly".to_string(),
        "AccessToken=acc-token; Path=/".to_string(),
        "Idp=Google".to_string(),
        "Other=ignored".to_string(),
    ];
    let tokens = extract_session_cookies(&headers);
    assert_eq!(tokens.session_token.as_deref(), Some("sess-token"));
    assert_eq!(tokens.access_token.as_deref(), Some("acc-token"));
    assert_eq!(tokens.idp.as_deref(), Some("Google"));
}

#[test]
fn repeated_cookie_takes_the_last_line() {
    let headers = vec![
        "AccessToken=first".to_string(),
        "AccessToken=second".to_string(),
    ];
    let tokens = extract_session_cookies(&headers);
    assert_eq!(tokens.access_token.as_deref(), Some("second"));
    assert!(tokens.session_token.is_none());
}

#[test]
fn locked_status_marks_the_account_suspended() {
    assert!(matches!(
        classify_portal_failure(423, "anything".to_string()),
        AuthError::AccountSuspended(_)
    ));
    assert!(matches!(
        classify_portal_failure(
            400,
            "error AccountSuspendedException: no".to_string()
        ),
        AuthError::AccountSuspended(_)
    ));
    match classify_portal_failure(500, "plain failure".to_string()) {
        AuthError::BackendRejected(status, text) => {
            assert_eq!(status, 500);
            assert_eq!(text, "plain failure");
        }
        other => panic!("unexpected: {:?}", other),
    }
}

#[test]
fn substring_search_finds_inner_occurrences() {
    assert!(str_contains("abcdef", "cde"));
    assert!(str_contains("abcdef", "abcdef"));
    assert!(str_contains("abcdef", ""));
    assert!(!str_contains("abcdef", "xyz"));
    assert!(!str_contains("ab", "abc"));
}

#[test]
fn complete_login_requires_the_merged_material() {
    let provider = WebOAuthProvider::new("Google");
    let merged = merge_exchange_result(body(None, None, None), cookies(None, None, None));
    match provider.complete_login_result(merged, 0) {
        Err(AuthError::IncompleteExchange(field)) => assert_eq!(field, "accessToken"),
        other => panic!("unexpected: {:?}", other),
    }
    let merged = merge_exchange_result(body(Some("at"), None, None), cookies(None, None, None));
    match provider.complete_login_result(merged, 0) {
        Err(AuthError::IncompleteExchange(field)) => assert_eq!(field, "csrfToken"),
        other => panic!("unexpected: {:?}", other),
    }
    let merged = merge_exchange_result(body(Some("at"), Some("cs"), None), cookies(None, None, None));
    match provider.complete_login_result(merged, 0) {
        Err(AuthError::IncompleteExchange(field)) => assert_eq!(field, "sessionCookie"),
        other => panic!("unexpected: {:?}", other),
    }
}

#[test]
fn complete_login_builds_the_normalized_result() {
    let provider = WebOAuthProvider::new("Google");
    let merged = merge_exchange_result(
        body(Some("at"), Some("cs"), Some(7200)),
        cookies(Some("sess"), None, Some("Google")),
    );
    let result = provider.complete_login_result(merged, 1000).expect("result");
    assert_eq!(result.access_token, "at");
    // the session cookie is what later refreshes present
    assert_eq!(result.refresh_token, "sess");
    assert_eq!(result.csrf_token.as_deref(), Some("cs"));
    assert_eq!(result.expires_at, 8200);
    assert_eq!(result.auth_method, "web_oauth");
}

#[test]
fn missing_lifetime_defaults_to_an_hour() {
    let provider = WebOAuthProvider::new("Google");
    let merged = merge_exchange_result(
        body(Some("at"), Some("cs"), None),
        cookies(Some("sess"), None, None),
    );
    let result = provider.complete_login_result(merged, 100).expect("result");
    assert_eq!(result.expires_in, 3600);
    assert_eq!(result.expires_at, 3700);
}

#[test]
fn portal_refresh_reads_its_answer() {
    let provider = WebOAuthProvider::new("Github");
    let response = RefreshTokenResponse {
        access_token: Some("new-at".to_string()),
        csrf_token: Some("new-cs".to_string()),
        expires_in: Some(60),
        profile_arn: None,
    };
    let result = provider.refresh_result(response, 0).expect("result");
    assert_eq!(result.access_token, "new-at");
    assert_eq!(result.refresh_token, "new-cs");
    assert_eq!(result.csrf_token.as_deref(), Some("new-cs"));
    assert!(matches!(
        interpret_refresh_response(423, None, "locked".to_string()),
        Err(AuthError::AccountSuspended(_))
    ));
}

#[test]
fn initiate_needs_the_authorization_url() {
    assert!(matches!(
        interpret_initiate_response(200, Some(InitiateLoginResponse { redirect_url: None }), String::new()),
        Err(AuthError::IncompleteExchange(_))
    ));
    let url = interpret_initiate_response(
        200,
        Some(InitiateLoginResponse { redirect_url: Some("https://auth".to_string()) }),
        String::new(),
    )
    .expect("url");
    assert_eq!(url, "https://auth");
    assert!(matches!(
        interpret_initiate_response(500, None, "down".to_string()),
        Err(AuthError::BackendRejected(500, _))
    ));
}

#[test]
fn exchange_answers_merge_cookies_on_success() {
    let merged = interpret_exchange_response(
        200,
        Some(body(None, Some("cs"), Some(60))),
        cookies(Some("sess"), Some("cookie-at"), None),
        String::new(),
    )
    .expect("merged");
    assert_eq!(merged.access_token.as_deref(), Some("cookie-at"));
    assert!(matches!(
        interpret_exchange_response(502, None, cookies(None, None, None), "bad".to_string()),
        Err(AuthError::BackendRejected(502, _))
    ));
}

#[test]
fn portal_client_builds_operation_urls() {
    let client = KiroWebPortalClient::new();
    assert_eq!(
        client.operation_url("ExchangeToken"),
        "https://app.kiro.dev/service/KiroWebPortalService/operation/ExchangeToken"
    );
    assert_eq!(
        client.build_cookie_header("A", "R", "Google"),
        "AccessToken=A; RefreshToken=R; Idp=Google"
    );
    let req = client.build_initiate_request("Google", "CH", "ST");
    assert_eq!(req.redirect_uri, "https://app.kiro.dev/signin/oauth");
    assert_eq!(req.code_challenge_method, "S256");
}

#[test]
fn only_known_web_providers_are_accepted() {
    assert!(validate_web_provider(&"Google".to_string()).is_ok());
    assert!(validate_web_provider(&"Github".to_string()).is_ok());
    match validate_web_provider(&"BuilderId".to_string()) {
        Err(AuthError::UnsupportedProvider(p)) => assert_eq!(p, "BuilderId"),
        other => panic!("unexpected: {:?}", other),
    }
    assert_eq!(build_window_label(&"Google".to_string()), "oauth_google");
    assert_eq!(build_window_label(&"Github".to_string()), "oauth_github");
}

#[test]
fn the_captured_callback_url_yields_code_and_state() {
    let (code, state) =
        parse_web_callback("https://app.kiro.dev/signin/oauth?code=abc&state=xyz").expect("pair");
    assert_eq!(code, "abc");
    assert_eq!(state, "xyz");
    assert!(matches!(
        parse_web_callback("https://app.kiro.dev/signin/oauth?state=xyz"),
        Err(AuthError::CallbackFailed(_))
    ));
    assert!(matches!(
        parse_web_callback("not a url"),
        Err(AuthError::CallbackFailed(_))
    ));
}

#[test]
fn one_web_login_is_pending_at_a_time() {
    let provider = WebOAuthProvider::new("Google");
    let init = provider.finish_initiate(
        "https://auth".to_string(),
        "state".to_string(),
        "verifier".to_string(),
    );
    let mut pending = PendingWebLogin::new();
    pending.put(init);
    let taken = pending.take().expect("pending login");
    assert_eq!(taken.authorize_url, "https://auth");
    assert_eq!(taken.idp, "Google");
    assert!(matches!(pending.take(), Err(AuthError::CallbackConsumed)));
}
