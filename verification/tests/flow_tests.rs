use kiro_auth::base::RefreshMetadata;
use kiro_auth::clock::expires_at_from;
use kiro_auth::correlator::handle_deep_link;
use kiro_auth::correlator::register_waiter;
use kiro_auth::correlator::DeepLinkCallbackWaiter;
use kiro_auth::desktop::desktop_usage_url;
use kiro_auth::desktop::interpret_desktop_refresh;
use kiro_auth::desktop::interpret_token_exchange;
use kiro_auth::desktop::retry_backoff;
use kiro_auth::desktop::KiroAuthServiceClient;
use kiro_auth::errors::AuthError;
use kiro_auth::idc::DeviceAuthorizationState;
use kiro_auth::idc::IdcProvider;
use kiro_auth::idc::PollStep;
use kiro_auth::pkce::compute_client_id_hash;
use kiro_auth::pkce::generate_code_challenge;
use kiro_auth::pkce::generate_code_verifier;
use kiro_auth::sso::interpret_device_auth_start;
use kiro_auth::sso::interpret_device_poll;
use kiro_auth::sso::interpret_registration;
use kiro_auth::sso::interpret_sso_refresh;
use kiro_auth::sso::AWSSSOClient;
use kiro_auth::sso::ClientRegistration;
use kiro_auth::sso::DeviceAuthorizationResponse;
use kiro_auth::sso::DevicePollResult;
use kiro_auth::sso::TokenResponse;

fn token_response(expires_in: i64) -> TokenResponse {
    TokenResponse {
        access_token: "access".to_string(),
        refresh_token: "refresh".to_string(),
        id_token: None,
        token_type: Some("Bearer".to_string()),
        expires_in,
        aws_sso_app_session_id: Some("sess".to_string()),
        issued_token_type: None,
        origin_session_id: None,
    }
}

#[test]
fn expiry_is_completion_time_plus_lifetime() {
    assert_eq!(expires_at_from(1000, 3600), 4600);
    assert_eq!(expires_at_from(-5, 10), 5);
}

#[test]
fn pkce_challenge_matches_known_digest() {
    // SHA-256 of "test", URL-safe base64 without padding
    assert_eq!(
        generate_code_challenge("test"),
        "n4bQgYhMfWWaL-qgxVrQFaO_TxsrC4Is0V1sFbDwCgg"
    );
}

#[test]
fn pkce_verifier_is_43_urlsafe_characters() {
    let v = generate_code_verifier();
    assert_eq!(v.len(), 43);
    assert!(v
        .chars()
        .all(|c| c.is_ascii_alphanumeric() || c == '-' || c == '_'));
    let w = generate_code_verifier();
    assert_ne!(v, w);
}

#[test]
fn client_id_hash_matches_known_digest() {
    assert_eq!(
        compute_client_id_hash("https://view.awsapps.com/start"),
        "dfde074bf0fcd0c747aef5b3ce27b842c69d7610d79fa6f917dc13ab15c7d751"
    );
}

#[test]
fn state_mismatch_yields_error_and_no_token() {
    let s1 = "expected-state".to_string();
    let mut waiter = register_waiter(&s1);
    let handled = handle_deep_link(
        &mut waiter,
        "kiro://kiro.kiroAgent/authenticate-success?code=abc&state=forged-state",
    );
    assert!(handled);
    let outcome = waiter.wait_for_callback();
    assert!(matches!(outcome, Err(AuthError::StateMismatch)));
}

#[test]
fn matching_state_delivers_the_code() {
    let s1 = "expected-state".to_string();
    let mut waiter = register_waiter(&s1);
    let handled = handle_deep_link(
        &mut waiter,
        "kiro://kiro.kiroAgent/authenticate-success?code=abc&state=expected-state",
    );
    assert!(handled);
    let outcome = waiter.wait_for_callback().expect("code expected");
    assert_eq!(outcome.code, "abc");
    assert_eq!(outcome.state, "expected-state");
}

#[test]
fn other_scheme_is_not_handled_and_waiter_stays() {
    let s1 = "expected-state".to_string();
    let mut waiter = register_waiter(&s1);
    let handled = handle_deep_link(&mut waiter, "https://example.com/?code=abc&state=whatever");
    assert!(!handled);
    assert!(waiter.pending);
}

#[test]
fn backend_error_in_callback_is_reported() {
    let s1 = "expected-state".to_string();
    let mut waiter = register_waiter(&s1);
    let handled = handle_deep_link(
        &mut waiter,
        "kiro://kiro.kiroAgent/authenticate-success?error=access_denied&error_description=no",
    );
    assert!(handled);
    assert!(matches!(
        waiter.wait_for_callback(),
        Err(AuthError::CallbackFailed(_))
    ));
}

#[test]
fn missing_code_in_callback_is_reported() {
    let s1 = "expected-state".to_string();
    let mut waiter = register_waiter(&s1);
    assert!(handle_deep_link(
        &mut waiter,
        "kiro://kiro.kiroAgent/authenticate-success?state=expected-state",
    ));
    assert!(matches!(
        waiter.wait_for_callback(),
        Err(AuthError::CallbackFailed(_))
    ));
}

#[test]
fn undelivered_waiter_times_out_and_cannot_be_taken_twice() {
    let s1 = "expected-state".to_string();
    let mut waiter = register_waiter(&s1);
    assert!(matches!(
        waiter.wait_for_callback(),
        Err(AuthError::CallbackTimeout)
    ));
    assert!(matches!(
        waiter.wait_for_callback(),
        Err(AuthError::CallbackConsumed)
    ));
}

#[test]
fn redirect_uri_is_the_fixed_custom_scheme() {
    assert_eq!(
        DeepLinkCallbackWaiter::get_redirect_uri(),
        "kiro://kiro.kiroAgent/authenticate-success"
    );
}

#[test]
fn login_redirect_percent_encodes_the_redirect_target() {
    let client = KiroAuthServiceClient::new();
    let url = client.build_login_redirect(
        "Google",
        "kiro://kiro.kiroAgent/authenticate-success",
        "CHALLENGE",
        "STATE",
    );
    assert_eq!(
        url,
        "https://prod.us-east-1.auth.desktop.kiro.dev/login?idp=Google&redirect_uri=kiro%3A%2F%2Fkiro.kiroAgent%2Fauthenticate-success&code_challenge=CHALLENGE&code_challenge_method=S256&state=STATE"
    );
}

#[test]
fn device_poll_sequence_slows_down_only_on_slow_down() {
    let auth = DeviceAuthorizationResponse {
        device_code: "dc".to_string(),
        user_code: "uc".to_string(),
        verification_uri: "https://verify".to_string(),
        verification_uri_complete: None,
        expires_in: 600,
        interval: Some(5),
    };
    let mut state = DeviceAuthorizationState::begin(&auth, 1000);
    assert_eq!(state.expires_at, 1600);
    assert_eq!(state.poll_interval, 5);

    assert!(matches!(state.poll_step(DevicePollResult::Pending), PollStep::Continue));
    assert_eq!(state.poll_interval, 5);
    assert!(matches!(state.poll_step(DevicePollResult::Pending), PollStep::Continue));
    assert_eq!(state.poll_interval, 5);
    assert!(matches!(state.poll_step(DevicePollResult::SlowDown), PollStep::Continue));
    assert_eq!(state.poll_interval, 10);
    match state.poll_step(DevicePollResult::Success(token_response(3600))) {
        PollStep::Complete(token) => assert_eq!(token.access_token, "access"),
        _ => panic!("expected completion"),
    }
}

#[test]
fn expired_device_code_ends_the_flow() {
    let auth = DeviceAuthorizationResponse {
        device_code: "dc".to_string(),
        user_code: "uc".to_string(),
        verification_uri: "https://verify".to_string(),
        verification_uri_complete: Some("https://verify?code=uc".to_string()),
        expires_in: 600,
        interval: None,
    };
    let mut state = DeviceAuthorizationState::begin(&auth, 0);
    assert_eq!(state.poll_interval, 5);
    assert_eq!(state.verification_target(), "https://verify?code=uc");
    assert!(matches!(
        state.poll_step(DevicePollResult::Expired),
        PollStep::Failed(AuthError::DeviceCodeExpired)
    ));
    assert!(matches!(
        state.poll_step(DevicePollResult::Denied),
        PollStep::Failed(AuthError::UserDenied)
    ));
}

#[test]
fn polling_stops_at_the_deadline() {
    let auth = DeviceAuthorizationResponse {
        device_code: "dc".to_string(),
        user_code: "uc".to_string(),
        verification_uri: "https://verify".to_string(),
        verification_uri_complete: None,
        expires_in: 100,
        interval: Some(5),
    };
    let state = DeviceAuthorizationState::begin(&auth, 0);
    assert!(state.check_deadline(100).is_none());
    assert!(matches!(
        state.check_deadline(101),
        Some(AuthError::DeviceAuthTimeout)
    ));
}

#[test]
fn device_poll_answers_map_to_their_outcomes() {
    assert!(matches!(
        interpret_device_poll(400, None, Some("authorization_pending".to_string()), String::new()),
        Ok(DevicePollResult::Pending)
    ));
    assert!(matches!(
        interpret_device_poll(400, None, Some("slow_down".to_string()), String::new()),
        Ok(DevicePollResult::SlowDown)
    ));
    assert!(matches!(
        interpret_device_poll(400, None, Some("expired_token".to_string()), String::new()),
        Ok(DevicePollResult::Expired)
    ));
    assert!(matches!(
        interpret_device_poll(400, None, Some("access_denied".to_string()), String::new()),
        Ok(DevicePollResult::Denied)
    ));
    match interpret_device_poll(400, None, Some("strange".to_string()), String::new()) {
        Err(AuthError::DeviceAuthError(e)) => assert_eq!(e, "strange"),
        other => panic!("unexpected: {:?}", other),
    }
    match interpret_device_poll(500, None, None, "boom".to_string()) {
        Err(AuthError::BackendRejected(status, body)) => {
            assert_eq!(status, 500);
            assert_eq!(body, "boom");
        }
        other => panic!("unexpected: {:?}", other),
    }
    assert!(matches!(
        interpret_device_poll(200, Some(token_response(60)), None, String::new()),
        Ok(DevicePollResult::Success(_))
    ));
    assert!(matches!(
        interpret_device_poll(200, None, None, String::new()),
        Err(AuthError::ParseError(_))
    ));
}

#[test]
fn sso_refresh_distinguishes_expired_tokens() {
    assert!(matches!(
        interpret_sso_refresh(401, None, String::new()),
        Err(AuthError::TokenExpiredOrInvalid)
    ));
    assert!(matches!(
        interpret_sso_refresh(500, None, "err".to_string()),
        Err(AuthError::BackendRejected(500, _))
    ));
    assert!(interpret_sso_refresh(200, Some(token_response(60)), String::new()).is_ok());
}

#[test]
fn desktop_answers_follow_the_same_status_rules() {
    assert!(matches!(
        interpret_desktop_refresh(401, None, String::new()),
        Err(AuthError::TokenExpiredOrInvalid)
    ));
    assert!(matches!(
        interpret_token_exchange(401, None, String::new()),
        Err(AuthError::TokenExpiredOrInvalid)
    ));
    assert!(matches!(
        interpret_token_exchange(500, None, "body".to_string()),
        Err(AuthError::BackendRejected(500, _))
    ));
}

#[test]
fn retries_are_bounded_with_fixed_backoff() {
    assert_eq!(retry_backoff(0), Some(1000));
    assert_eq!(retry_backoff(1), Some(1000));
    assert_eq!(retry_backoff(2), None);
}

#[test]
fn sso_client_builds_region_scoped_urls() {
    let client = AWSSSOClient::new("us-east-1");
    assert_eq!(client.base_url, "https://oidc.us-east-1.amazonaws.com");
    assert_eq!(client.token_url(), "https://oidc.us-east-1.amazonaws.com/token");
    assert_eq!(
        client.register_url(),
        "https://oidc.us-east-1.amazonaws.com/client/register"
    );
    assert_eq!(
        client.device_authorization_url(),
        "https://oidc.us-east-1.amazonaws.com/device_authorization"
    );
    let req = client.build_register_request("https://view.awsapps.com/start");
    assert_eq!(req.client_name, "Kiro Account Manager");
    assert_eq!(req.scopes.len(), 5);
    assert_eq!(req.grant_types[0], "urn:ietf:params:oauth:grant-type:device_code");
}

#[test]
fn idc_login_result_carries_the_registration() {
    let provider = IdcProvider::new("BuilderId", "us-east-1", None);
    let registration = ClientRegistration {
        client_id: "cid".to_string(),
        client_secret: "csec".to_string(),
        client_id_issued_at: None,
        client_secret_expires_at: None,
        authorization_endpoint: None,
        token_endpoint: None,
    };
    let result = provider.finish_login(&registration, token_response(3600), 1000);
    assert_eq!(result.auth_method, "device");
    assert_eq!(result.expires_at, 4600);
    assert_eq!(result.client_id.as_deref(), Some("cid"));
    assert_eq!(result.client_secret.as_deref(), Some("csec"));
    assert_eq!(
        result.client_id_hash.as_deref(),
        Some("dfde074bf0fcd0c747aef5b3ce27b842c69d7610d79fa6f917dc13ab15c7d751")
    );
    assert!(result.profile_arn.is_none());
}

#[test]
fn idc_refresh_requires_the_registration_metadata() {
    let provider = IdcProvider::new("BuilderId", "us-east-1", None);
    let missing = provider.refresh_inputs(&RefreshMetadata::empty());
    match missing {
        Err(AuthError::MissingMetadata(field)) => assert_eq!(field, "client_id"),
        other => panic!("unexpected: {:?}", other),
    }
    let mut metadata = RefreshMetadata::empty();
    metadata.client_id = Some("cid".to_string());
    match provider.refresh_inputs(&metadata) {
        Err(AuthError::MissingMetadata(field)) => assert_eq!(field, "client_secret"),
        other => panic!("unexpected: {:?}", other),
    }
    metadata.client_secret = Some("csec".to_string());
    let (cid, csec, region) = provider.refresh_inputs(&metadata).expect("inputs");
    assert_eq!((cid.as_str(), csec.as_str(), region.as_str()), ("cid", "csec", "us-east-1"));
}

#[test]
fn desktop_usage_url_encodes_the_profile() {
    assert_eq!(
        desktop_usage_url(),
        "https://codewhisperer.us-east-1.amazonaws.com/getUsageLimits?isEmailRequired=true&origin=AI_EDITOR&profileArn=arn%3Aaws%3Acodewhisperer%3Aus-east-1%3A699475941385%3Aprofile%2FEHGA3GRVQMUK"
    );
}

#[test]
fn registration_answers_follow_the_status_rules() {
    let registration = ClientRegistration {
        client_id: "cid".to_string(),
        client_secret: "csec".to_string(),
        client_id_issued_at: None,
        client_secret_expires_at: None,
        authorization_endpoint: None,
        token_endpoint: None,
    };
    let accepted = interpret_registration(200, Some(registration), String::new()).expect("registration");
    assert_eq!(accepted.client_id, "cid");
    assert!(matches!(
        interpret_registration(200, None, String::new()),
        Err(AuthError::ParseError(_))
    ));
    assert!(matches!(
        interpret_registration(500, None, "down".to_string()),
        Err(AuthError::BackendRejected(500, _))
    ));
}

#[test]
fn device_authorization_answers_follow_the_status_rules() {
    let auth = DeviceAuthorizationResponse {
        device_code: "dc".to_string(),
        user_code: "uc".to_string(),
        verification_uri: "https://verify".to_string(),
        verification_uri_complete: None,
        expires_in: 600,
        interval: Some(5),
    };
    let accepted = interpret_device_auth_start(200, Some(auth), String::new()).expect("authorization");
    assert_eq!(accepted.user_code, "uc");
    assert!(matches!(
        interpret_device_auth_start(200, None, String::new()),
        Err(AuthError::ParseError(_))
    ));
    assert!(matches!(
        interpret_device_auth_start(403, None, "no".to_string()),
        Err(AuthError::BackendRejected(403, _))
    ));
}
