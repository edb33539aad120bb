use kiro_auth::auth_state::check_pending_state;
use kiro_auth::auth_state::email_local_part;
use kiro_auth::auth_state::AuthState;
use kiro_auth::auth_state::PendingLogin;
use kiro_auth::codewhisperer::CodeWhispererClient;
use kiro_auth::errors::AuthError;
use kiro_auth::factory::create_idc_provider;
use kiro_auth::factory::create_social_provider;
use kiro_auth::factory::get_provider_config;
use kiro_auth::factory::get_supported_providers;
use kiro_auth::factory::AuthMethod;
use kiro_auth::kiro::plan_account_switch;
use kiro_auth::kiro::plan_local_account;
use kiro_auth::kiro::KiroLocalToken;
use kiro_auth::kiro::LocalAccountPlan;
use kiro_auth::kiro::SwitchAccountParams;
use kiro_auth::machine::format_as_uuid;
use kiro_auth::machine::is_valid_machine_id;
use kiro_auth::mcp::McpConfig;
use kiro_auth::mcp::PowerMcpServer;
use kiro_auth::mcp::PowersMcpConfig;
use kiro_auth::powers::PowerInfo;
use kiro_auth::powers::PowersRegistry;
use kiro_auth::settings::merge_app_settings;
use kiro_auth::settings::AppSettings;
use kiro_auth::sso_import::interpret_accept_response;
use kiro_auth::sso_import::interpret_approval;
use kiro_auth::sso_import::interpret_device_session;
use kiro_auth::sso_import::interpret_whoami;
use kiro_auth::sso_import::plan_approval;
use kiro_auth::sso_import::AcceptUserCodeResponse;
use kiro_auth::sso_import::DeviceContext;
use kiro_auth::sso_import::ImportPollState;
use kiro_auth::sso_import::ImportPollStep;
use kiro_auth::sso_import::ImportTokenResponse;
use kiro_auth::version::compare_versions;

#[test]
fn the_registry_knows_exactly_three_providers() {
    assert_eq!(get_supported_providers(), vec!["Google", "Github", "BuilderId"]);
    let google = get_provider_config("Google").expect("config");
    assert_eq!(google.auth_method, AuthMethod::Social);
    assert!(google.start_url.is_none());
    let builder = get_provider_config("BuilderId").expect("config");
    assert_eq!(builder.auth_method, AuthMethod::Idc);
    assert_eq!(
        builder.start_url.as_deref(),
        Some("https://view.awsapps.com/start")
    );
    assert!(get_provider_config("Unknown").is_none());

    let social = create_social_provider(&google);
    assert_eq!(social.provider_id, "Google");
    let device = create_idc_provider(&builder);
    assert_eq!(device.region, "us-east-1");
    assert_eq!(device.get_start_url(), "https://view.awsapps.com/start");
}

#[test]
fn newer_versions_are_detected_componentwise() {
    assert!(compare_versions("1.2.3", "1.2.4"));
    assert!(!compare_versions("1.2.3", "1.2.3"));
    assert!(!compare_versions("2.0.0", "1.9.9"));
    assert!(compare_versions("1.2", "1.2.1"));
    assert!(!compare_versions("1.2.0", "1.2"));
    assert!(compare_versions("v1.0.0", "v1.0.1"));
    // a non-numeric component is skipped, as 1.x.2 reads as [1, 2]
    assert!(compare_versions("1.x.2", "1.3"));
    assert!(!compare_versions("10.0", "9.9"));
}

#[test]
fn machine_identifiers_take_two_shapes() {
    assert!(is_valid_machine_id("01234567-89ab-cdef-0123-456789abcdef"));
    assert!(is_valid_machine_id("0123456789abcdef0123456789abcdef"));
    assert!(!is_valid_machine_id("0123456789ABCDEF0123456789ABCDEF"));
    assert!(!is_valid_machine_id("0123456789abcdef"));
    assert!(!is_valid_machine_id("0123456789abcdeg0123456789abcdef"));
}

#[test]
fn bare_identifiers_are_hyphenated() {
    assert_eq!(
        format_as_uuid("0123456789abcdef0123456789abcdef"),
        "01234567-89ab-cdef-0123-456789abcdef"
    );
    assert_eq!(format_as_uuid("abc"), "abc");
}

#[test]
fn login_records_the_user_and_logout_clears_it() {
    let mut state = AuthState::new();
    state.record_login("person@example.com", "Google", "at", "rt");
    let user = state.get_current_user().expect("user");
    assert_eq!(user.email, "person@example.com");
    assert_eq!(user.name, "person");
    assert_eq!(user.provider, "Google");
    assert_eq!(state.access_token.as_deref(), Some("at"));
    state.logout();
    assert!(state.get_current_user().is_none());
    assert!(state.access_token.is_none());
    // the refresh token survives a logout
    assert_eq!(state.refresh_token.as_deref(), Some("rt"));
}

#[test]
fn the_display_name_is_the_mail_local_part() {
    assert_eq!(email_local_part("user@host"), "user");
    assert_eq!(email_local_part("no-at-sign"), "no-at-sign");
    assert_eq!(email_local_part("@host"), "");
}

#[test]
fn a_pending_login_rejects_a_foreign_state() {
    let pending = PendingLogin {
        provider: "Google".to_string(),
        code_verifier: "v".to_string(),
        state: "S1".to_string(),
        machineid: "m".to_string(),
    };
    assert!(check_pending_state(&pending, &"S1".to_string()).is_ok());
    assert!(matches!(
        check_pending_state(&pending, &"S2".to_string()),
        Err(AuthError::StateMismatch)
    ));
}

#[test]
fn switching_a_device_account_writes_both_files() {
    let params = SwitchAccountParams {
        access_token: "at".to_string(),
        refresh_token: "rt".to_string(),
        provider: "BuilderId".to_string(),
        auth_method: Some("IdC".to_string()),
        profile_arn: None,
        client_id_hash: Some("hash".to_string()),
        client_id: Some("cid".to_string()),
        client_secret: Some("csec".to_string()),
        region: None,
        reset_machine_id: Some(true),
        auto_restart: None,
    };
    let plan = plan_account_switch(&params, true, 1000);
    assert!(plan.kill_first);
    assert!(plan.reset_machine_id);
    assert!(plan.restart_after);
    assert_eq!(plan.token_file.auth_method, "IdC");
    assert_eq!(plan.token_file.expires_at, 4600);
    assert_eq!(plan.token_file.region.as_deref(), Some("us-east-1"));
    let registration = plan.client_registration.expect("registration file");
    assert_eq!(registration.client_id_hash, "hash");
    assert_eq!(registration.client_id, "cid");
}

#[test]
fn switching_a_social_account_defaults_the_profile() {
    let params = SwitchAccountParams {
        access_token: "at".to_string(),
        refresh_token: "rt".to_string(),
        provider: "Google".to_string(),
        auth_method: None,
        profile_arn: None,
        client_id_hash: None,
        client_id: None,
        client_secret: None,
        region: None,
        reset_machine_id: None,
        auto_restart: Some(false),
    };
    let plan = plan_account_switch(&params, true, 0);
    assert!(!plan.kill_first);
    assert!(!plan.restart_after);
    assert_eq!(plan.token_file.auth_method, "social");
    assert_eq!(
        plan.token_file.profile_arn.as_deref(),
        Some("arn:aws:codewhisperer:us-east-1:699475941385:profile/EHGA3GRVQMUK")
    );
    assert!(plan.client_registration.is_none());
}

#[test]
fn local_credentials_become_import_plans() {
    let mut token = KiroLocalToken {
        access_token: None,
        refresh_token: Some("rt".to_string()),
        expires_at: None,
        auth_method: Some("IdC".to_string()),
        provider: None,
        profile_arn: None,
        client_id_hash: Some("hash".to_string()),
        region: None,
    };
    match plan_local_account(&token).expect("plan") {
        LocalAccountPlan::Device { refresh_token, client_id_hash, region } => {
            assert_eq!(refresh_token, "rt");
            assert_eq!(client_id_hash, "hash");
            assert_eq!(region, "us-east-1");
        }
        other => panic!("unexpected: {:?}", other),
    }
    token.client_id_hash = None;
    assert!(matches!(
        plan_local_account(&token),
        Err(AuthError::MissingMetadata(_))
    ));
    token.auth_method = None;
    match plan_local_account(&token).expect("plan") {
        LocalAccountPlan::Social { provider, .. } => assert_eq!(provider, "Google"),
        other => panic!("unexpected: {:?}", other),
    }
}

#[test]
fn removing_a_plugin_drops_only_its_servers() {
    let server = |url: &str| PowerMcpServer {
        url: url.to_string(),
        disabled: false,
        disabled_tools: vec![],
    };
    let mut config = McpConfig {
        mcp_servers: vec![],
        powers: Some(PowersMcpConfig {
            mcp_servers: vec![
                ("power-alpha-one".to_string(), server("u1")),
                ("power-beta-one".to_string(), server("u2")),
                ("power-alpha-two".to_string(), server("u3")),
            ],
        }),
    };
    config.remove_power_mcp("alpha");
    let block = config.powers.expect("block");
    assert_eq!(block.mcp_servers.len(), 1);
    assert_eq!(block.mcp_servers[0].0, "power-beta-one");
}

#[test]
fn the_registry_lists_installed_plugins() {
    let info = |name: &str, installed: bool| PowerInfo {
        name: name.to_string(),
        display_name: name.to_string(),
        description: String::new(),
        author: String::new(),
        license: String::new(),
        keywords: vec![],
        icon_url: None,
        repository_url: None,
        repository_clone_url: None,
        repository_branch: None,
        path_in_repo: None,
        installed,
        installed_at: None,
        install_path: None,
        installed_commit_sha: None,
        mcp_servers: vec![],
        source: None,
    };
    let registry = PowersRegistry {
        version: "1".to_string(),
        powers: vec![
            ("a".to_string(), info("a", true)),
            ("b".to_string(), info("b", false)),
            ("c".to_string(), info("c", true)),
        ],
        repo_sources: vec![],
        kiro_recommended_repo: None,
        last_updated: None,
    };
    let installed = registry.get_installed();
    assert_eq!(installed.len(), 2);
    assert_eq!(installed[0].name, "a");
    assert_eq!(installed[1].name, "c");
    assert_eq!(registry.get_all().len(), 3);
}

#[test]
fn saving_settings_merges_field_by_field() {
    let current = AppSettings {
        theme: Some("dark".to_string()),
        lock_model: Some(true),
        locked_model: None,
        auto_refresh: Some(false),
        auto_refresh_interval: Some(10),
        auto_change_machine_id: None,
        browser_path: Some("/usr/bin/firefox".to_string()),
        bind_machine_id_to_account: None,
        use_bound_machine_id: None,
        account_machine_ids: None,
    };
    let updates = AppSettings {
        theme: Some("light".to_string()),
        lock_model: None,
        locked_model: None,
        auto_refresh: None,
        auto_refresh_interval: None,
        auto_change_machine_id: None,
        browser_path: None,
        bind_machine_id_to_account: Some(true),
        use_bound_machine_id: None,
        account_machine_ids: None,
    };
    let merged = merge_app_settings(current, updates);
    assert_eq!(merged.theme.as_deref(), Some("light"));
    assert_eq!(merged.lock_model, Some(true));
    assert_eq!(merged.browser_path.as_deref(), Some("/usr/bin/firefox"));
    assert_eq!(merged.bind_machine_id_to_account, Some(true));
}

#[test]
fn import_polling_backs_off_and_times_out() {
    let mut state = ImportPollState::begin(None, 0);
    assert_eq!(state.interval, 1);
    assert_eq!(state.deadline, 120);
    assert!(matches!(
        state.poll_step(10, 400, None, Some("authorization_pending".to_string()), String::new()),
        ImportPollStep::Wait(1)
    ));
    assert!(matches!(
        state.poll_step(20, 400, None, Some("slow_down".to_string()), String::new()),
        ImportPollStep::Wait(6)
    ));
    let token = ImportTokenResponse {
        access_token: "at".to_string(),
        refresh_token: "rt".to_string(),
    };
    assert!(matches!(
        state.poll_step(30, 200, Some(token), None, String::new()),
        ImportPollStep::Done(_)
    ));
    assert!(matches!(
        state.poll_step(121, 200, None, None, String::new()),
        ImportPollStep::Failed(AuthError::DeviceAuthTimeout)
    ));
    assert!(matches!(
        state.poll_step(40, 400, None, Some("bad".to_string()), String::new()),
        ImportPollStep::Failed(AuthError::DeviceAuthError(_))
    ));
}

#[test]
fn an_accepted_user_code_is_approved_with_fallbacks() {
    let context = Some(DeviceContext {
        device_context_id: Some("ctx".to_string()),
        client_id: None,
        client_type: None,
    });
    let request = plan_approval(&context, &"registered".to_string(), &"session".to_string())
        .expect("approval");
    assert_eq!(request.device_context_id, "ctx");
    assert_eq!(request.client_id, "registered");
    assert_eq!(request.client_type, "public");
    assert_eq!(request.user_session_id, "session");
    let missing = Some(DeviceContext {
        device_context_id: None,
        client_id: None,
        client_type: None,
    });
    assert!(plan_approval(&missing, &"r".to_string(), &"s".to_string()).is_none());
    assert!(plan_approval(&None, &"r".to_string(), &"s".to_string()).is_none());
}

#[test]
fn error_kinds_are_stable_labels() {
    assert_eq!(AuthError::StateMismatch.kind(), "state_mismatch");
    assert_eq!(AuthError::CallbackTimeout.kind(), "callback_timeout");
    assert_eq!(AuthError::AccountSuspended("x".to_string()).kind(), "account_suspended");
    assert!(AuthError::AccountSuspended("x".to_string()).is_suspension());
    assert!(!AuthError::TokenExpiredOrInvalid.is_suspension());
}

#[test]
fn the_quota_client_identifies_the_machine() {
    let client = CodeWhispererClient::new("machine-1");
    assert_eq!(
        client.usage_url(),
        "https://codewhisperer.us-east-1.amazonaws.com/getUsageLimits?isEmailRequired=true&origin=AI_EDITOR&resourceType=AGENTIC_REQUEST"
    );
    assert_eq!(client.x_amz_user_agent(), "aws-sdk-js/1.0.0 KiroIDE-0.6.18-machine-1");
    assert!(client.user_agent().ends_with("KiroIDE-0.6.18-machine-1"));
}

#[test]
fn import_session_answers_follow_the_status_rules() {
    assert!(interpret_whoami(200, String::new()).is_ok());
    assert!(matches!(
        interpret_whoami(401, "expired".to_string()),
        Err(AuthError::BackendRejected(401, _))
    ));

    assert_eq!(
        interpret_device_session(200, Some("sess".to_string()), String::new()).expect("token"),
        "sess"
    );
    assert!(matches!(
        interpret_device_session(200, None, String::new()),
        Err(AuthError::ParseError(_))
    ));
    assert!(matches!(
        interpret_device_session(500, None, "down".to_string()),
        Err(AuthError::BackendRejected(500, _))
    ));

    let accepted = interpret_accept_response(
        200,
        Some(AcceptUserCodeResponse {
            device_context: Some(DeviceContext {
                device_context_id: Some("ctx".to_string()),
                client_id: None,
                client_type: None,
            }),
        }),
        String::new(),
    )
    .expect("context");
    assert_eq!(accepted.expect("context").device_context_id.as_deref(), Some("ctx"));
    assert!(matches!(
        interpret_accept_response(400, None, "no".to_string()),
        Err(AuthError::BackendRejected(400, _))
    ));

    assert!(interpret_approval(200, String::new()).is_ok());
    assert!(matches!(
        interpret_approval(403, "denied".to_string()),
        Err(AuthError::BackendRejected(403, _))
    ));
}
