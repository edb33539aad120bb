use kiro_auth::accounts::apply_login_merge;
use kiro_auth::accounts::apply_update_by_id;
use kiro_auth::accounts::assess_usage_outcome;
use kiro_auth::accounts::build_verify_response;
use kiro_auth::accounts::export_accounts;
use kiro_auth::accounts::find_by_refresh_token;
use kiro_auth::accounts::idc_add_update;
use kiro_auth::accounts::idc_login_update;
use kiro_auth::accounts::infer_social_provider;
use kiro_auth::accounts::kiro_account_update;
use kiro_auth::accounts::is_idc_provider;
use kiro_auth::accounts::manual_update;
use kiro_auth::accounts::social_add_update;
use kiro_auth::accounts::social_label;
use kiro_auth::accounts::social_login_update;
use kiro_auth::accounts::sync_plan;
use kiro_auth::accounts::token_refresh_update;
use kiro_auth::accounts::verify_update;
use kiro_auth::accounts::web_complete_update;
use kiro_auth::accounts::web_label;
use kiro_auth::accounts::web_refresh_update;
use kiro_auth::accounts::RefreshPlan;
use kiro_auth::base::AuthResult;
use kiro_auth::desktop::UsageSummary;
use kiro_auth::errors::AuthError;
use kiro_auth::store::Account;
use kiro_auth::store::AccountStatus;
use kiro_auth::store::AccountStore;

fn auth_result(provider: &str, method: &str) -> AuthResult {
    AuthResult {
        access_token: "at".to_string(),
        refresh_token: "rt".to_string(),
        expires_at: 5000,
        expires_in: 3600,
        provider: provider.to_string(),
        auth_method: method.to_string(),
        token_type: Some("Bearer".to_string()),
        id_token: None,
        region: None,
        client_id: None,
        client_secret: None,
        client_id_hash: None,
        sso_session_id: None,
        profile_arn: Some("arn".to_string()),
        csrf_token: Some("csrf".to_string()),
        session_token: None,
    }
}

#[test]
fn social_login_creates_and_then_updates_one_account() {
    let mut store = AccountStore::new();
    let result = auth_result("Google", "social");
    let update = social_login_update(&result, Some("uid".to_string()), None, social_label("Google"));
    let first = apply_login_merge(
        &mut store,
        "a@x.y".to_string(),
        "Google".to_string(),
        social_label("Google"),
        update,
    );
    assert_eq!(store.accounts.len(), 1);
    assert_eq!(first.label, "Kiro Google account");
    assert_eq!(first.access_token.as_deref(), Some("at"));
    assert_eq!(first.csrf_token.as_deref(), Some("csrf"));
    assert_eq!(first.expires_at, Some(5000));

    // a second login for the same pair overwrites in place and preserves the
    // stored web-flow csrf token
    let mut second_result = auth_result("Google", "social");
    second_result.access_token = "at2".to_string();
    second_result.csrf_token = Some("other-csrf".to_string());
    let update =
        social_login_update(&second_result, None, None, social_label("Google"));
    let second = apply_login_merge(
        &mut store,
        "a@x.y".to_string(),
        "Google".to_string(),
        social_label("Google"),
        update,
    );
    assert_eq!(store.accounts.len(), 1);
    assert_eq!(second.id, first.id);
    assert_eq!(second.access_token.as_deref(), Some("at2"));
    assert_eq!(second.csrf_token.as_deref(), Some("csrf"));
}

#[test]
fn device_login_stores_the_registration_group() {
    let mut store = AccountStore::new();
    let mut result = auth_result("BuilderId", "device");
    result.profile_arn = None;
    result.csrf_token = None;
    result.client_id = Some("cid".to_string());
    result.client_secret = Some("csec".to_string());
    result.region = Some("us-east-1".to_string());
    result.client_id_hash = Some("hash".to_string());
    let update = idc_login_update(&result, Some("uid".to_string()), Some("{}".to_string()), false);
    let merged = apply_login_merge(
        &mut store,
        "b@x.y".to_string(),
        "BuilderId".to_string(),
        social_label("BuilderId"),
        update,
    );
    assert_eq!(merged.client_id.as_deref(), Some("cid"));
    assert_eq!(merged.client_secret.as_deref(), Some("csec"));
    assert_eq!(merged.client_id_hash.as_deref(), Some("hash"));
    assert_eq!(merged.usage_data.as_deref(), Some("{}"));
    assert!(matches!(merged.status, AccountStatus::Active));
}

#[test]
fn suspension_flag_marks_the_account() {
    let mut store = AccountStore::new();
    let result = auth_result("BuilderId", "device");
    let update = idc_login_update(&result, None, None, true);
    let merged = apply_login_merge(
        &mut store,
        "b@x.y".to_string(),
        "BuilderId".to_string(),
        social_label("BuilderId"),
        update,
    );
    assert!(matches!(merged.status, AccountStatus::Suspended));
}

#[test]
fn token_refresh_touches_only_the_token_set() {
    let mut store = AccountStore::new();
    let result = auth_result("Google", "social");
    let login = social_login_update(&result, Some("uid".to_string()), Some("usage".to_string()), social_label("Google"));
    let stored = apply_login_merge(
        &mut store,
        "a@x.y".to_string(),
        "Google".to_string(),
        social_label("Google"),
        login,
    );
    let mut refreshed_result = auth_result("Google", "social");
    refreshed_result.access_token = "fresh".to_string();
    refreshed_result.expires_at = 9000;
    let refreshed = apply_update_by_id(&mut store, &stored.id, token_refresh_update(&refreshed_result))
        .expect("account");
    assert_eq!(refreshed.access_token.as_deref(), Some("fresh"));
    assert_eq!(refreshed.expires_at, Some(9000));
    // the snapshot and user survive a token-only refresh
    assert_eq!(refreshed.usage_data.as_deref(), Some("usage"));
    assert_eq!(refreshed.user_id.as_deref(), Some("uid"));
}

#[test]
fn updating_a_missing_account_changes_nothing() {
    let mut store = AccountStore::new();
    let result = apply_update_by_id(
        &mut store,
        &"ghost".to_string(),
        manual_update(None, None, None, None, None),
    );
    assert!(matches!(result, Err(AuthError::AccountNotFound)));
}

#[test]
fn manual_edit_sets_only_the_named_fields() {
    let mut store = AccountStore::new();
    let result = auth_result("Google", "social");
    let login = social_login_update(&result, None, None, social_label("Google"));
    let stored = apply_login_merge(
        &mut store,
        "a@x.y".to_string(),
        "Google".to_string(),
        social_label("Google"),
        login,
    );
    let edited = apply_update_by_id(
        &mut store,
        &stored.id,
        manual_update(Some("renamed".to_string()), None, None, Some("cid".to_string()), None),
    )
    .expect("account");
    assert_eq!(edited.label, "renamed");
    assert_eq!(edited.client_id.as_deref(), Some("cid"));
    assert_eq!(edited.access_token.as_deref(), Some("at"));
}

#[test]
fn sync_plans_follow_the_stored_provider() {
    let mut device = Account::new("b@x.y".to_string(), "l".to_string());
    device.provider = Some("BuilderId".to_string());
    device.refresh_token = Some("rt".to_string());
    device.client_id = Some("cid".to_string());
    device.client_secret = Some("csec".to_string());
    match sync_plan(&device).expect("plan") {
        RefreshPlan::Device { refresh_token, metadata, region } => {
            assert_eq!(refresh_token, "rt");
            assert_eq!(metadata.client_id.as_deref(), Some("cid"));
            assert_eq!(region, "us-east-1");
        }
        other => panic!("unexpected: {:?}", other),
    }

    let mut social = Account::new("a@x.y".to_string(), "l".to_string());
    social.provider = Some("Google".to_string());
    social.refresh_token = Some("rt".to_string());
    social.profile_arn = Some("arn".to_string());
    match sync_plan(&social).expect("plan") {
        RefreshPlan::Desktop { refresh_token, profile_arn } => {
            assert_eq!(refresh_token, "rt");
            assert_eq!(profile_arn.as_deref(), Some("arn"));
        }
        other => panic!("unexpected: {:?}", other),
    }

    let bare = Account::new("c@x.y".to_string(), "l".to_string());
    assert!(matches!(
        sync_plan(&bare),
        Err(AuthError::MissingMetadata(_))
    ));
}

#[test]
fn usage_outcomes_decide_the_status() {
    let summary = UsageSummary {
        user_info: None,
        usage_limit: Some(100),
        current_usage: Some(3),
        subscription_type: Some("FREE".to_string()),
        raw: "{}".to_string(),
    };
    let (usage, suspended) = assess_usage_outcome(Ok(summary));
    assert!(usage.is_some());
    assert!(!suspended);
    let (usage, suspended) =
        assess_usage_outcome(Err(AuthError::AccountSuspended("why".to_string())));
    assert!(usage.is_none());
    assert!(suspended);
    let (usage, suspended) = assess_usage_outcome(Err(AuthError::NetworkError("t".to_string())));
    assert!(usage.is_none());
    assert!(!suspended);
}

#[test]
fn providers_are_inferred_from_the_mail_domain() {
    assert_eq!(
        infer_social_provider(Some("Github".to_string()), "a@gmail.com"),
        "Github"
    );
    assert_eq!(infer_social_provider(None, "a@gmail.com"), "Google");
    assert_eq!(infer_social_provider(None, "a@users.github.com"), "Github");
    assert_eq!(infer_social_provider(None, "a@example.com"), "Google");
    assert!(is_idc_provider(&"BuilderId".to_string()));
    assert!(is_idc_provider(&"Enterprise".to_string()));
    assert!(!is_idc_provider(&"Google".to_string()));
}

#[test]
fn verification_reports_the_first_breakdown() {
    let summary = UsageSummary {
        user_info: None,
        usage_limit: Some(500),
        current_usage: Some(42),
        subscription_type: Some("PRO".to_string()),
        raw: "{}".to_string(),
    };
    let response = build_verify_response("at".to_string(), "rt".to_string(), &summary);
    assert_eq!(response.usage_limit, Some(500));
    assert_eq!(response.current_usage, Some(42));
    assert_eq!(response.subscription_type.as_deref(), Some("PRO"));
    assert_eq!(response.access_token, "at");
}

#[test]
fn accounts_are_found_by_their_refresh_token() {
    let mut store = AccountStore::new();
    let result = auth_result("Google", "social");
    let login = social_login_update(&result, None, None, social_label("Google"));
    apply_login_merge(
        &mut store,
        "a@x.y".to_string(),
        "Google".to_string(),
        social_label("Google"),
        login,
    );
    assert_eq!(find_by_refresh_token(&store, &"rt".to_string()), Some(0));
    assert_eq!(find_by_refresh_token(&store, &"nope".to_string()), None);
}

#[test]
fn export_falls_back_to_everything() {
    let mut store = AccountStore::new();
    let result = auth_result("Google", "social");
    let login = social_login_update(&result, None, None, social_label("Google"));
    let stored = apply_login_merge(
        &mut store,
        "a@x.y".to_string(),
        "Google".to_string(),
        social_label("Google"),
        login,
    );
    assert_eq!(export_accounts(&store, None).len(), 1);
    assert_eq!(export_accounts(&store, Some(vec![])).len(), 1);
    assert_eq!(export_accounts(&store, Some(vec![stored.id.clone()])).len(), 1);
    assert_eq!(export_accounts(&store, Some(vec!["ghost".to_string()])).len(), 0);
}

#[test]
fn adding_by_refresh_token_keeps_the_stored_expiry() {
    let mut store = AccountStore::new();
    let result = auth_result("Google", "social");
    let login = social_login_update(&result, None, None, social_label("Google"));
    apply_login_merge(
        &mut store,
        "a@x.y".to_string(),
        "Google".to_string(),
        social_label("Google"),
        login,
    );
    let add = social_add_update(
        "at2".to_string(),
        "rt2".to_string(),
        Some("uid2".to_string()),
        None,
        false,
    );
    let merged = apply_login_merge(
        &mut store,
        "a@x.y".to_string(),
        "Google".to_string(),
        social_label("Google"),
        add,
    );
    assert_eq!(store.accounts.len(), 1);
    assert_eq!(merged.access_token.as_deref(), Some("at2"));
    assert_eq!(merged.expires_at, Some(5000));
    assert_eq!(merged.csrf_token.as_deref(), Some("csrf"));
}

#[test]
fn adding_a_device_account_by_registration_stores_it() {
    let mut store = AccountStore::new();
    let mut result = auth_result("BuilderId", "device");
    result.profile_arn = None;
    result.csrf_token = None;
    let add = idc_add_update(
        &result,
        "cid".to_string(),
        "csec".to_string(),
        "us-east-1".to_string(),
        "hash".to_string(),
        None,
        None,
        false,
    );
    let merged = apply_login_merge(
        &mut store,
        "b@x.y".to_string(),
        "BuilderId".to_string(),
        social_label("BuilderId"),
        add,
    );
    assert_eq!(merged.client_id.as_deref(), Some("cid"));
    assert_eq!(merged.region.as_deref(), Some("us-east-1"));
    assert_eq!(merged.client_id_hash.as_deref(), Some("hash"));
}

#[test]
fn caller_supplied_tokens_store_with_an_optional_csrf() {
    let mut store = AccountStore::new();
    let with_csrf = kiro_account_update(
        "at".to_string(),
        "rt".to_string(),
        None,
        Some("cs".to_string()),
        None,
    );
    let merged = apply_login_merge(
        &mut store,
        "c@x.y".to_string(),
        "Google".to_string(),
        social_label("Google"),
        with_csrf,
    );
    assert_eq!(merged.csrf_token.as_deref(), Some("cs"));
    let without = kiro_account_update("at2".to_string(), "rt2".to_string(), None, None, None);
    let merged = apply_login_merge(
        &mut store,
        "c@x.y".to_string(),
        "Google".to_string(),
        social_label("Google"),
        without,
    );
    // no csrf supplied: the stored one stays
    assert_eq!(merged.csrf_token.as_deref(), Some("cs"));
    assert_eq!(merged.access_token.as_deref(), Some("at2"));
}

#[test]
fn web_logins_and_refreshes_store_the_portal_material() {
    let mut store = AccountStore::new();
    let mut result = auth_result("Google", "web_oauth");
    result.refresh_token = "session-cookie".to_string();
    let update = web_complete_update(&result, Some("uid".to_string()), None);
    let merged = apply_login_merge(
        &mut store,
        "w@x.y".to_string(),
        "Google".to_string(),
        web_label("Google"),
        update,
    );
    assert_eq!(merged.label, "Kiro Google (Web OAuth) account");
    assert_eq!(merged.refresh_token.as_deref(), Some("session-cookie"));
    assert_eq!(merged.csrf_token.as_deref(), Some("csrf"));

    let mut refreshed = auth_result("Google", "web_oauth");
    refreshed.access_token = "fresh".to_string();
    refreshed.csrf_token = Some("fresh-cs".to_string());
    refreshed.profile_arn = None;
    let refresh = web_refresh_update(&refreshed, Some("{}".to_string()));
    let after = apply_update_by_id(&mut store, &merged.id, refresh).expect("account");
    assert_eq!(after.access_token.as_deref(), Some("fresh"));
    assert_eq!(after.csrf_token.as_deref(), Some("fresh-cs"));
    // the portal returned no profile: the stored one stays
    assert_eq!(after.profile_arn.as_deref(), Some("arn"));
    assert!(matches!(after.status, AccountStatus::Active));
}

#[test]
fn verification_updates_only_the_token_pair() {
    let mut store = AccountStore::new();
    let result = auth_result("Google", "social");
    let login = social_login_update(&result, None, Some("usage".to_string()), social_label("Google"));
    let stored = apply_login_merge(
        &mut store,
        "v@x.y".to_string(),
        "Google".to_string(),
        social_label("Google"),
        login,
    );
    let verified = apply_update_by_id(
        &mut store,
        &stored.id,
        verify_update("new-at".to_string(), "new-rt".to_string()),
    )
    .expect("account");
    assert_eq!(verified.access_token.as_deref(), Some("new-at"));
    assert_eq!(verified.refresh_token.as_deref(), Some("new-rt"));
    assert_eq!(verified.usage_data.as_deref(), Some("usage"));
}
