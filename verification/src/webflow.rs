//! The command layer of the web-portal flow: one pending login at a time,
//! the provider gate, and the reading of the callback URL the caller
//! captured.

use crate::correlator::lookup_param;
use crate::correlator::lookup_spec;
use crate::correlator::parse_callback_url;
use crate::correlator::url_parse_of;
use crate::errors::AuthError;
use crate::util::string_eq_str;
use crate::web_oauth::WebOAuthInitResult;
use vstd::prelude::*;

verus! {

/// What an initiate command reports: the authorization URL to drive a
/// browser to and the state this login generated.
#[derive(Debug, Clone)]
pub struct WebOAuthInitResponse {
    pub authorize_url: String,
    pub state: String,
}

/// What a windowed login command reports: the label of the window it opened
/// and the state this login generated.
#[derive(Debug, Clone)]
pub struct WebOAuthLoginResponse {
    pub window_label: String,
    pub state: String,
}

/// The one pending web login: completing a login takes it, and starting a
/// new one overwrites whatever was left.
pub struct PendingWebLogin {
    pub slot: Option<WebOAuthInitResult>,
}

impl PendingWebLogin {
    /// No login pending.
    pub fn new() -> (r: PendingWebLogin)
        ensures
            r.slot is None,
    {
        PendingWebLogin { slot: None }
    }

    /// Record a freshly initiated login, dropping any stale one.
    pub fn put(&mut self, init: WebOAuthInitResult)
        ensures
            final(self).slot == Some(init),
    {
        self.slot = Some(init);
    }

    /// Take the pending login; completing without one pending is a caller
    /// error.
    pub fn take(&mut self) -> (r: Result<WebOAuthInitResult, AuthError>)
        ensures
            final(self).slot is None,
            match old(self).slot {
                Some(init) => r == Ok::<WebOAuthInitResult, AuthError>(init),
                None => r matches Err(AuthError::CallbackConsumed),
            },
    {
        match self.slot.take() {
            Some(init) => Ok(init),
            None => Err(AuthError::CallbackConsumed),
        }
    }
}

/// Only the two redirect-capable identity providers may start a web login.
pub fn validate_web_provider(provider: &String) -> (r: Result<(), AuthError>)
    ensures
        (provider@ == "Google"@ || provider@ == "Github"@) <==> r is Ok,
        !(provider@ == "Google"@ || provider@ == "Github"@) ==> (r matches Err(
            AuthError::UnsupportedProvider(p),
        ) && p@ == provider@),
{
    if string_eq_str(provider, "Google") || string_eq_str(provider, "Github") {
        Ok(())
    } else {
        Err(AuthError::UnsupportedProvider(provider.clone()))
    }
}

/// The window label a windowed login uses for a known provider.
pub fn build_window_label(provider: &String) -> (r: String)
    ensures
        provider@ == "Google"@ ==> r@ == "oauth_google"@,
        provider@ == "Github"@ ==> r@ == "oauth_github"@,
        provider@ != "Google"@ && provider@ != "Github"@ ==> r@ == "oauth_"@ + provider@,
{
    proof {
        reveal_strlit("Google");
        reveal_strlit("Github");
        assert("Google"@[1] == 'o');
        assert("Github"@[1] == 'i');
    }
    if string_eq_str(provider, "Google") {
        String::from_str("oauth_google")
    } else if string_eq_str(provider, "Github") {
        String::from_str("oauth_github")
    } else {
        let mut label = String::from_str("oauth_");
        label.append(provider.as_str());
        label
    }
}

/// Read the code and the returned state out of the callback URL the caller
/// captured. The returned state is whatever arrived — the backend may have
/// re-encoded the generated one, so it is reported as is, and the exchange
/// sends it back.
pub fn parse_web_callback(callback_url: &str) -> (r: Result<(String, String), AuthError>)
    ensures
        match url_parse_of(callback_url@) {
            None => r matches Err(AuthError::CallbackFailed(_)),
            Some(parts) => {
                let code = lookup_spec(parts.1, "code"@);
                let state = lookup_spec(parts.1, "state"@);
                if code is None {
                    r matches Err(AuthError::CallbackFailed(_))
                } else if state is None {
                    r matches Err(AuthError::CallbackFailed(_))
                } else {
                    r matches Ok(pair) && Some(pair.0@) == code && Some(pair.1@) == state
                }
            },
        },
{
    let parsed = match parse_callback_url(callback_url) {
        Some(u) => u,
        None => {
            return Err(AuthError::CallbackFailed(String::from_str("invalid callback URL")));
        },
    };
    let code_key = String::from_str("code");
    let state_key = String::from_str("state");
    let code = match lookup_param(&parsed.params, &code_key) {
        Some(c) => c,
        None => {
            return Err(AuthError::CallbackFailed(String::from_str("missing code parameter")));
        },
    };
    let state = match lookup_param(&parsed.params, &state_key) {
        Some(s) => s,
        None => {
            return Err(AuthError::CallbackFailed(String::from_str("missing state parameter")));
        },
    };
    Ok((code, state))
}

} // verus!
