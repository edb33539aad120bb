//! The redirect-correlated PKCE flow.
//!
//! A login generates a state token and a PKCE pair, registers a callback
//! waiter under the state, and sends the user's browser to the backend's
//! login page. The redirect handler resolves the waiter with the
//! authorization code, which the flow then exchanges — together with the
//! verifier and the redirect target — for the token set.

use crate::base::AuthProvider;
use crate::base::AuthResult;
use crate::base::RefreshMetadata;
use crate::clock::expires_at_spec;
use crate::correlator::register_waiter;
use crate::correlator::redirect_uri_spec;
use crate::correlator::DeepLinkCallbackWaiter;
use crate::desktop::login_redirect_spec;
use crate::desktop::KiroAuthServiceClient;
use crate::desktop::SocialTokenResponse;
use crate::idc::lemma_method_tags_distinct;
use crate::pkce::code_challenge_spec;
use crate::pkce::generate_code_challenge;
use crate::pkce::generate_code_verifier;
use crate::pkce::is_b64url_text;
use crate::pkce::new_uuid;
use vstd::prelude::*;

verus! {

/// The redirect-correlated provider.
pub struct SocialProvider {
    pub provider_id: String,
}

impl SocialProvider {
    /// A provider for this identifier.
    pub fn new(provider_id: &str) -> (r: SocialProvider)
        ensures
            r.provider_id@ == provider_id@,
    {
        SocialProvider { provider_id: provider_id.to_owned() }
    }
}

impl AuthProvider for SocialProvider {
    open spec fn provider_id_spec(&self) -> Seq<char> {
        self.provider_id@
    }

    open spec fn auth_method_spec(&self) -> Seq<char> {
        "social"@
    }

    fn get_provider_id(&self) -> (r: &str)
        ensures
            r@ == self.provider_id_spec(),
    {
        self.provider_id.as_str()
    }

    fn get_auth_method(&self) -> (r: &str)
        ensures
            r@ == self.auth_method_spec(),
    {
        "social"
    }
}

/// One login attempt in flight: the generated secrets, the registered
/// waiter, and the redirect the browser must be sent to. Exactly one may be
/// outstanding at a time, since one waiter serves one rendezvous.
pub struct SocialLoginAttempt {
    /// The generated state token the callback must echo.
    pub state: String,
    /// The PKCE verifier, disclosed only at the exchange.
    pub code_verifier: String,
    /// The PKCE challenge sent with the redirect.
    pub code_challenge: String,
    /// The fixed custom-scheme redirect target.
    pub redirect_uri: String,
    /// The full login redirect to drive the browser to.
    pub login_url: String,
    /// The rendezvous the redirect handler resolves.
    pub waiter: DeepLinkCallbackWaiter,
}

impl SocialProvider {
    /// Start a login: generate the state and the PKCE pair, register the
    /// waiter under the state, and build the browser redirect.
    pub fn begin_login(&self, client: &KiroAuthServiceClient) -> (r: SocialLoginAttempt)
        ensures
            r.state@.len() == 36,
            r.code_verifier@.len() == 43,
            is_b64url_text(r.code_verifier@),
            r.code_challenge@ == code_challenge_spec(r.code_verifier@),
            is_b64url_text(r.code_challenge@),
            r.redirect_uri@ == redirect_uri_spec(),
            r.login_url@ == login_redirect_spec(
                client.endpoint@,
                self.provider_id@,
                redirect_uri_spec(),
                r.code_challenge@,
                r.state@,
            ),
            r.waiter.expected_state@ == r.state@,
            r.waiter.pending,
            r.waiter.outcome is None,
            !r.waiter.consumed,
    {
        let state = new_uuid();
        let code_verifier = generate_code_verifier();
        let code_challenge = generate_code_challenge(code_verifier.as_str());
        let redirect_uri = DeepLinkCallbackWaiter::get_redirect_uri();
        let login_url = client.build_login_redirect(
            self.provider_id.as_str(),
            redirect_uri.as_str(),
            code_challenge.as_str(),
            state.as_str(),
        );
        let waiter = register_waiter(&state);
        SocialLoginAttempt { state, code_verifier, code_challenge, redirect_uri, login_url, waiter }
    }

    /// Assemble the normalized result of a completed login at `now` from the
    /// exchange answer.
    pub fn finish_login(&self, token: SocialTokenResponse, now: i64) -> (r: AuthResult)
        requires
            i64::MIN <= now + token.expires_in <= i64::MAX,
        ensures
            r.access_token == token.access_token,
            r.refresh_token == token.refresh_token,
            r.expires_at == expires_at_spec(now, token.expires_in),
            r.expires_in == token.expires_in,
            r.provider@ == self.provider_id@,
            r.auth_method@ == "social"@,
            r.token_type == token.token_type,
            r.id_token == token.id_token,
            r.profile_arn == token.profile_arn,
            r.csrf_token == token.csrf_token,
            r.session_token is None,
            r.device_group_empty(),
            r.wf(),
    {
        let r = AuthResult {
            access_token: token.access_token,
            refresh_token: token.refresh_token,
            expires_at: now + token.expires_in,
            expires_in: token.expires_in,
            provider: self.provider_id.clone(),
            auth_method: String::from_str("social"),
            token_type: token.token_type,
            id_token: token.id_token,
            region: None,
            client_id: None,
            client_secret: None,
            client_id_hash: None,
            sso_session_id: None,
            profile_arn: token.profile_arn,
            csrf_token: token.csrf_token,
            session_token: None,
        };
        proof {
            lemma_method_tags_distinct();
        }
        r
    }

    /// Assemble the normalized result of a completed refresh at `now`. The
    /// profile comes from the caller's metadata when it kept one, else from
    /// the answer; the token type is fixed to `Bearer`.
    pub fn finish_refresh(
        &self,
        metadata: &RefreshMetadata,
        response: SocialRefreshResponse,
        now: i64,
    ) -> (r: AuthResult)
        requires
            i64::MIN <= now + response.expires_in <= i64::MAX,
        ensures
            r.access_token == response.access_token,
            r.refresh_token == response.refresh_token,
            r.expires_at == expires_at_spec(now, response.expires_in),
            r.expires_in == response.expires_in,
            r.provider@ == self.provider_id@,
            r.auth_method@ == "social"@,
            r.token_type matches Some(t) && t@ == "Bearer"@,
            r.id_token is None,
            r.profile_arn == match metadata.profile_arn {
                Some(arn) => Some(arn),
                None => response.profile_arn,
            },
            r.csrf_token == response.csrf_token,
            r.session_token is None,
            r.device_group_empty(),
            r.wf(),
    {
        let profile_arn = match &metadata.profile_arn {
            Some(arn) => Some(arn.clone()),
            None => response.profile_arn,
        };
        let r = AuthResult {
            access_token: response.access_token,
            refresh_token: response.refresh_token,
            expires_at: now + response.expires_in,
            expires_in: response.expires_in,
            provider: self.provider_id.clone(),
            auth_method: String::from_str("social"),
            token_type: Some(String::from_str("Bearer")),
            id_token: None,
            region: None,
            client_id: None,
            client_secret: None,
            client_id_hash: None,
            sso_session_id: None,
            profile_arn,
            csrf_token: response.csrf_token,
            session_token: None,
        };
        proof {
            lemma_method_tags_distinct();
        }
        r
    }
}

/// A refresh answer of the desktop backend for this flow.
#[derive(Debug, Clone)]
pub struct SocialRefreshResponse {
    pub access_token: String,
    pub refresh_token: String,
    pub profile_arn: Option<String>,
    pub expires_in: i64,
    pub csrf_token: Option<String>,
}

} // verus!
