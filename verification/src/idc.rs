//! The device-authorization flow.
//!
//! A login registers an OIDC client, starts a device authorization, sends the
//! user's browser to the verification page, and then polls the token endpoint
//! until the user decides or the authorization expires. The polling policy —
//! keep the interval on `authorization_pending`, lengthen it by five seconds
//! on `slow_down`, stop on the terminal answers, and never poll past the
//! authorization's own expiry — lives here; the transport between the steps
//! does not.

use crate::base::AuthProvider;
use crate::util::clone_opt;
use crate::base::AuthResult;
use crate::base::RefreshMetadata;
use crate::clock::expires_at_spec;
use crate::errors::AuthError;
use crate::pkce::client_id_hash_spec;
use crate::pkce::compute_client_id_hash;
use crate::sso::ClientRegistration;
use crate::sso::DeviceAuthorizationResponse;
use crate::sso::DevicePollResult;
use crate::sso::TokenResponse;
use vstd::prelude::*;

verus! {

/// The issuer start URL used when a provider configuration names none.
pub open spec fn builder_id_start_url_spec() -> Seq<char> {
    "https://view.awsapps.com/start"@
}

/// The device-authorization provider.
pub struct IdcProvider {
    pub provider_id: String,
    pub region: String,
    pub start_url: Option<String>,
}

impl IdcProvider {
    /// A provider for this identifier, region and optional issuer start URL.
    pub fn new(provider_id: &str, region: &str, start_url: Option<String>) -> (r: IdcProvider)
        ensures
            r.provider_id@ == provider_id@,
            r.region@ == region@,
            r.start_url == start_url,
    {
        IdcProvider { provider_id: provider_id.to_owned(), region: region.to_owned(), start_url }
    }

    /// The issuer start URL this provider authorizes against.
    pub open spec fn start_url_spec(&self) -> Seq<char> {
        match self.start_url {
            Some(u) => u@,
            None => builder_id_start_url_spec(),
        }
    }

    /// Return the issuer start URL, falling back to the fixed one.
    pub fn get_start_url(&self) -> (r: &str)
        ensures
            r@ == self.start_url_spec(),
    {
        match &self.start_url {
            Some(u) => u.as_str(),
            None => "https://view.awsapps.com/start",
        }
    }
}

impl AuthProvider for IdcProvider {
    open spec fn provider_id_spec(&self) -> Seq<char> {
        self.provider_id@
    }

    open spec fn auth_method_spec(&self) -> Seq<char> {
        "device"@
    }

    fn get_provider_id(&self) -> (r: &str)
        ensures
            r@ == self.provider_id_spec(),
    {
        self.provider_id.as_str()
    }

    fn get_auth_method(&self) -> (r: &str)
        ensures
            r@ == self.auth_method_spec(),
    {
        "device"
    }
}

/// The transient state of one device authorization: it exists for one login
/// attempt and is never persisted.
pub struct DeviceAuthorizationState {
    pub device_code: String,
    pub user_code: String,
    pub verification_uri: String,
    pub verification_uri_complete: Option<String>,
    /// Absolute deadline, Unix seconds: past it, no further poll is made.
    pub expires_at: i64,
    /// Seconds to wait between polls; never below zero.
    pub poll_interval: i64,
}

impl DeviceAuthorizationState {
    /// The interval never goes negative.
    pub open spec fn wf(&self) -> bool {
        self.poll_interval >= 0
    }

    /// Begin polling a fresh authorization at `now`: the deadline is the
    /// authorization's own expiry, and the interval is the suggested one, or
    /// five seconds when the backend suggested none or a negative one.
    pub fn begin(auth: &DeviceAuthorizationResponse, now: i64) -> (r: DeviceAuthorizationState)
        requires
            i64::MIN <= now + auth.expires_in <= i64::MAX,
        ensures
            r.device_code@ == auth.device_code@,
            r.user_code@ == auth.user_code@,
            r.verification_uri@ == auth.verification_uri@,
            r.verification_uri_complete == auth.verification_uri_complete,
            r.expires_at == expires_at_spec(now, auth.expires_in),
            r.poll_interval == match auth.interval {
                Some(i) => if i >= 0 {
                    i as int
                } else {
                    5
                },
                None => 5,
            },
            r.wf(),
    {
        let poll_interval = match auth.interval {
            Some(i) => if i >= 0 {
                i
            } else {
                5
            },
            None => 5,
        };
        DeviceAuthorizationState {
            device_code: auth.device_code.clone(),
            user_code: auth.user_code.clone(),
            verification_uri: auth.verification_uri.clone(),
            verification_uri_complete: clone_opt(&auth.verification_uri_complete),
            expires_at: now + auth.expires_in,
            poll_interval,
        }
    }

    /// The page to send the user's browser to: the complete variant that
    /// embeds the user code when the backend gave one, else the plain one.
    pub fn verification_target(&self) -> (r: &str)
        ensures
            r@ == match self.verification_uri_complete {
                Some(u) => u@,
                None => self.verification_uri@,
            },
    {
        match &self.verification_uri_complete {
            Some(u) => u.as_str(),
            None => self.verification_uri.as_str(),
        }
    }

    /// Whether the flow may poll again at `now`: past the authorization's
    /// expiry it may not, and the attempt fails with the timeout error.
    pub fn check_deadline(&self, now: i64) -> (r: Option<AuthError>)
        ensures
            now > self.expires_at <==> (r matches Some(AuthError::DeviceAuthTimeout)),
            now <= self.expires_at <==> r is None,
    {
        if now > self.expires_at {
            Some(AuthError::DeviceAuthTimeout)
        } else {
            None
        }
    }

    /// Consume one poll answer.
    ///
    /// The interval never shrinks, and it grows — by exactly five seconds —
    /// only when the backend said `slow_down`. The terminal answers end the
    /// flow: success with the token set, expiry with `DeviceCodeExpired`,
    /// denial with `UserDenied`; after a terminal answer no further poll is
    /// made.
    pub fn poll_step(&mut self, poll: DevicePollResult) -> (r: PollStep)
        requires
            old(self).wf(),
        ensures
            final(self).device_code == old(self).device_code,
            final(self).user_code == old(self).user_code,
            final(self).verification_uri == old(self).verification_uri,
            final(self).verification_uri_complete == old(self).verification_uri_complete,
            final(self).expires_at == old(self).expires_at,
            final(self).wf(),
            final(self).poll_interval >= old(self).poll_interval,
            !(poll is SlowDown) ==> final(self).poll_interval == old(self).poll_interval,
            poll is SlowDown ==> final(self).poll_interval == if old(self).poll_interval + 5
                <= i64::MAX {
                old(self).poll_interval + 5
            } else {
                i64::MAX as int
            },
            match poll {
                DevicePollResult::Success(t) => r matches PollStep::Complete(rt) && rt == t,
                DevicePollResult::Pending => r is Continue,
                DevicePollResult::SlowDown => r is Continue,
                DevicePollResult::Expired => r matches PollStep::Failed(
                    AuthError::DeviceCodeExpired,
                ),
                DevicePollResult::Denied => r matches PollStep::Failed(AuthError::UserDenied),
            },
    {
        match poll {
            DevicePollResult::Success(t) => PollStep::Complete(t),
            DevicePollResult::Pending => PollStep::Continue,
            DevicePollResult::SlowDown => {
                if self.poll_interval <= i64::MAX - 5 {
                    self.poll_interval = self.poll_interval + 5;
                } else {
                    self.poll_interval = i64::MAX;
                }
                PollStep::Continue
            },
            DevicePollResult::Expired => PollStep::Failed(AuthError::DeviceCodeExpired),
            DevicePollResult::Denied => PollStep::Failed(AuthError::UserDenied),
        }
    }
}

/// What the flow does after consuming one poll answer.
pub enum PollStep {
    /// Wait the current interval and poll again.
    Continue,
    /// The user approved; the flow is complete.
    Complete(TokenResponse),
    /// A terminal failure; no further poll is made.
    Failed(AuthError),
}

impl IdcProvider {
    /// Assemble the normalized result of a completed device-flow login at
    /// `now`: the token set, the registration that produced it, the region,
    /// and the stable registration key derived from the start URL.
    pub fn finish_login(
        &self,
        registration: &ClientRegistration,
        token: TokenResponse,
        now: i64,
    ) -> (r: AuthResult)
        requires
            i64::MIN <= now + token.expires_in <= i64::MAX,
        ensures
            r.access_token == token.access_token,
            r.refresh_token == token.refresh_token,
            r.expires_at == expires_at_spec(now, token.expires_in),
            r.expires_in == token.expires_in,
            r.provider@ == self.provider_id@,
            r.auth_method@ == "device"@,
            r.token_type == token.token_type,
            r.id_token == token.id_token,
            r.region matches Some(reg) && reg@ == self.region@,
            r.client_id matches Some(c) && c@ == registration.client_id@,
            r.client_secret matches Some(c) && c@ == registration.client_secret@,
            r.client_id_hash matches Some(h) && h@ == client_id_hash_spec(self.start_url_spec()),
            r.sso_session_id == token.aws_sso_app_session_id,
            r.web_group_empty(),
            r.wf(),
    {
        let client_id_hash = compute_client_id_hash(self.get_start_url());
        let r = AuthResult {
            access_token: token.access_token,
            refresh_token: token.refresh_token,
            expires_at: now + token.expires_in,
            expires_in: token.expires_in,
            provider: self.provider_id.clone(),
            auth_method: String::from_str("device"),
            token_type: token.token_type,
            id_token: token.id_token,
            region: Some(self.region.clone()),
            client_id: Some(registration.client_id.clone()),
            client_secret: Some(registration.client_secret.clone()),
            client_id_hash: Some(client_id_hash),
            sso_session_id: token.aws_sso_app_session_id,
            profile_arn: None,
            csrf_token: None,
            session_token: None,
        };
        proof {
            lemma_method_tags_distinct();
        }
        r
    }

    /// The inputs a device-flow refresh needs from the caller's metadata:
    /// the client identifier and secret are required, the region falls back
    /// to the provider's own.
    pub fn refresh_inputs(&self, metadata: &RefreshMetadata) -> (r: Result<
        (String, String, String),
        AuthError,
    >)
        ensures
            match (metadata.client_id, metadata.client_secret) {
                (None, _) => r matches Err(AuthError::MissingMetadata(f)) && f@ == "client_id"@,
                (Some(_), None) => r matches Err(AuthError::MissingMetadata(f)) && f@
                    == "client_secret"@,
                (Some(cid), Some(csec)) => r matches Ok(inputs) && inputs.0@ == cid@ && inputs.1@
                    == csec@ && inputs.2@ == match metadata.region {
                    Some(reg) => reg@,
                    None => self.region@,
                },
            },
    {
        let cid = match &metadata.client_id {
            Some(c) => c.clone(),
            None => {
                return Err(AuthError::MissingMetadata(String::from_str("client_id")));
            },
        };
        let csec = match &metadata.client_secret {
            Some(c) => c.clone(),
            None => {
                return Err(AuthError::MissingMetadata(String::from_str("client_secret")));
            },
        };
        let region = match &metadata.region {
            Some(reg) => reg.clone(),
            None => self.region.clone(),
        };
        Ok((cid, csec, region))
    }

    /// Assemble the normalized result of a completed device-flow refresh at
    /// `now`. The registration key comes from the caller's metadata when it
    /// kept one, else it is derived from the start URL again.
    pub fn finish_refresh(
        &self,
        client_id: String,
        client_secret: String,
        region: String,
        metadata_hash: Option<String>,
        token: TokenResponse,
        now: i64,
    ) -> (r: AuthResult)
        requires
            i64::MIN <= now + token.expires_in <= i64::MAX,
        ensures
            r.access_token == token.access_token,
            r.refresh_token == token.refresh_token,
            r.expires_at == expires_at_spec(now, token.expires_in),
            r.expires_in == token.expires_in,
            r.provider@ == self.provider_id@,
            r.auth_method@ == "device"@,
            r.token_type == token.token_type,
            r.id_token == token.id_token,
            r.region matches Some(reg) && reg@ == region@,
            r.client_id matches Some(c) && c@ == client_id@,
            r.client_secret matches Some(c) && c@ == client_secret@,
            r.client_id_hash matches Some(h) && h@ == match metadata_hash {
                Some(m) => m@,
                None => client_id_hash_spec(self.start_url_spec()),
            },
            r.sso_session_id == token.aws_sso_app_session_id,
            r.web_group_empty(),
            r.wf(),
    {
        let client_id_hash = match metadata_hash {
            Some(m) => m,
            None => compute_client_id_hash(self.get_start_url()),
        };
        let r = AuthResult {
            access_token: token.access_token,
            refresh_token: token.refresh_token,
            expires_at: now + token.expires_in,
            expires_in: token.expires_in,
            provider: self.provider_id.clone(),
            auth_method: String::from_str("device"),
            token_type: token.token_type,
            id_token: token.id_token,
            region: Some(region),
            client_id: Some(client_id),
            client_secret: Some(client_secret),
            client_id_hash: Some(client_id_hash),
            sso_session_id: token.aws_sso_app_session_id,
            profile_arn: None,
            csrf_token: None,
            session_token: None,
        };
        proof {
            lemma_method_tags_distinct();
        }
        r
    }
}

/// The three method tags are pairwise distinct strings.
pub proof fn lemma_method_tags_distinct()
    ensures
        "social"@ != "device"@,
        "social"@ != "web_oauth"@,
        "device"@ != "web_oauth"@,
{
    reveal_strlit("social");
    reveal_strlit("device");
    reveal_strlit("web_oauth");
    assert("social"@.len() == 6);
    assert("device"@.len() == 6);
    assert("web_oauth"@.len() == 9);
    assert("social"@[0] == 's');
    assert("device"@[0] == 'd');
}

} // verus!
