//! The AWS SSO OIDC backend: client registration, device authorization, and
//! the token endpoint for both the device-code and refresh-token grants.
//!
//! This module owns every decision about those calls — which URL, which
//! request fields, and what each response means. The transport that carries
//! the requests lives outside the crate and hands back the status and the
//! parsed fields.

use crate::errors::AuthError;
use crate::util::string_eq_str;
use vstd::prelude::*;

verus! {

/// A registered OIDC client; long-lived and reused across logins for the
/// same issuer.
#[derive(Debug, Clone)]
pub struct ClientRegistration {
    pub client_id: String,
    pub client_secret: String,
    pub client_id_issued_at: Option<i64>,
    pub client_secret_expires_at: Option<i64>,
    pub authorization_endpoint: Option<String>,
    pub token_endpoint: Option<String>,
}

/// A token-endpoint response, for either grant.
#[derive(Debug, Clone)]
pub struct TokenResponse {
    pub access_token: String,
    pub refresh_token: String,
    pub id_token: Option<String>,
    pub token_type: Option<String>,
    pub expires_in: i64,
    pub aws_sso_app_session_id: Option<String>,
    pub issued_token_type: Option<String>,
    pub origin_session_id: Option<String>,
}

/// A device-authorization response.
#[derive(Debug, Clone)]
pub struct DeviceAuthorizationResponse {
    pub device_code: String,
    pub user_code: String,
    pub verification_uri: String,
    pub verification_uri_complete: Option<String>,
    pub expires_in: i64,
    pub interval: Option<i64>,
}

/// What one poll of the token endpoint means for the device flow.
#[derive(Debug)]
pub enum DevicePollResult {
    /// The user approved; the token set is here.
    Success(TokenResponse),
    /// The user has not decided yet; keep polling at the same interval.
    Pending,
    /// The backend asks for a longer interval; add five seconds.
    SlowDown,
    /// The device code expired before the user approved.
    Expired,
    /// The user denied the authorization.
    Denied,
}

/// A status in the success range.
pub open spec fn is_success_status(status: u16) -> bool {
    200 <= status < 300
}

/// Decide whether a status is in the success range.
pub fn status_is_success(status: u16) -> (r: bool)
    ensures
        r == is_success_status(status),
{
    200 <= status && status < 300
}

/// The region-scoped client for the SSO OIDC backend.
pub struct AWSSSOClient {
    pub region: String,
    pub base_url: String,
}

/// The endpoint for a region.
pub open spec fn sso_base_url_spec(region: Seq<char>) -> Seq<char> {
    "https://oidc."@ + region + ".amazonaws.com"@
}

/// The body of a client registration call: a fixed client name and scope
/// set, and both grant types the flow needs.
#[derive(Debug, Clone)]
pub struct RegisterClientRequest {
    pub client_name: String,
    pub client_type: String,
    pub scopes: Vec<String>,
    pub grant_types: Vec<String>,
    pub issuer_url: String,
}

/// The body of a device-authorization call.
#[derive(Debug, Clone)]
pub struct StartDeviceAuthRequest {
    pub client_id: String,
    pub client_secret: String,
    pub start_url: String,
}

/// The body of a token-endpoint call, for either grant: exactly one of
/// `device_code` and `refresh_token` is set, matching `grant_type`.
#[derive(Debug, Clone)]
pub struct SsoTokenRequest {
    pub client_id: String,
    pub client_secret: String,
    pub grant_type: String,
    pub device_code: Option<String>,
    pub refresh_token: Option<String>,
}

impl AWSSSOClient {
    /// A client for this region.
    pub fn new(region: &str) -> (r: AWSSSOClient)
        ensures
            r.region@ == region@,
            r.base_url@ == sso_base_url_spec(region@),
    {
        let mut base_url = String::from_str("https://oidc.");
        base_url.append(region);
        base_url.append(".amazonaws.com");
        AWSSSOClient { region: region.to_owned(), base_url }
    }

    /// The token endpoint.
    pub fn token_url(&self) -> (r: String)
        ensures
            r@ == self.base_url@ + "/token"@,
    {
        let mut url = self.base_url.clone();
        url.append("/token");
        url
    }

    /// The client registration endpoint.
    pub fn register_url(&self) -> (r: String)
        ensures
            r@ == self.base_url@ + "/client/register"@,
    {
        let mut url = self.base_url.clone();
        url.append("/client/register");
        url
    }

    /// The device authorization endpoint.
    pub fn device_authorization_url(&self) -> (r: String)
        ensures
            r@ == self.base_url@ + "/device_authorization"@,
    {
        let mut url = self.base_url.clone();
        url.append("/device_authorization");
        url
    }

    /// The registration request for a device-authorization client against
    /// this issuer: the fixed name, the public client type, the five fixed
    /// scopes, and the device-code and refresh-token grants.
    pub fn build_register_request(&self, issuer_url: &str) -> (r: RegisterClientRequest)
        ensures
            r.client_name@ == "Kiro Account Manager"@,
            r.client_type@ == "public"@,
            r.scopes@.len() == 5,
            r.scopes@[0]@ == "codewhisperer:completions"@,
            r.scopes@[1]@ == "codewhisperer:analysis"@,
            r.scopes@[2]@ == "codewhisperer:conversations"@,
            r.scopes@[3]@ == "codewhisperer:transformations"@,
            r.scopes@[4]@ == "codewhisperer:taskassist"@,
            r.grant_types@.len() == 2,
            r.grant_types@[0]@ == "urn:ietf:params:oauth:grant-type:device_code"@,
            r.grant_types@[1]@ == "refresh_token"@,
            r.issuer_url@ == issuer_url@,
    {
        let scopes: Vec<String> = vec![
            String::from_str("codewhisperer:completions"),
            String::from_str("codewhisperer:analysis"),
            String::from_str("codewhisperer:conversations"),
            String::from_str("codewhisperer:transformations"),
            String::from_str("codewhisperer:taskassist"),
        ];
        let grant_types: Vec<String> = vec![
            String::from_str("urn:ietf:params:oauth:grant-type:device_code"),
            String::from_str("refresh_token"),
        ];
        RegisterClientRequest {
            client_name: String::from_str("Kiro Account Manager"),
            client_type: String::from_str("public"),
            scopes,
            grant_types,
            issuer_url: issuer_url.to_owned(),
        }
    }

    /// The device-authorization request for a registered client.
    pub fn build_device_auth_request(
        &self,
        client_id: &str,
        client_secret: &str,
        start_url: &str,
    ) -> (r: StartDeviceAuthRequest)
        ensures
            r.client_id@ == client_id@,
            r.client_secret@ == client_secret@,
            r.start_url@ == start_url@,
    {
        StartDeviceAuthRequest {
            client_id: client_id.to_owned(),
            client_secret: client_secret.to_owned(),
            start_url: start_url.to_owned(),
        }
    }

    /// The token request that polls a device authorization.
    pub fn build_device_token_request(
        &self,
        client_id: &str,
        client_secret: &str,
        device_code: &str,
    ) -> (r: SsoTokenRequest)
        ensures
            r.client_id@ == client_id@,
            r.client_secret@ == client_secret@,
            r.grant_type@ == "urn:ietf:params:oauth:grant-type:device_code"@,
            r.device_code matches Some(d) && d@ == device_code@,
            r.refresh_token is None,
    {
        SsoTokenRequest {
            client_id: client_id.to_owned(),
            client_secret: client_secret.to_owned(),
            grant_type: String::from_str("urn:ietf:params:oauth:grant-type:device_code"),
            device_code: Some(device_code.to_owned()),
            refresh_token: None,
        }
    }

    /// The token request that exchanges a refresh token.
    pub fn build_refresh_request(
        &self,
        client_id: &str,
        client_secret: &str,
        refresh_token: &str,
    ) -> (r: SsoTokenRequest)
        ensures
            r.client_id@ == client_id@,
            r.client_secret@ == client_secret@,
            r.grant_type@ == "refresh_token"@,
            r.device_code is None,
            r.refresh_token matches Some(t) && t@ == refresh_token@,
    {
        SsoTokenRequest {
            client_id: client_id.to_owned(),
            client_secret: client_secret.to_owned(),
            grant_type: String::from_str("refresh_token"),
            device_code: None,
            refresh_token: Some(refresh_token.to_owned()),
        }
    }
}

/// What one answer of the token endpoint means while polling a device
/// authorization. The transport hands in the status, the token set it could
/// parse from a success body, the `error` code it could parse from a failure
/// body, and the raw body for reporting.
pub fn interpret_device_poll(
    status: u16,
    token: Option<TokenResponse>,
    error_code: Option<String>,
    body: String,
) -> (r: Result<DevicePollResult, AuthError>)
    ensures
        is_success_status(status) ==> match token {
            Some(t) => r matches Ok(DevicePollResult::Success(rt)) && rt == t,
            None => r matches Err(AuthError::ParseError(_)),
        },
        !is_success_status(status) ==> match error_code {
            Some(e) => if e@ == "authorization_pending"@ {
                r matches Ok(DevicePollResult::Pending)
            } else if e@ == "slow_down"@ {
                r matches Ok(DevicePollResult::SlowDown)
            } else if e@ == "expired_token"@ {
                r matches Ok(DevicePollResult::Expired)
            } else if e@ == "access_denied"@ {
                r matches Ok(DevicePollResult::Denied)
            } else {
                r matches Err(AuthError::DeviceAuthError(raw)) && raw@ == e@
            },
            None => r matches Err(AuthError::BackendRejected(s, b)) && s == status && b@ == body@,
        },
{
    if status_is_success(status) {
        match token {
            Some(t) => Ok(DevicePollResult::Success(t)),
            None => Err(AuthError::ParseError(String::from_str("unreadable token response"))),
        }
    } else {
        match error_code {
            Some(e) => {
                if string_eq_str(&e, "authorization_pending") {
                    Ok(DevicePollResult::Pending)
                } else if string_eq_str(&e, "slow_down") {
                    Ok(DevicePollResult::SlowDown)
                } else if string_eq_str(&e, "expired_token") {
                    Ok(DevicePollResult::Expired)
                } else if string_eq_str(&e, "access_denied") {
                    Ok(DevicePollResult::Denied)
                } else {
                    Err(AuthError::DeviceAuthError(e))
                }
            },
            None => Err(AuthError::BackendRejected(status, body)),
        }
    }
}

/// What a client-registration answer means: a failure is a rejection with
/// its status and body, and a success must carry a readable registration.
pub fn interpret_registration(
    status: u16,
    parsed: Option<ClientRegistration>,
    body: String,
) -> (r: Result<ClientRegistration, AuthError>)
    ensures
        !is_success_status(status) ==> (r matches Err(AuthError::BackendRejected(s, b)) && s
            == status && b@ == body@),
        is_success_status(status) ==> match parsed {
            Some(reg) => r matches Ok(rr) && rr == reg,
            None => r matches Err(AuthError::ParseError(_)),
        },
{
    if !status_is_success(status) {
        return Err(AuthError::BackendRejected(status, body));
    }
    match parsed {
        Some(reg) => Ok(reg),
        None => Err(AuthError::ParseError(String::from_str("unreadable registration response"))),
    }
}

/// What a device-authorization answer means: a failure is a rejection with
/// its status and body, and a success must carry a readable authorization.
pub fn interpret_device_auth_start(
    status: u16,
    parsed: Option<DeviceAuthorizationResponse>,
    body: String,
) -> (r: Result<DeviceAuthorizationResponse, AuthError>)
    ensures
        !is_success_status(status) ==> (r matches Err(AuthError::BackendRejected(s, b)) && s
            == status && b@ == body@),
        is_success_status(status) ==> match parsed {
            Some(auth) => r matches Ok(ra) && ra == auth,
            None => r matches Err(AuthError::ParseError(_)),
        },
{
    if !status_is_success(status) {
        return Err(AuthError::BackendRejected(status, body));
    }
    match parsed {
        Some(auth) => Ok(auth),
        None => Err(
            AuthError::ParseError(String::from_str("unreadable device authorization response")),
        ),
    }
}

/// What a token-endpoint answer to a refresh means: 401 marks the refresh
/// token itself invalid, any other failure is a rejection, and a success
/// must carry a readable token set.
pub fn interpret_sso_refresh(status: u16, token: Option<TokenResponse>, body: String) -> (r: Result<
    TokenResponse,
    AuthError,
>)
    ensures
        status == 401 ==> r matches Err(AuthError::TokenExpiredOrInvalid),
        !is_success_status(status) && status != 401 ==> (r matches Err(
            AuthError::BackendRejected(s, b),
        ) && s == status && b@ == body@),
        is_success_status(status) ==> match token {
            Some(t) => r matches Ok(rt) && rt == t,
            None => r matches Err(AuthError::ParseError(_)),
        },
{
    if status == 401 {
        return Err(AuthError::TokenExpiredOrInvalid);
    }
    if !status_is_success(status) {
        return Err(AuthError::BackendRejected(status, body));
    }
    match token {
        Some(t) => Ok(t),
        None => Err(AuthError::ParseError(String::from_str("unreadable token response"))),
    }
}

} // verus!
