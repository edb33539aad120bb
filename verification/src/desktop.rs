//! The desktop auth backend: the browser login redirect, the code-for-token
//! exchange, the refresh call, and the quota lookup beside them.
//!
//! This module decides which URL each call uses, what the request carries,
//! what every answer means, and how transient network failures are retried —
//! up to three attempts with a fixed one-second backoff. The transport lives
//! outside the crate.

use crate::errors::AuthError;
use crate::sso::is_success_status;
use crate::sso::status_is_success;
use vstd::prelude::*;

verus! {

/// The fixed endpoint of the desktop auth backend.
pub open spec fn desktop_auth_endpoint_spec() -> Seq<char> {
    "https://prod.us-east-1.auth.desktop.kiro.dev"@
}

/// What urlencoding's `encode` makes of a string: percent-encoding depends on
/// the text alone.
pub uninterp spec fn urlenc_of(s: Seq<char>) -> Seq<char>;

/// Relies on urlencoding's `encode`.
#[verifier::external_body]
fn url_encode(s: &str) -> (r: String)
    ensures
        r@ == urlenc_of(s@),
{
    urlencoding::encode(s).into_owned()
}

/// A refresh answer of the desktop backend.
#[derive(Debug, Clone)]
pub struct DesktopRefreshResponse {
    pub access_token: String,
    pub refresh_token: String,
    pub expires_in: i64,
    pub profile_arn: String,
    pub csrf_token: Option<String>,
}

/// A token-exchange answer of the desktop backend.
#[derive(Debug, Clone)]
pub struct SocialTokenResponse {
    pub access_token: String,
    pub refresh_token: String,
    pub profile_arn: Option<String>,
    pub expires_in: i64,
    pub id_token: Option<String>,
    pub token_type: Option<String>,
    pub csrf_token: Option<String>,
}

/// The user block of a quota answer.
#[derive(Debug, Clone)]
pub struct DesktopUserInfo {
    pub email: Option<String>,
    pub user_id: Option<String>,
}

/// The subscription block of a quota answer.
#[derive(Debug, Clone)]
pub struct DesktopSubscriptionInfo {
    pub subscription_title: Option<String>,
    pub subscription_type: Option<String>,
    pub overage_capability: Option<String>,
    pub upgrade_capability: Option<String>,
}

/// What the flows read out of a quota answer: who the account belongs to,
/// the first usage breakdown, the subscription kind, and the raw document,
/// which is stored verbatim and never interpreted further.
#[derive(Debug, Clone)]
pub struct UsageSummary {
    pub user_info: Option<DesktopUserInfo>,
    pub usage_limit: Option<i32>,
    pub current_usage: Option<i32>,
    pub subscription_type: Option<String>,
    pub raw: String,
}

/// The client of the desktop auth backend.
pub struct KiroAuthServiceClient {
    pub endpoint: String,
}

/// The full browser login redirect: the login URL with the identity
/// provider, the percent-encoded redirect target, the PKCE challenge and its
/// method, and the state token.
pub open spec fn login_redirect_spec(
    endpoint: Seq<char>,
    provider: Seq<char>,
    redirect_uri: Seq<char>,
    code_challenge: Seq<char>,
    state: Seq<char>,
) -> Seq<char> {
    endpoint + "/login?idp="@ + provider + "&redirect_uri="@ + urlenc_of(redirect_uri)
        + "&code_challenge="@ + code_challenge + "&code_challenge_method=S256&state="@ + state
}

impl KiroAuthServiceClient {
    /// A client of the fixed endpoint.
    pub fn new() -> (r: KiroAuthServiceClient)
        ensures
            r.endpoint@ == desktop_auth_endpoint_spec(),
    {
        KiroAuthServiceClient {
            endpoint: String::from_str("https://prod.us-east-1.auth.desktop.kiro.dev"),
        }
    }

    /// The browser login URL.
    pub fn login_url(&self) -> (r: String)
        ensures
            r@ == self.endpoint@ + "/login"@,
    {
        let mut url = self.endpoint.clone();
        url.append("/login");
        url
    }

    /// The code-for-token exchange URL.
    pub fn create_token_url(&self) -> (r: String)
        ensures
            r@ == self.endpoint@ + "/oauth/token"@,
    {
        let mut url = self.endpoint.clone();
        url.append("/oauth/token");
        url
    }

    /// The refresh URL.
    pub fn refresh_token_url(&self) -> (r: String)
        ensures
            r@ == self.endpoint@ + "/refreshToken"@,
    {
        let mut url = self.endpoint.clone();
        url.append("/refreshToken");
        url
    }

    /// Build the full browser redirect for a login.
    pub fn build_login_redirect(
        &self,
        provider: &str,
        redirect_uri: &str,
        code_challenge: &str,
        state: &str,
    ) -> (r: String)
        ensures
            r@ == login_redirect_spec(
                self.endpoint@,
                provider@,
                redirect_uri@,
                code_challenge@,
                state@,
            ),
    {
        let mut url = self.endpoint.clone();
        url.append("/login?idp=");
        url.append(provider);
        url.append("&redirect_uri=");
        let encoded = url_encode(redirect_uri);
        url.append(encoded.as_str());
        url.append("&code_challenge=");
        url.append(code_challenge);
        url.append("&code_challenge_method=S256&state=");
        url.append(state);
        url
    }
}

/// The fixed endpoint of the desktop quota backend.
pub open spec fn desktop_usage_endpoint_spec() -> Seq<char> {
    "https://codewhisperer.us-east-1.amazonaws.com"@
}

/// The profile the desktop quota lookup charges against.
pub open spec fn desktop_profile_arn_spec() -> Seq<char> {
    "arn:aws:codewhisperer:us-east-1:699475941385:profile/EHGA3GRVQMUK"@
}

/// The desktop quota lookup URL: the fixed endpoint, the fixed query, and
/// the percent-encoded profile.
pub fn desktop_usage_url() -> (r: String)
    ensures
        r@ == desktop_usage_endpoint_spec()
            + "/getUsageLimits?isEmailRequired=true&origin=AI_EDITOR&profileArn="@ + urlenc_of(
            desktop_profile_arn_spec(),
        ),
{
    let mut url = String::from_str("https://codewhisperer.us-east-1.amazonaws.com");
    url.append("/getUsageLimits?isEmailRequired=true&origin=AI_EDITOR&profileArn=");
    let encoded = url_encode("arn:aws:codewhisperer:us-east-1:699475941385:profile/EHGA3GRVQMUK");
    url.append(encoded.as_str());
    url
}

/// The body of the code-for-token exchange.
#[derive(Debug, Clone)]
pub struct CreateTokenRequest {
    pub code: String,
    pub code_verifier: String,
    pub redirect_uri: String,
    pub invitation_code: Option<String>,
}

/// Build the exchange body from the callback's code and this login's PKCE
/// verifier and redirect target.
pub fn build_create_token_request(
    code: &str,
    code_verifier: &str,
    redirect_uri: &str,
    invitation_code: Option<String>,
) -> (r: CreateTokenRequest)
    ensures
        r.code@ == code@,
        r.code_verifier@ == code_verifier@,
        r.redirect_uri@ == redirect_uri@,
        r.invitation_code == invitation_code,
{
    CreateTokenRequest {
        code: code.to_owned(),
        code_verifier: code_verifier.to_owned(),
        redirect_uri: redirect_uri.to_owned(),
        invitation_code,
    }
}

/// What a token-exchange answer means: 401 marks the grant invalid, any
/// other failure is a rejection with its status and body, and a success must
/// carry a readable token set.
pub fn interpret_token_exchange(
    status: u16,
    parsed: Option<SocialTokenResponse>,
    body: String,
) -> (r: Result<SocialTokenResponse, AuthError>)
    ensures
        status == 401 ==> r matches Err(AuthError::TokenExpiredOrInvalid),
        !is_success_status(status) && status != 401 ==> (r matches Err(
            AuthError::BackendRejected(s, b),
        ) && s == status && b@ == body@),
        is_success_status(status) ==> match parsed {
            Some(t) => r matches Ok(rt) && rt == t,
            None => r matches Err(AuthError::ParseError(_)),
        },
{
    if status == 401 {
        return Err(AuthError::TokenExpiredOrInvalid);
    }
    if !status_is_success(status) {
        return Err(AuthError::BackendRejected(status, body));
    }
    match parsed {
        Some(t) => Ok(t),
        None => Err(AuthError::ParseError(String::from_str("unreadable token response"))),
    }
}

/// What a desktop refresh answer means: 401 marks the refresh token expired
/// or invalid, any other failure is a rejection, and a success must carry a
/// readable token set.
pub fn interpret_desktop_refresh(
    status: u16,
    parsed: Option<DesktopRefreshResponse>,
    body: String,
) -> (r: Result<DesktopRefreshResponse, AuthError>)
    ensures
        status == 401 ==> r matches Err(AuthError::TokenExpiredOrInvalid),
        !is_success_status(status) && status != 401 ==> (r matches Err(
            AuthError::BackendRejected(s, b),
        ) && s == status && b@ == body@),
        is_success_status(status) ==> match parsed {
            Some(t) => r matches Ok(rt) && rt == t,
            None => r matches Err(AuthError::ParseError(_)),
        },
{
    if status == 401 {
        return Err(AuthError::TokenExpiredOrInvalid);
    }
    if !status_is_success(status) {
        return Err(AuthError::BackendRejected(status, body));
    }
    match parsed {
        Some(t) => Ok(t),
        None => Err(AuthError::ParseError(String::from_str("unreadable refresh response"))),
    }
}

/// What a quota answer means. A failure body that names a suspension reason
/// marks the account suspended; any other failure is a rejection; a success
/// must be readable.
pub fn interpret_usage_response(
    status: u16,
    summary: Option<UsageSummary>,
    reason: Option<String>,
    body: String,
) -> (r: Result<UsageSummary, AuthError>)
    ensures
        !is_success_status(status) ==> match reason {
            Some(why) => r matches Err(AuthError::AccountSuspended(w)) && w@ == why@,
            None => r matches Err(AuthError::BackendRejected(s, b)) && s == status && b@ == body@,
        },
        is_success_status(status) ==> match summary {
            Some(u) => r matches Ok(ru) && ru == u,
            None => r matches Err(AuthError::ParseError(_)),
        },
{
    if !status_is_success(status) {
        return match reason {
            Some(why) => Err(AuthError::AccountSuspended(why)),
            None => Err(AuthError::BackendRejected(status, body)),
        };
    }
    match summary {
        Some(u) => Ok(u),
        None => Err(AuthError::ParseError(String::from_str("unreadable usage response"))),
    }
}

/// The bounded retry policy for transient network failures: after the
/// attempt numbered `attempt` (counted from zero) failed, wait the returned
/// milliseconds and try again, or give up once three attempts were made.
pub fn retry_backoff(attempt: u32) -> (r: Option<u64>)
    ensures
        attempt < 2 ==> (r matches Some(ms) && ms == 1000),
        attempt >= 2 ==> r is None,
{
    if attempt < 2 {
        Some(1000)
    } else {
        None
    }
}

} // verus!
