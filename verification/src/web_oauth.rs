//! The binary-RPC web-portal flow.
//!
//! Two phases, because the browser redirect happens out of process: initiate
//! asks the portal for an authorization URL; complete exchanges the code that
//! arrived on the caller-supplied callback URL. Session material arrives
//! partly in the structured response body and partly in session cookies; when
//! both carry an access token, the body's value is authoritative. The binary
//! encoding of the request and response bodies, and the transport, live
//! outside the crate.

use crate::base::AuthProvider;
use crate::base::AuthResult;
use crate::clock::expires_at_spec;
use crate::errors::AuthError;
use crate::idc::lemma_method_tags_distinct;
use crate::pkce::code_challenge_spec;
use crate::pkce::generate_code_challenge;
use crate::pkce::generate_code_verifier;
use crate::pkce::is_b64url_text;
use crate::pkce::new_uuid;
use crate::sso::is_success_status;
use crate::sso::status_is_success;
use crate::util::string_eq_str;
use vstd::prelude::*;

verus! {

/// The fixed portal endpoint.
pub open spec fn web_portal_endpoint_spec() -> Seq<char> {
    "https://app.kiro.dev"@
}

/// The fixed redirect target the portal sends the browser back to.
pub open spec fn web_redirect_uri_spec() -> Seq<char> {
    "https://app.kiro.dev/signin/oauth"@
}

/// An initiate answer: the authorization URL to drive the browser to.
#[derive(Debug, Clone)]
pub struct InitiateLoginResponse {
    pub redirect_url: Option<String>,
}

/// The structured part of an exchange answer.
#[derive(Debug, Clone)]
pub struct ExchangeTokenCborResponse {
    pub access_token: Option<String>,
    pub csrf_token: Option<String>,
    pub expires_in: Option<i64>,
    pub profile_arn: Option<String>,
}

/// An exchange answer with the body and the session cookies merged.
#[derive(Debug, Clone)]
pub struct ExchangeTokenResult {
    /// From the body when it carried one, else from the cookie.
    pub access_token: Option<String>,
    pub csrf_token: Option<String>,
    pub expires_in: Option<i64>,
    pub profile_arn: Option<String>,
    /// The session cookie the portal set.
    pub session_token: Option<String>,
    /// The identity-provider cookie the portal set.
    pub idp: Option<String>,
}

/// A refresh answer of the portal.
#[derive(Debug, Clone)]
pub struct RefreshTokenResponse {
    pub access_token: Option<String>,
    pub csrf_token: Option<String>,
    pub expires_in: Option<i64>,
    pub profile_arn: Option<String>,
}

/// The subscription block of a portal usage answer.
#[derive(Debug, Clone)]
pub struct SubscriptionInfo {
    pub subscription_type: Option<String>,
    pub subscription_title: Option<String>,
}

/// A portal user-info answer; the feature flags are kept verbatim.
#[derive(Debug, Clone)]
pub struct GetUserInfoResponse {
    pub email: Option<String>,
    pub user_id: Option<String>,
    pub idp: Option<String>,
    pub status: Option<String>,
    pub feature_flags: Option<String>,
}

/// What the flows read out of a portal usage answer, beside the raw
/// document, which is stored verbatim.
#[derive(Debug, Clone)]
pub struct UserUsageSummary {
    pub email: Option<String>,
    pub user_id: Option<String>,
    pub subscription_info: Option<SubscriptionInfo>,
    pub raw: String,
}

/// The body of an initiate call.
#[derive(Debug, Clone)]
pub struct InitiateLoginRequest {
    pub idp: String,
    pub redirect_uri: String,
    pub code_challenge: String,
    pub code_challenge_method: String,
    pub state: String,
}

/// The body of an exchange call.
#[derive(Debug, Clone)]
pub struct ExchangeTokenRequest {
    pub idp: String,
    pub code: String,
    pub code_verifier: String,
    pub redirect_uri: String,
    /// The state as it arrived on the redirect — the backend may have
    /// re-encoded the one this crate generated, so the returned value is the
    /// one to send.
    pub state: String,
}

/// The body of a refresh call; the same token also travels in a header.
#[derive(Debug, Clone)]
pub struct RefreshTokenRequest {
    pub csrf_token: String,
}

/// The portal client.
pub struct KiroWebPortalClient {
    pub endpoint: String,
}

impl KiroWebPortalClient {
    /// A client of the fixed endpoint.
    pub fn new() -> (r: KiroWebPortalClient)
        ensures
            r.endpoint@ == web_portal_endpoint_spec(),
    {
        KiroWebPortalClient { endpoint: String::from_str("https://app.kiro.dev") }
    }

    /// The URL of one named portal operation.
    pub fn operation_url(&self, name: &str) -> (r: String)
        ensures
            r@ == self.endpoint@ + "/service/KiroWebPortalService/operation/"@ + name@,
    {
        let mut url = self.endpoint.clone();
        url.append("/service/KiroWebPortalService/operation/");
        url.append(name);
        url
    }

    /// The body of an initiate call for this identity provider and login.
    pub fn build_initiate_request(&self, idp: &str, code_challenge: &str, state: &str) -> (r:
        InitiateLoginRequest)
        ensures
            r.idp@ == idp@,
            r.redirect_uri@ == web_redirect_uri_spec(),
            r.code_challenge@ == code_challenge@,
            r.code_challenge_method@ == "S256"@,
            r.state@ == state@,
    {
        InitiateLoginRequest {
            idp: idp.to_owned(),
            redirect_uri: String::from_str("https://app.kiro.dev/signin/oauth"),
            code_challenge: code_challenge.to_owned(),
            code_challenge_method: String::from_str("S256"),
            state: state.to_owned(),
        }
    }

    /// The body of an exchange call: the callback's code, this login's
    /// verifier, the fixed redirect target, and the state as returned.
    pub fn build_exchange_request(
        &self,
        idp: &str,
        code: &str,
        code_verifier: &str,
        returned_state: &str,
    ) -> (r: ExchangeTokenRequest)
        ensures
            r.idp@ == idp@,
            r.code@ == code@,
            r.code_verifier@ == code_verifier@,
            r.redirect_uri@ == web_redirect_uri_spec(),
            r.state@ == returned_state@,
    {
        ExchangeTokenRequest {
            idp: idp.to_owned(),
            code: code.to_owned(),
            code_verifier: code_verifier.to_owned(),
            redirect_uri: String::from_str("https://app.kiro.dev/signin/oauth"),
            state: returned_state.to_owned(),
        }
    }

    /// The cookie line a session call sends: the access token, the session
    /// token, and the identity provider.
    pub fn build_cookie_header(&self, access_token: &str, session_token: &str, idp: &str) -> (r:
        String)
        ensures
            r@ == "AccessToken="@ + access_token@ + "; RefreshToken="@ + session_token@ + "; Idp="@
                + idp@,
    {
        let mut line = String::from_str("AccessToken=");
        line.append(access_token);
        line.append("; RefreshToken=");
        line.append(session_token);
        line.append("; Idp=");
        line.append(idp);
        line
    }
}

/// What cookie's `Cookie::parse` makes of one `Set-Cookie` line: its name and
/// value, depending on the line alone.
pub uninterp spec fn cookie_of(s: Seq<char>) -> Option<(Seq<char>, Seq<char>)>;

/// Relies on cookie's `Cookie::parse`.
#[verifier::external_body]
fn parse_set_cookie(s: &str) -> (r: Option<(String, String)>)
    ensures
        match r {
            Some(pair) => cookie_of(s@) == Some((pair.0@, pair.1@)),
            None => cookie_of(s@) is None,
        },
{
    match cookie::Cookie::parse(s) {
        Ok(c) => Some((c.name().to_string(), c.value().to_string())),
        Err(_) => None,
    }
}

/// The value of the last `Set-Cookie` line that parses to this name.
pub open spec fn cookie_value_from(headers: Seq<Seq<char>>, name: Seq<char>) -> Option<Seq<char>>
    decreases headers.len(),
{
    if headers.len() == 0 {
        None
    } else {
        match cookie_of(headers.last()) {
            Some(pair) => if pair.0 == name {
                Some(pair.1)
            } else {
                cookie_value_from(headers.drop_last(), name)
            },
            None => cookie_value_from(headers.drop_last(), name),
        }
    }
}

/// The views of a list of header lines.
pub open spec fn headers_view(headers: Seq<String>) -> Seq<Seq<char>> {
    headers.map_values(|h: String| h@)
}

/// The three session cookies of an exchange answer.
#[derive(Debug, Clone)]
pub struct CookieTokens {
    pub session_token: Option<String>,
    pub access_token: Option<String>,
    pub idp: Option<String>,
}

/// Read the session cookies out of the `Set-Cookie` lines of an exchange
/// answer; for a repeated cookie the last line wins.
pub fn extract_session_cookies(headers: &Vec<String>) -> (r: CookieTokens)
    ensures
        opt_view(r.session_token) == cookie_value_from(headers_view(headers@), "RefreshToken"@),
        opt_view(r.access_token) == cookie_value_from(headers_view(headers@), "AccessToken"@),
        opt_view(r.idp) == cookie_value_from(headers_view(headers@), "Idp"@),
{
    let ghost hv = headers_view(headers@);
    let mut session_token: Option<String> = None;
    let mut access_token: Option<String> = None;
    let mut idp: Option<String> = None;
    let n = headers.len();
    proof {
        assert(hv.take(0) =~= Seq::<Seq<char>>::empty());
        lemma_cookie_names_distinct();
    }
    for i in 0..n
        invariant
            n == headers@.len(),
            hv == headers_view(headers@),
            hv.len() == n,
            forall|j: int| 0 <= j < n ==> #[trigger] hv[j] == headers@[j]@,
            opt_view(session_token) == cookie_value_from(hv.take(i as int), "RefreshToken"@),
            opt_view(access_token) == cookie_value_from(hv.take(i as int), "AccessToken"@),
            opt_view(idp) == cookie_value_from(hv.take(i as int), "Idp"@),
    {
        proof {
            lemma_cookie_names_distinct();
            assert(hv.take(i + 1).drop_last() =~= hv.take(i as int));
            assert(hv.take(i + 1).last() == hv[i as int]);
        }
        if let Some(pair) = parse_set_cookie(headers[i].as_str()) {
            if string_eq_str(&pair.0, "RefreshToken") {
                session_token = Some(pair.1);
            } else if string_eq_str(&pair.0, "AccessToken") {
                access_token = Some(pair.1);
            } else if string_eq_str(&pair.0, "Idp") {
                idp = Some(pair.1);
            }
        }
    }
    proof {
        assert(hv.take(n as int) =~= hv);
    }
    CookieTokens { session_token, access_token, idp }
}

/// The three cookie names are pairwise distinct strings.
proof fn lemma_cookie_names_distinct()
    ensures
        "RefreshToken"@ != "AccessToken"@,
        "RefreshToken"@ != "Idp"@,
        "AccessToken"@ != "Idp"@,
{
    reveal_strlit("RefreshToken");
    reveal_strlit("AccessToken");
    reveal_strlit("Idp");
    assert("RefreshToken"@.len() == 12);
    assert("AccessToken"@.len() == 11);
    assert("Idp"@.len() == 3);
}

/// The view of an optional string.
pub open spec fn opt_view(o: Option<String>) -> Option<Seq<char>> {
    match o {
        Some(s) => Some(s@),
        None => None,
    }
}

/// Merge an exchange body with the session cookies. The body's access token
/// is authoritative: the cookie's value is used only when the body carried
/// none. Everything else structured comes from the body, and the session and
/// identity-provider cookies come from the cookies.
pub fn merge_exchange_result(body: ExchangeTokenCborResponse, cookies: CookieTokens) -> (r:
    ExchangeTokenResult)
    ensures
        r.access_token == match body.access_token {
            Some(t) => Some(t),
            None => cookies.access_token,
        },
        r.csrf_token == body.csrf_token,
        r.expires_in == body.expires_in,
        r.profile_arn == body.profile_arn,
        r.session_token == cookies.session_token,
        r.idp == cookies.idp,
{
    let access_token = match body.access_token {
        Some(t) => Some(t),
        None => cookies.access_token,
    };
    ExchangeTokenResult {
        access_token,
        csrf_token: body.csrf_token,
        expires_in: body.expires_in,
        profile_arn: body.profile_arn,
        session_token: cookies.session_token,
        idp: cookies.idp,
    }
}

/// When both the body and the cookie carry an access token, the merged
/// result carries the body's, never the cookie's.
pub proof fn lemma_body_token_precedence(
    body: ExchangeTokenCborResponse,
    cookies: CookieTokens,
    r: ExchangeTokenResult,
)
    requires
        body.access_token is Some,
        r.access_token == match body.access_token {
            Some(t) => Some::<String>(t),
            None => cookies.access_token,
        },
    ensures
        r.access_token == body.access_token,
{
}

/// A sequence occurs somewhere inside another.
pub open spec fn seq_contains(haystack: Seq<char>, needle: Seq<char>) -> bool {
    exists|i: int|
        0 <= i <= haystack.len() - needle.len() && #[trigger] haystack.subrange(
            i,
            i + needle.len(),
        ) == needle
}

/// Whether `needle` occurs inside `haystack`, decided character by
/// character.
pub fn str_contains(haystack: &str, needle: &str) -> (r: bool)
    ensures
        r == seq_contains(haystack@, needle@),
{
    let h_len = haystack.unicode_len();
    let n_len = needle.unicode_len();
    if n_len > h_len {
        proof {
            if seq_contains(haystack@, needle@) {
                let i = choose|i: int|
                    0 <= i <= haystack@.len() - needle@.len() && #[trigger] haystack@.subrange(
                        i,
                        i + needle@.len(),
                    ) == needle@;
            }
        }
        return false;
    }
    let mut start: usize = 0;
    while start <= h_len - n_len
        invariant
            h_len == haystack@.len(),
            n_len == needle@.len(),
            n_len <= h_len,
            start <= h_len - n_len + 1,
            forall|i: int|
                0 <= i < start ==> #[trigger] haystack@.subrange(i, i + needle@.len()) != needle@,
        decreases h_len - n_len - start + 1,
    {
        let mut j: usize = 0;
        let mut matched = true;
        while j < n_len
            invariant
                h_len == haystack@.len(),
                n_len == needle@.len(),
                start + n_len <= h_len,
                j <= n_len,
                matched ==> forall|k: int|
                    0 <= k < j ==> haystack@[start + k] == needle@[k],
                !matched ==> exists|k: int|
                    0 <= k < n_len && haystack@[start + k] != needle@[k],
            decreases n_len - j,
        {
            let hc = haystack.get_char(start + j);
            let nc = needle.get_char(j);
            if hc != nc {
                matched = false;
                proof {
                    assert(haystack@[start + j] != needle@[j as int]);
                }
                j = n_len;
            } else {
                j = j + 1;
            }
        }
        if matched {
            proof {
                assert(haystack@.subrange(start as int, start + needle@.len()) =~= needle@);
            }
            return true;
        }
        proof {
            let k = choose|k: int| 0 <= k < n_len && haystack@[start + k] != needle@[k];
            assert(haystack@.subrange(start as int, start + needle@.len())[k] == haystack@[start
                + k]);
            assert(haystack@.subrange(start as int, start + needle@.len()) != needle@);
        }
        start = start + 1;
    }
    proof {
        if seq_contains(haystack@, needle@) {
            let i = choose|i: int|
                0 <= i <= haystack@.len() - needle@.len() && #[trigger] haystack@.subrange(
                    i,
                    i + needle@.len(),
                ) == needle@;
        }
    }
    false
}

/// Whether a failure marks the account suspended: a locked status, or the
/// suspension marker anywhere in the error text.
pub open spec fn is_suspension_signal(status: u16, error_text: Seq<char>) -> bool {
    status == 423 || seq_contains(error_text, "AccountSuspendedException"@)
}

/// Classify a failed portal call: the suspension signal maps to the distinct
/// suspended error, so the caller can mark the account rather than merely
/// log; anything else is a rejection with its status and text.
pub fn classify_portal_failure(status: u16, error_text: String) -> (r: AuthError)
    ensures
        is_suspension_signal(status, error_text@) ==> r matches AuthError::AccountSuspended(_),
        !is_suspension_signal(status, error_text@) ==> (r matches AuthError::BackendRejected(
            s,
            b,
        ) && s == status && b@ == error_text@),
{
    if status == 423 {
        return AuthError::AccountSuspended(error_text);
    }
    if str_contains(error_text.as_str(), "AccountSuspendedException") {
        return AuthError::AccountSuspended(error_text);
    }
    AuthError::BackendRejected(status, error_text)
}

/// What an initiate answer means: a failure is a rejection, and a success
/// must carry the authorization URL.
pub fn interpret_initiate_response(
    status: u16,
    parsed: Option<InitiateLoginResponse>,
    body: String,
) -> (r: Result<String, AuthError>)
    ensures
        !is_success_status(status) ==> (r matches Err(AuthError::BackendRejected(s, b)) && s
            == status && b@ == body@),
        is_success_status(status) ==> match parsed {
            Some(resp) => match resp.redirect_url {
                Some(url) => r matches Ok(u) && u == url,
                None => r matches Err(AuthError::IncompleteExchange(f)) && f@ == "redirectUrl"@,
            },
            None => r matches Err(AuthError::ParseError(_)),
        },
{
    if !status_is_success(status) {
        return Err(AuthError::BackendRejected(status, body));
    }
    match parsed {
        Some(resp) => match resp.redirect_url {
            Some(url) => Ok(url),
            None => Err(AuthError::IncompleteExchange(String::from_str("redirectUrl"))),
        },
        None => Err(AuthError::ParseError(String::from_str("unreadable initiate response"))),
    }
}

/// What an exchange answer means: a failure is a rejection, and a success
/// must have a readable body, which is then merged with the session cookies.
pub fn interpret_exchange_response(
    status: u16,
    parsed: Option<ExchangeTokenCborResponse>,
    cookies: CookieTokens,
    body_text: String,
) -> (r: Result<ExchangeTokenResult, AuthError>)
    ensures
        !is_success_status(status) ==> (r matches Err(AuthError::BackendRejected(s, b)) && s
            == status && b@ == body_text@),
        is_success_status(status) ==> match parsed {
            Some(resp) => r matches Ok(merged) && merged.access_token == (match resp.access_token {
                Some(t) => Some(t),
                None => cookies.access_token,
            }) && merged.csrf_token == resp.csrf_token && merged.expires_in == resp.expires_in
                && merged.profile_arn == resp.profile_arn && merged.session_token
                == cookies.session_token && merged.idp == cookies.idp,
            None => r matches Err(AuthError::ParseError(_)),
        },
{
    if !status_is_success(status) {
        return Err(AuthError::BackendRejected(status, body_text));
    }
    match parsed {
        Some(resp) => Ok(merge_exchange_result(resp, cookies)),
        None => Err(AuthError::ParseError(String::from_str("unreadable exchange response"))),
    }
}

/// What a portal refresh answer means: the suspension signal is kept
/// distinct, any other failure is a rejection, and a success must be
/// readable.
pub fn interpret_refresh_response(
    status: u16,
    parsed: Option<RefreshTokenResponse>,
    body_text: String,
) -> (r: Result<RefreshTokenResponse, AuthError>)
    ensures
        !is_success_status(status) && is_suspension_signal(status, body_text@) ==> r matches Err(
            AuthError::AccountSuspended(_),
        ),
        !is_success_status(status) && !is_suspension_signal(status, body_text@) ==> (r matches Err(
            AuthError::BackendRejected(s, b),
        ) && s == status && b@ == body_text@),
        is_success_status(status) ==> match parsed {
            Some(resp) => r matches Ok(rr) && rr == resp,
            None => r matches Err(AuthError::ParseError(_)),
        },
{
    if !status_is_success(status) {
        return Err(classify_portal_failure(status, body_text));
    }
    match parsed {
        Some(resp) => Ok(resp),
        None => Err(AuthError::ParseError(String::from_str("unreadable refresh response"))),
    }
}

/// What a portal user-info answer means, classified like a refresh.
pub fn interpret_user_info_response(
    status: u16,
    parsed: Option<GetUserInfoResponse>,
    body_text: String,
) -> (r: Result<GetUserInfoResponse, AuthError>)
    ensures
        !is_success_status(status) && is_suspension_signal(status, body_text@) ==> r matches Err(
            AuthError::AccountSuspended(_),
        ),
        !is_success_status(status) && !is_suspension_signal(status, body_text@) ==> (r matches Err(
            AuthError::BackendRejected(s, b),
        ) && s == status && b@ == body_text@),
        is_success_status(status) ==> match parsed {
            Some(resp) => r matches Ok(ri) && ri == resp,
            None => r matches Err(AuthError::ParseError(_)),
        },
{
    if !status_is_success(status) {
        return Err(classify_portal_failure(status, body_text));
    }
    match parsed {
        Some(resp) => Ok(resp),
        None => Err(AuthError::ParseError(String::from_str("unreadable user info response"))),
    }
}

/// What a portal usage answer means, classified like a refresh.
pub fn interpret_portal_usage(
    status: u16,
    parsed: Option<UserUsageSummary>,
    body_text: String,
) -> (r: Result<UserUsageSummary, AuthError>)
    ensures
        !is_success_status(status) && is_suspension_signal(status, body_text@) ==> r matches Err(
            AuthError::AccountSuspended(_),
        ),
        !is_success_status(status) && !is_suspension_signal(status, body_text@) ==> (r matches Err(
            AuthError::BackendRejected(s, b),
        ) && s == status && b@ == body_text@),
        is_success_status(status) ==> match parsed {
            Some(resp) => r matches Ok(ru) && ru == resp,
            None => r matches Err(AuthError::ParseError(_)),
        },
{
    if !status_is_success(status) {
        return Err(classify_portal_failure(status, body_text));
    }
    match parsed {
        Some(resp) => Ok(resp),
        None => Err(AuthError::ParseError(String::from_str("unreadable usage response"))),
    }
}

/// The two-phase portal provider.
pub struct WebOAuthProvider {
    pub provider_id: String,
}

impl WebOAuthProvider {
    /// A provider for this identifier.
    pub fn new(provider_id: &str) -> (r: WebOAuthProvider)
        ensures
            r.provider_id@ == provider_id@,
    {
        WebOAuthProvider { provider_id: provider_id.to_owned() }
    }

    /// The identity-provider name the portal calls use; the known providers
    /// keep their own names.
    pub fn get_idp_name(&self) -> (r: &str)
        ensures
            r@ == self.provider_id@,
    {
        self.provider_id.as_str()
    }
}

impl AuthProvider for WebOAuthProvider {
    open spec fn provider_id_spec(&self) -> Seq<char> {
        self.provider_id@
    }

    open spec fn auth_method_spec(&self) -> Seq<char> {
        "web_oauth"@
    }

    fn get_provider_id(&self) -> (r: &str)
        ensures
            r@ == self.provider_id_spec(),
    {
        self.provider_id.as_str()
    }

    fn get_auth_method(&self) -> (r: &str)
        ensures
            r@ == self.auth_method_spec(),
    {
        "web_oauth"
    }
}

/// What an initiate phase hands the caller: the authorization URL to drive a
/// browser to, and everything the complete phase will need back.
#[derive(Debug, Clone)]
pub struct WebOAuthInitResult {
    pub authorize_url: String,
    pub state: String,
    pub code_verifier: String,
    pub redirect_uri: String,
    pub idp: String,
    pub provider_id: String,
}

impl WebOAuthProvider {
    /// Start the initiate phase: generate the state and the PKCE pair and
    /// build the initiate request.
    pub fn begin_initiate(&self, client: &KiroWebPortalClient) -> (r: (
        InitiateLoginRequest,
        String,
        String,
    ))
        ensures
            r.0.idp@ == self.provider_id@,
            r.0.redirect_uri@ == web_redirect_uri_spec(),
            r.0.code_challenge@ == code_challenge_spec(r.2@),
            is_b64url_text(r.0.code_challenge@),
            r.0.code_challenge_method@ == "S256"@,
            r.0.state@ == r.1@,
            r.1@.len() == 36,
            r.2@.len() == 43,
            is_b64url_text(r.2@),
    {
        let state = new_uuid();
        let code_verifier = generate_code_verifier();
        let code_challenge = generate_code_challenge(code_verifier.as_str());
        let request = client.build_initiate_request(
            self.get_idp_name(),
            code_challenge.as_str(),
            state.as_str(),
        );
        (request, state, code_verifier)
    }

    /// Finish the initiate phase once the portal returned the authorization
    /// URL: package what the complete phase needs.
    pub fn finish_initiate(&self, authorize_url: String, state: String, code_verifier: String) -> (
        r: WebOAuthInitResult)
        ensures
            r.authorize_url == authorize_url,
            r.state == state,
            r.code_verifier == code_verifier,
            r.redirect_uri@ == web_redirect_uri_spec(),
            r.idp@ == self.provider_id@,
            r.provider_id@ == self.provider_id@,
    {
        WebOAuthInitResult {
            authorize_url,
            state,
            code_verifier,
            redirect_uri: String::from_str("https://app.kiro.dev/signin/oauth"),
            idp: self.provider_id.clone(),
            provider_id: self.provider_id.clone(),
        }
    }

    /// Assemble the normalized result of a completed exchange at `now`.
    ///
    /// The access and csrf tokens are required even after merging body and
    /// cookies, and the session cookie is required because it is what later
    /// refreshes send: each missing one is a distinct incomplete-exchange
    /// failure. A missing lifetime defaults to one hour.
    pub fn complete_login_result(&self, merged: ExchangeTokenResult, now: i64) -> (r: Result<
        AuthResult,
        AuthError,
    >)
        requires
            i64::MIN <= now + (match merged.expires_in {
                Some(e) => e as int,
                None => 3600,
            }) <= i64::MAX,
        ensures
            merged.access_token is None ==> (r matches Err(AuthError::IncompleteExchange(f)) && f@
                == "accessToken"@),
            merged.access_token is Some && merged.csrf_token is None ==> (r matches Err(
                AuthError::IncompleteExchange(f),
            ) && f@ == "csrfToken"@),
            merged.access_token is Some && merged.csrf_token is Some && merged.session_token
                is None ==> (r matches Err(AuthError::IncompleteExchange(f)) && f@
                == "sessionCookie"@),
            merged.access_token is Some && merged.csrf_token is Some && merged.session_token
                is Some ==> (r matches Ok(a) && {
                let expires_in = match merged.expires_in {
                    Some(e) => e as int,
                    None => 3600,
                };
                &&& a.access_token == merged.access_token.unwrap()
                &&& a.refresh_token == merged.session_token.unwrap()
                &&& a.expires_in == expires_in
                &&& a.expires_at == now + expires_in
                &&& a.provider@ == self.provider_id@
                &&& a.auth_method@ == "web_oauth"@
                &&& a.csrf_token == merged.csrf_token
                &&& a.profile_arn == merged.profile_arn
                &&& a.session_token is None
                &&& a.device_group_empty()
                &&& a.wf()
            }),
    {
        let access_token = match merged.access_token {
            Some(t) => t,
            None => {
                return Err(AuthError::IncompleteExchange(String::from_str("accessToken")));
            },
        };
        let csrf_token = match merged.csrf_token {
            Some(t) => t,
            None => {
                return Err(AuthError::IncompleteExchange(String::from_str("csrfToken")));
            },
        };
        let session_token = match merged.session_token {
            Some(t) => t,
            None => {
                return Err(AuthError::IncompleteExchange(String::from_str("sessionCookie")));
            },
        };
        let expires_in: i64 = match merged.expires_in {
            Some(e) => e,
            None => 3600,
        };
        let a = AuthResult {
            access_token,
            refresh_token: session_token,
            expires_at: now + expires_in,
            expires_in,
            provider: self.provider_id.clone(),
            auth_method: String::from_str("web_oauth"),
            token_type: Some(String::from_str("Bearer")),
            id_token: None,
            region: None,
            client_id: None,
            client_secret: None,
            client_id_hash: None,
            sso_session_id: None,
            profile_arn: merged.profile_arn,
            csrf_token: Some(csrf_token),
            session_token: None,
        };
        proof {
            lemma_method_tags_distinct();
        }
        Ok(a)
    }

    /// Assemble the normalized result of a completed portal refresh at
    /// `now`. The refreshed access and csrf tokens are required; the new
    /// csrf token also stands in the refresh-token field, since it is what a
    /// later refresh presents. A missing lifetime defaults to one hour.
    pub fn refresh_result(&self, response: RefreshTokenResponse, now: i64) -> (r: Result<
        AuthResult,
        AuthError,
    >)
        requires
            i64::MIN <= now + (match response.expires_in {
                Some(e) => e as int,
                None => 3600,
            }) <= i64::MAX,
        ensures
            response.access_token is None ==> (r matches Err(AuthError::IncompleteExchange(f))
                && f@ == "accessToken"@),
            response.access_token is Some && response.csrf_token is None ==> (r matches Err(
                AuthError::IncompleteExchange(f),
            ) && f@ == "csrfToken"@),
            response.access_token is Some && response.csrf_token is Some ==> (r matches Ok(a) && {
                let expires_in = match response.expires_in {
                    Some(e) => e as int,
                    None => 3600,
                };
                &&& a.access_token == response.access_token.unwrap()
                &&& a.refresh_token@ == response.csrf_token.unwrap()@
                &&& a.csrf_token matches Some(c) && c@ == response.csrf_token.unwrap()@
                &&& a.expires_in == expires_in
                &&& a.expires_at == now + expires_in
                &&& a.provider@ == self.provider_id@
                &&& a.auth_method@ == "web_oauth"@
                &&& a.profile_arn == response.profile_arn
                &&& a.session_token is None
                &&& a.device_group_empty()
                &&& a.wf()
            }),
    {
        let access_token = match response.access_token {
            Some(t) => t,
            None => {
                return Err(AuthError::IncompleteExchange(String::from_str("accessToken")));
            },
        };
        let csrf_token = match response.csrf_token {
            Some(t) => t,
            None => {
                return Err(AuthError::IncompleteExchange(String::from_str("csrfToken")));
            },
        };
        let expires_in: i64 = match response.expires_in {
            Some(e) => e,
            None => 3600,
        };
        let a = AuthResult {
            access_token,
            refresh_token: csrf_token.clone(),
            expires_at: now + expires_in,
            expires_in,
            provider: self.provider_id.clone(),
            auth_method: String::from_str("web_oauth"),
            token_type: Some(String::from_str("Bearer")),
            id_token: None,
            region: None,
            client_id: None,
            client_secret: None,
            client_id_hash: None,
            sso_session_id: None,
            profile_arn: response.profile_arn,
            csrf_token: Some(csrf_token),
            session_token: None,
        };
        proof {
            lemma_method_tags_distinct();
        }
        Ok(a)
    }
}

} // verus!
