//! Importing a device-flow account from a portal session token.
//!
//! The import registers a fresh OIDC client, starts a device authorization,
//! and then — instead of sending the user to a browser — approves the user
//! code itself through the portal session. Polling then proceeds like the
//! ordinary device flow, with a two-minute ceiling, and the token set lands
//! in the store as a device-flow account.

use crate::errors::AuthError;
use crate::sso::is_success_status;
use crate::sso::status_is_success;
use crate::util::string_eq_str;
use vstd::prelude::*;

verus! {

/// The portal endpoint the session token authenticates against.
pub open spec fn sso_portal_endpoint_spec() -> Seq<char> {
    "https://portal.sso.us-east-1.amazonaws.com"@
}

/// What an import reports.
#[derive(Debug, Clone)]
pub struct SsoImportResult {
    pub success: bool,
    pub email: Option<String>,
    pub error: Option<String>,
}

/// The device context the user-code acceptance returns.
#[derive(Debug, Clone)]
pub struct DeviceContext {
    pub device_context_id: Option<String>,
    pub client_id: Option<String>,
    pub client_type: Option<String>,
}

/// The body of a user-code acceptance call.
#[derive(Debug, Clone)]
pub struct AcceptUserCodeRequest {
    pub user_code: String,
    pub user_session_id: String,
}

/// The body of an authorization approval call.
#[derive(Debug, Clone)]
pub struct ApproveRequest {
    pub device_context_id: String,
    pub client_id: String,
    pub client_type: String,
    pub user_session_id: String,
}

/// The identity check URL of the portal.
pub fn who_am_i_url() -> (r: String)
    ensures
        r@ == sso_portal_endpoint_spec() + "/token/whoAmI"@,
{
    let mut url = String::from_str("https://portal.sso.us-east-1.amazonaws.com");
    url.append("/token/whoAmI");
    url
}

/// The device-session URL of the portal.
pub fn device_session_url() -> (r: String)
    ensures
        r@ == sso_portal_endpoint_spec() + "/session/device"@,
{
    let mut url = String::from_str("https://portal.sso.us-east-1.amazonaws.com");
    url.append("/session/device");
    url
}

/// The user-code acceptance URL for a region's backend.
pub fn accept_user_code_url(base_url: &str) -> (r: String)
    ensures
        r@ == base_url@ + "/device_authorization/accept_user_code"@,
{
    let mut url = base_url.to_owned();
    url.append("/device_authorization/accept_user_code");
    url
}

/// The authorization approval URL for a region's backend.
pub fn associate_token_url(base_url: &str) -> (r: String)
    ensures
        r@ == base_url@ + "/device_authorization/associate_token"@,
{
    let mut url = base_url.to_owned();
    url.append("/device_authorization/associate_token");
    url
}

/// The body that accepts the user code through the portal session.
pub fn build_accept_request(user_code: &str, session_token: &str) -> (r: AcceptUserCodeRequest)
    ensures
        r.user_code@ == user_code@,
        r.user_session_id@ == session_token@,
{
    AcceptUserCodeRequest {
        user_code: user_code.to_owned(),
        user_session_id: session_token.to_owned(),
    }
}

/// The approval an accepted user code calls for: only a context with an
/// identifier is approved, the registered client fills in what the context
/// left out.
pub fn plan_approval(
    context: &Option<DeviceContext>,
    registered_client_id: &String,
    session_token: &String,
) -> (r: Option<ApproveRequest>)
    ensures
        match context {
            Some(ctx) => match ctx.device_context_id {
                Some(ctx_id) => r matches Some(req) && {
                    &&& req.device_context_id == ctx_id
                    &&& req.client_id@ == match ctx.client_id {
                        Some(cid) => cid@,
                        None => registered_client_id@,
                    }
                    &&& req.client_type@ == match ctx.client_type {
                        Some(ct) => ct@,
                        None => "public"@,
                    }
                    &&& req.user_session_id == session_token
                },
                None => r is None,
            },
            None => r is None,
        },
{
    match context {
        Some(ctx) => match &ctx.device_context_id {
            Some(ctx_id) => {
                let client_id = match &ctx.client_id {
                    Some(cid) => cid.clone(),
                    None => registered_client_id.clone(),
                };
                let client_type = match &ctx.client_type {
                    Some(ct) => ct.clone(),
                    None => String::from_str("public"),
                };
                Some(
                    ApproveRequest {
                        device_context_id: ctx_id.clone(),
                        client_id,
                        client_type,
                        user_session_id: session_token.clone(),
                    },
                )
            },
            None => None,
        },
        None => None,
    }
}

/// What a user-code acceptance returns: the device context to approve, when
/// the backend issued one.
#[derive(Debug, Clone)]
pub struct AcceptUserCodeResponse {
    pub device_context: Option<DeviceContext>,
}

/// What an identity check of the portal session means: any success confirms
/// the session, any failure is a rejection with its status and body.
pub fn interpret_whoami(status: u16, body: String) -> (r: Result<(), AuthError>)
    ensures
        is_success_status(status) <==> r is Ok,
        !is_success_status(status) ==> (r matches Err(AuthError::BackendRejected(s, b)) && s
            == status && b@ == body@),
{
    if status_is_success(status) {
        Ok(())
    } else {
        Err(AuthError::BackendRejected(status, body))
    }
}

/// What a device-session answer means: a failure is a rejection, and a
/// success must carry the session token.
pub fn interpret_device_session(status: u16, token: Option<String>, body: String) -> (r: Result<
    String,
    AuthError,
>)
    ensures
        !is_success_status(status) ==> (r matches Err(AuthError::BackendRejected(s, b)) && s
            == status && b@ == body@),
        is_success_status(status) ==> match token {
            Some(t) => r matches Ok(rt) && rt == t,
            None => r matches Err(AuthError::ParseError(_)),
        },
{
    if !status_is_success(status) {
        return Err(AuthError::BackendRejected(status, body));
    }
    match token {
        Some(t) => Ok(t),
        None => Err(AuthError::ParseError(String::from_str("unreadable session response"))),
    }
}

/// What a user-code acceptance answer means: a failure is a rejection, and a
/// success must be readable; the context inside may still be absent.
pub fn interpret_accept_response(
    status: u16,
    parsed: Option<AcceptUserCodeResponse>,
    body: String,
) -> (r: Result<Option<DeviceContext>, AuthError>)
    ensures
        !is_success_status(status) ==> (r matches Err(AuthError::BackendRejected(s, b)) && s
            == status && b@ == body@),
        is_success_status(status) ==> match parsed {
            Some(resp) => r matches Ok(ctx) && ctx == resp.device_context,
            None => r matches Err(AuthError::ParseError(_)),
        },
{
    if !status_is_success(status) {
        return Err(AuthError::BackendRejected(status, body));
    }
    match parsed {
        Some(resp) => Ok(resp.device_context),
        None => Err(AuthError::ParseError(String::from_str("unreadable acceptance response"))),
    }
}

/// What an approval answer means: any success approves, any failure is a
/// rejection with its status and body.
pub fn interpret_approval(status: u16, body: String) -> (r: Result<(), AuthError>)
    ensures
        is_success_status(status) <==> r is Ok,
        !is_success_status(status) ==> (r matches Err(AuthError::BackendRejected(s, b)) && s
            == status && b@ == body@),
{
    if status_is_success(status) {
        Ok(())
    } else {
        Err(AuthError::BackendRejected(status, body))
    }
}

/// The token set an import's poll returns.
#[derive(Debug, Clone)]
pub struct ImportTokenResponse {
    pub access_token: String,
    pub refresh_token: String,
}

/// What one poll step of an import does next.
#[derive(Debug)]
pub enum ImportPollStep {
    /// Poll again after this many seconds.
    Wait(i64),
    /// The token set arrived.
    Done(ImportTokenResponse),
    /// A terminal failure.
    Failed(AuthError),
}

/// The polling state of one import: the interval and the two-minute
/// deadline.
pub struct ImportPollState {
    /// Seconds between polls; never below zero.
    pub interval: i64,
    /// Absolute deadline, Unix seconds.
    pub deadline: i64,
}

impl ImportPollState {
    /// Begin polling at `now`: the suggested interval — one second when the
    /// backend suggested none or a negative one — under a two-minute
    /// ceiling.
    pub fn begin(suggested_interval: Option<i64>, now: i64) -> (r: ImportPollState)
        requires
            i64::MIN <= now + 120 <= i64::MAX,
        ensures
            r.interval == match suggested_interval {
                Some(i) => if i >= 0 {
                    i as int
                } else {
                    1
                },
                None => 1,
            },
            r.deadline == now + 120,
            r.interval >= 0,
    {
        let interval = match suggested_interval {
            Some(i) => if i >= 0 {
                i
            } else {
                1
            },
            None => 1,
        };
        ImportPollState { interval, deadline: now + 120 }
    }

    /// Consume one poll answer at `now`. Past the deadline the import fails;
    /// a pending answer waits the current interval; a slow-down answer adds
    /// five seconds first; any other failure is terminal.
    pub fn poll_step(
        &mut self,
        now: i64,
        status: u16,
        token: Option<ImportTokenResponse>,
        error_code: Option<String>,
        body: String,
    ) -> (r: ImportPollStep)
        requires
            old(self).interval >= 0,
        ensures
            final(self).deadline == old(self).deadline,
            final(self).interval >= old(self).interval,
            final(self).interval >= 0,
            now > old(self).deadline ==> r matches ImportPollStep::Failed(
                AuthError::DeviceAuthTimeout,
            ),
            now <= old(self).deadline ==> if is_success_status(status) {
                match token {
                    Some(t) => r matches ImportPollStep::Done(rt) && rt == t,
                    None => r matches ImportPollStep::Failed(AuthError::ParseError(_)),
                }
            } else if status == 400 {
                match error_code {
                    Some(e) => if e@ == "authorization_pending"@ {
                        (r matches ImportPollStep::Wait(w) && w == old(self).interval)
                            && final(self).interval == old(self).interval
                    } else if e@ == "slow_down"@ {
                        (r matches ImportPollStep::Wait(w) && w == final(self).interval)
                            && final(self).interval == if old(self).interval + 5 <= i64::MAX {
                            old(self).interval + 5
                        } else {
                            i64::MAX as int
                        }
                    } else {
                        r matches ImportPollStep::Failed(AuthError::DeviceAuthError(raw)) && raw@
                            == e@
                    },
                    None => r matches ImportPollStep::Failed(AuthError::BackendRejected(st, b))
                        && st == status && b@ == body@,
                }
            } else {
                r matches ImportPollStep::Failed(AuthError::BackendRejected(st, b)) && st == status
                    && b@ == body@
            },
            !(now <= old(self).deadline && status == 400 && (match error_code {
                Some(e) => e@ == "slow_down"@,
                None => false,
            })) ==> final(self).interval == old(self).interval,
    {
        if now > self.deadline {
            return ImportPollStep::Failed(AuthError::DeviceAuthTimeout);
        }
        if status_is_success(status) {
            return match token {
                Some(t) => ImportPollStep::Done(t),
                None => ImportPollStep::Failed(
                    AuthError::ParseError(String::from_str("unreadable token response")),
                ),
            };
        }
        if status == 400 {
            match error_code {
                Some(e) => {
                    if string_eq_str(&e, "authorization_pending") {
                        ImportPollStep::Wait(self.interval)
                    } else if string_eq_str(&e, "slow_down") {
                        if self.interval <= i64::MAX - 5 {
                            self.interval = self.interval + 5;
                        } else {
                            self.interval = i64::MAX;
                        }
                        ImportPollStep::Wait(self.interval)
                    } else {
                        ImportPollStep::Failed(AuthError::DeviceAuthError(e))
                    }
                },
                None => ImportPollStep::Failed(AuthError::BackendRejected(status, body)),
            }
        } else {
            ImportPollStep::Failed(AuthError::BackendRejected(status, body))
        }
    }
}

} // verus!
