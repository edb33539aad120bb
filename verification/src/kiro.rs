//! Switching which stored account the target IDE uses.
//!
//! The IDE reads its credentials from a token file; switching an account
//! plans exactly what to write there — and, for a device-flow account, which
//! client registration file to write beside it — together with whether the
//! IDE must be stopped first and started again after. Executing the plan is
//! file and process work outside this crate.

use crate::clock::expires_at_spec;
use crate::errors::AuthError;
use crate::util::string_eq_str;
use vstd::prelude::*;

verus! {

/// The profile used when a redirect-flow account kept none.
pub open spec fn default_profile_arn_spec() -> Seq<char> {
    "arn:aws:codewhisperer:us-east-1:699475941385:profile/EHGA3GRVQMUK"@
}

/// The credentials the IDE keeps locally, as read from its token file.
#[derive(Debug, Clone)]
pub struct KiroLocalToken {
    pub access_token: Option<String>,
    pub refresh_token: Option<String>,
    pub expires_at: Option<String>,
    pub auth_method: Option<String>,
    pub provider: Option<String>,
    pub profile_arn: Option<String>,
    pub client_id_hash: Option<String>,
    pub region: Option<String>,
}

/// A cached client registration, as read from its file.
#[derive(Debug, Clone)]
pub struct ClientRegistration {
    pub client_id: String,
    pub client_secret: String,
    pub expires_at: Option<String>,
}

/// The IDE's telemetry identifiers.
#[derive(Debug, Clone)]
pub struct KiroTelemetryInfo {
    pub machine_id: Option<String>,
    pub sqm_id: Option<String>,
    pub dev_device_id: Option<String>,
    pub service_machine_id: Option<String>,
}

/// What the caller asks a switch to do.
#[derive(Debug, Clone)]
pub struct SwitchAccountParams {
    pub access_token: String,
    pub refresh_token: String,
    pub provider: String,
    pub auth_method: Option<String>,
    pub profile_arn: Option<String>,
    pub client_id_hash: Option<String>,
    pub client_id: Option<String>,
    pub client_secret: Option<String>,
    pub region: Option<String>,
    pub reset_machine_id: Option<bool>,
    pub auto_restart: Option<bool>,
}

/// What a switch did.
#[derive(Debug, Clone)]
pub struct SwitchAccountResult {
    pub success: bool,
    pub message: String,
    pub kiro_was_running: bool,
    pub kiro_restarted: bool,
}

/// The token file a switch writes for the IDE.
#[derive(Debug, Clone)]
pub struct KiroTokenFile {
    pub access_token: String,
    pub refresh_token: String,
    /// Absolute expiry, Unix seconds: one hour from the switch.
    pub expires_at: i64,
    pub auth_method: String,
    pub provider: String,
    /// Redirect-flow accounts only.
    pub profile_arn: Option<String>,
    /// Device-flow accounts only.
    pub client_id_hash: Option<String>,
    /// Device-flow accounts only.
    pub region: Option<String>,
}

/// The client registration file a device-flow switch writes beside the token
/// file, named by the registration key.
#[derive(Debug, Clone)]
pub struct ClientRegistrationFile {
    pub client_id_hash: String,
    pub client_id: String,
    pub client_secret: String,
}

/// Everything a switch must do, decided up front.
#[derive(Debug, Clone)]
pub struct SwitchPlan {
    /// Stop the IDE before writing — only when the machine identifier is to
    /// be reset while the IDE runs.
    pub kill_first: bool,
    /// Reset the machine identifier before writing.
    pub reset_machine_id: bool,
    /// The token file to write.
    pub token_file: KiroTokenFile,
    /// The registration file to write, when the account carries a full
    /// registration.
    pub client_registration: Option<ClientRegistrationFile>,
    /// Start the IDE again — only when it was running and the caller did not
    /// opt out.
    pub restart_after: bool,
}

/// Decide a switch at `now`: which files to write with which contents, and
/// how the IDE process is handled around the write.
pub fn plan_account_switch(params: &SwitchAccountParams, kiro_was_running: bool, now: i64) -> (r:
    SwitchPlan)
    requires
        i64::MIN <= now + 3600 <= i64::MAX,
    ensures
        ({
            let should_reset = params.reset_machine_id == Some(true);
            let should_restart = params.auto_restart is None || params.auto_restart == Some(true);
            let is_device = match params.auth_method {
                Some(m) => m@ == "IdC"@,
                None => false,
            };
            &&& r.kill_first == (should_reset && kiro_was_running)
            &&& r.reset_machine_id == should_reset
            &&& r.restart_after == (kiro_was_running && should_restart)
            &&& r.token_file.access_token == params.access_token
            &&& r.token_file.refresh_token == params.refresh_token
            &&& r.token_file.expires_at == expires_at_spec(now, 3600)
            &&& r.token_file.provider == params.provider
            &&& if is_device {
                &&& r.token_file.auth_method@ == "IdC"@
                &&& r.token_file.profile_arn is None
                &&& r.token_file.client_id_hash matches Some(h) && h@ == match params
                    .client_id_hash {
                    Some(hash) => hash@,
                    None => Seq::<char>::empty(),
                }
                &&& r.token_file.region matches Some(reg) && reg@ == match params.region {
                    Some(given) => given@,
                    None => "us-east-1"@,
                }
                &&& r.client_registration == match (
                    params.client_id_hash,
                    params.client_id,
                    params.client_secret,
                ) {
                    (Some(hash), Some(cid), Some(csec)) => Some(
                        ClientRegistrationFile {
                            client_id_hash: hash,
                            client_id: cid,
                            client_secret: csec,
                        },
                    ),
                    _ => None,
                }
            } else {
                &&& r.token_file.auth_method@ == "social"@
                &&& r.token_file.client_id_hash is None
                &&& r.token_file.region is None
                &&& r.token_file.profile_arn matches Some(arn) && arn@ == match params
                    .profile_arn {
                    Some(given) => given@,
                    None => default_profile_arn_spec(),
                }
                &&& r.client_registration is None
            }
        }),
{
    let should_reset = match params.reset_machine_id {
        Some(b) => b,
        None => false,
    };
    let should_restart = match params.auto_restart {
        Some(b) => b,
        None => true,
    };
    let is_device = match &params.auth_method {
        Some(m) => string_eq_str(m, "IdC"),
        None => false,
    };
    let token_file = if is_device {
        KiroTokenFile {
            access_token: params.access_token.clone(),
            refresh_token: params.refresh_token.clone(),
            expires_at: now + 3600,
            auth_method: String::from_str("IdC"),
            provider: params.provider.clone(),
            profile_arn: None,
            client_id_hash: Some(
                match &params.client_id_hash {
                    Some(hash) => hash.clone(),
                    None => String::new(),
                },
            ),
            region: Some(
                match &params.region {
                    Some(given) => given.clone(),
                    None => String::from_str("us-east-1"),
                },
            ),
        }
    } else {
        KiroTokenFile {
            access_token: params.access_token.clone(),
            refresh_token: params.refresh_token.clone(),
            expires_at: now + 3600,
            auth_method: String::from_str("social"),
            provider: params.provider.clone(),
            profile_arn: Some(
                match &params.profile_arn {
                    Some(given) => given.clone(),
                    None => String::from_str(
                        "arn:aws:codewhisperer:us-east-1:699475941385:profile/EHGA3GRVQMUK",
                    ),
                },
            ),
            client_id_hash: None,
            region: None,
        }
    };
    let client_registration = if is_device {
        match (&params.client_id_hash, &params.client_id, &params.client_secret) {
            (Some(hash), Some(cid), Some(csec)) => Some(
                ClientRegistrationFile {
                    client_id_hash: hash.clone(),
                    client_id: cid.clone(),
                    client_secret: csec.clone(),
                },
            ),
            _ => None,
        }
    } else {
        None
    };
    SwitchPlan {
        kill_first: should_reset && kiro_was_running,
        reset_machine_id: should_reset,
        token_file,
        client_registration,
        restart_after: kiro_was_running && should_restart,
    }
}

/// The report of a finished switch.
pub fn build_switch_result(
    provider: &str,
    auth_method: &str,
    kiro_was_running: bool,
    kiro_restarted: bool,
) -> (r: SwitchAccountResult)
    ensures
        r.success,
        r.message@ == "Switched to "@ + provider@ + " ("@ + auth_method@ + ") account"@,
        r.kiro_was_running == kiro_was_running,
        r.kiro_restarted == kiro_restarted,
{
    let mut message = String::from_str("Switched to ");
    message.append(provider);
    message.append(" (");
    message.append(auth_method);
    message.append(") account");
    SwitchAccountResult { success: true, message, kiro_was_running, kiro_restarted }
}

/// How a locally stored IDE credential becomes an account of this store.
#[derive(Debug, Clone)]
pub enum LocalAccountPlan {
    /// Re-register through the device flow's refresh with the cached
    /// registration named by this key.
    Device { refresh_token: String, client_id_hash: String, region: String },
    /// Re-register through the desktop refresh.
    Social { refresh_token: String, provider: String },
}

/// Decide how to import the IDE's local credential: a device-flow credential
/// needs its registration key, everything else goes through the desktop
/// refresh with the recorded — or default — provider.
pub fn plan_local_account(token: &KiroLocalToken) -> (r: Result<LocalAccountPlan, AuthError>)
    ensures
        token.refresh_token is None ==> (r matches Err(AuthError::MissingMetadata(f)) && f@
            == "refresh_token"@),
        token.refresh_token matches Some(tok) ==> {
            let is_device = match token.auth_method {
                Some(m) => m@ == "IdC"@,
                None => false,
            };
            if is_device {
                match token.client_id_hash {
                    Some(hash) => r matches Ok(
                        LocalAccountPlan::Device { refresh_token, client_id_hash, region },
                    ) && refresh_token == tok && client_id_hash == hash && region@ == match token
                        .region {
                        Some(reg) => reg@,
                        None => "us-east-1"@,
                    },
                    None => r matches Err(AuthError::MissingMetadata(f)) && f@
                        == "client_id_hash"@,
                }
            } else {
                r matches Ok(LocalAccountPlan::Social { refresh_token, provider })
                    && refresh_token == tok && provider@ == match token.provider {
                    Some(p) => p@,
                    None => "Google"@,
                }
            }
        },
{
    let refresh_token = match &token.refresh_token {
        Some(tok) => tok.clone(),
        None => {
            return Err(AuthError::MissingMetadata(String::from_str("refresh_token")));
        },
    };
    let is_device = match &token.auth_method {
        Some(m) => string_eq_str(m, "IdC"),
        None => false,
    };
    if is_device {
        let client_id_hash = match &token.client_id_hash {
            Some(hash) => hash.clone(),
            None => {
                return Err(AuthError::MissingMetadata(String::from_str("client_id_hash")));
            },
        };
        let region = match &token.region {
            Some(reg) => reg.clone(),
            None => String::from_str("us-east-1"),
        };
        Ok(LocalAccountPlan::Device { refresh_token, client_id_hash, region })
    } else {
        let provider = match &token.provider {
            Some(p) => p.clone(),
            None => String::from_str("Google"),
        };
        Ok(LocalAccountPlan::Social { refresh_token, provider })
    }
}

} // verus!
