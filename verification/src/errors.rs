//! Error taxonomy shared by all three flows and the credential store.
//!
//! Every failure is returned as a value; callers decide what to do with it.
//! `AccountSuspended` is kept distinct from generic rejection so that a caller
//! can mark the account instead of merely logging, and `StateMismatch` is kept
//! distinct because it signals a possible forged callback and must abort the
//! flow rather than be retried.

use vstd::prelude::*;

verus! {

/// One failure of a flow, a backend call, or a store operation.
#[derive(Debug, Clone)]
pub enum AuthError {
    /// Transport-level failure, surfaced after the bounded retries ran out.
    NetworkError(String),
    /// The backend answered with a non-success status that is not one of the
    /// specially mapped ones; carries the status and the raw body.
    BackendRejected(u16, String),
    /// The backend answered 401: the token is expired or invalid and the
    /// caller should re-authenticate instead of retrying.
    TokenExpiredOrInvalid,
    /// The backend marked the account as suspended (a 423 status or an
    /// explicit suspension marker in the body); carries the reason.
    AccountSuspended(String),
    /// A redirect callback arrived whose state token differs from the one
    /// this login generated.
    StateMismatch,
    /// No redirect callback arrived before the waiting deadline.
    CallbackTimeout,
    /// The one-shot callback slot was already consumed.
    CallbackConsumed,
    /// The redirect callback itself reported an error, or lacked a required
    /// query parameter; carries a description.
    CallbackFailed(String),
    /// The device code expired before the user approved the authorization.
    DeviceCodeExpired,
    /// The user denied the device authorization.
    UserDenied,
    /// The device token endpoint reported an error this crate does not
    /// recognize; carries the raw error string.
    DeviceAuthError(String),
    /// Polling ran past the device authorization's own expiry.
    DeviceAuthTimeout,
    /// A refresh was requested without a metadata field the flow needs;
    /// carries the field name.
    MissingMetadata(String),
    /// The exchange response, body and cookies merged, still lacked a
    /// required value; carries the name of what is missing.
    IncompleteExchange(String),
    /// The provider identifier names no known provider.
    UnsupportedProvider(String),
    /// A response body could not be read as the expected document.
    ParseError(String),
    /// No stored account matches the given identifier.
    AccountNotFound,
}

impl AuthError {
    /// A short, stable label for the error kind, usable in logs and tests.
    pub fn kind(&self) -> (r: &'static str)
        ensures
            r@ == self.kind_spec(),
    {
        match self {
            AuthError::NetworkError(_) => "network_error",
            AuthError::BackendRejected(_, _) => "backend_rejected",
            AuthError::TokenExpiredOrInvalid => "token_expired_or_invalid",
            AuthError::AccountSuspended(_) => "account_suspended",
            AuthError::StateMismatch => "state_mismatch",
            AuthError::CallbackTimeout => "callback_timeout",
            AuthError::CallbackConsumed => "callback_consumed",
            AuthError::CallbackFailed(_) => "callback_failed",
            AuthError::DeviceCodeExpired => "device_code_expired",
            AuthError::UserDenied => "user_denied",
            AuthError::DeviceAuthError(_) => "device_auth_error",
            AuthError::DeviceAuthTimeout => "device_auth_timeout",
            AuthError::MissingMetadata(_) => "missing_metadata",
            AuthError::IncompleteExchange(_) => "incomplete_exchange",
            AuthError::UnsupportedProvider(_) => "unsupported_provider",
            AuthError::ParseError(_) => "parse_error",
            AuthError::AccountNotFound => "account_not_found",
        }
    }

    /// What `kind` returns, as a sequence of characters.
    pub open spec fn kind_spec(&self) -> Seq<char> {
        match self {
            AuthError::NetworkError(_) => "network_error"@,
            AuthError::BackendRejected(_, _) => "backend_rejected"@,
            AuthError::TokenExpiredOrInvalid => "token_expired_or_invalid"@,
            AuthError::AccountSuspended(_) => "account_suspended"@,
            AuthError::StateMismatch => "state_mismatch"@,
            AuthError::CallbackTimeout => "callback_timeout"@,
            AuthError::CallbackConsumed => "callback_consumed"@,
            AuthError::CallbackFailed(_) => "callback_failed"@,
            AuthError::DeviceCodeExpired => "device_code_expired"@,
            AuthError::UserDenied => "user_denied"@,
            AuthError::DeviceAuthError(_) => "device_auth_error"@,
            AuthError::DeviceAuthTimeout => "device_auth_timeout"@,
            AuthError::MissingMetadata(_) => "missing_metadata"@,
            AuthError::IncompleteExchange(_) => "incomplete_exchange"@,
            AuthError::UnsupportedProvider(_) => "unsupported_provider"@,
            AuthError::ParseError(_) => "parse_error"@,
            AuthError::AccountNotFound => "account_not_found"@,
        }
    }

    /// True exactly for the error that marks a suspended account; the caller
    /// uses it to decide whether to change the stored account's status.
    pub fn is_suspension(&self) -> (r: bool)
        ensures
            r == (self is AccountSuspended),
    {
        match self {
            AuthError::AccountSuspended(_) => true,
            _ => false,
        }
    }
}

} // verus!
