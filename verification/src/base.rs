//! The normalized flow result and the uniform provider contract.
//!
//! Every flow, however different its protocol, produces one `AuthResult`, so
//! that account storage and usage lookup need not know which flow backs a
//! given account. Exactly one method-specific field group is populated,
//! determined by the `auth_method` tag.

use vstd::prelude::*;

verus! {

/// Normalized output of a completed login or refresh.
#[derive(Debug, Clone)]
pub struct AuthResult {
    pub access_token: String,
    pub refresh_token: String,
    /// Absolute expiry, Unix seconds, derived from `expires_in` at
    /// completion time.
    pub expires_at: i64,
    /// Lifetime in seconds as the backend reported it.
    pub expires_in: i64,
    pub provider: String,
    /// One of `social`, `device`, `web_oauth`.
    pub auth_method: String,
    pub token_type: Option<String>,
    // Device-flow group.
    pub id_token: Option<String>,
    pub region: Option<String>,
    pub client_id: Option<String>,
    pub client_secret: Option<String>,
    pub client_id_hash: Option<String>,
    pub sso_session_id: Option<String>,
    // Redirect- and web-flow group.
    pub profile_arn: Option<String>,
    pub csrf_token: Option<String>,
    pub session_token: Option<String>,
}

impl AuthResult {
    /// No field of the device-flow group is populated.
    pub open spec fn device_group_empty(self) -> bool {
        &&& self.region is None
        &&& self.client_id is None
        &&& self.client_secret is None
        &&& self.client_id_hash is None
        &&& self.sso_session_id is None
    }

    /// No field of the redirect- and web-flow group is populated.
    pub open spec fn web_group_empty(self) -> bool {
        &&& self.profile_arn is None
        &&& self.csrf_token is None
        &&& self.session_token is None
    }

    /// The tag names one of the three flows, and only the matching
    /// method-specific field group is populated.
    pub open spec fn wf(self) -> bool {
        &&& (self.auth_method@ == "social"@ || self.auth_method@ == "device"@
            || self.auth_method@ == "web_oauth"@)
        &&& self.auth_method@ == "social"@ ==> self.device_group_empty()
        &&& self.auth_method@ == "web_oauth"@ ==> self.device_group_empty()
        &&& self.auth_method@ == "device"@ ==> self.web_group_empty()
    }
}

/// Caller-supplied context for refreshing a token whose flow needs state
/// beyond the refresh token itself. Absent fields default to empty; a flow
/// that needs one fails with `MissingMetadata`.
#[derive(Debug, Clone, Default)]
pub struct RefreshMetadata {
    pub client_id: Option<String>,
    pub client_secret: Option<String>,
    pub region: Option<String>,
    pub client_id_hash: Option<String>,
    pub profile_arn: Option<String>,
}

impl RefreshMetadata {
    /// Context with every field absent.
    pub fn empty() -> (r: RefreshMetadata)
        ensures
            r.client_id is None,
            r.client_secret is None,
            r.region is None,
            r.client_id_hash is None,
            r.profile_arn is None,
    {
        RefreshMetadata {
            client_id: None,
            client_secret: None,
            region: None,
            client_id_hash: None,
            profile_arn: None,
        }
    }
}

/// The uniform face of the three flows: a provider identifier and the name
/// of the method backing it. The multi-step protocols themselves are state
/// machines on the concrete types, since each flow's steps differ.
pub trait AuthProvider {
    /// The provider identifier this instance was built for.
    spec fn provider_id_spec(&self) -> Seq<char>;

    /// The fixed method tag of this flow.
    spec fn auth_method_spec(&self) -> Seq<char>;

    /// Return the provider identifier.
    fn get_provider_id(&self) -> (r: &str)
        ensures
            r@ == self.provider_id_spec(),
    ;

    /// Return the method tag.
    fn get_auth_method(&self) -> (r: &str)
        ensures
            r@ == self.auth_method_spec(),
    ;
}

} // verus!
