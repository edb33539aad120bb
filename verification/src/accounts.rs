//! The account command layer: how a flow result, a refresh, or a manual edit
//! lands in the credential store.
//!
//! Every login merges through the store's (email, provider) dedup; every
//! refresh updates a record in place and never destroys stored credentials on
//! failure. Each kind of login stores its own slice of the credential
//! surface, written down here as a field-by-field update plan, so the one
//! merge engine carries every flavor.

use crate::base::AuthResult;
use crate::base::RefreshMetadata;
use crate::desktop::UsageSummary;
use crate::errors::AuthError;
use crate::store::is_first_pair_match;
use crate::store::opt_str;
use crate::store::pairs_unique;
use crate::store::upsert_found_post;
use crate::store::Account;
use crate::store::AccountStatus;
use crate::store::AccountStore;
use crate::util::clone_opt;
use crate::util::string_eq;
use crate::util::string_eq_str;
use crate::web_oauth::seq_contains;
use crate::web_oauth::str_contains;
use vstd::pervasive::VecAdditionalExecFns;
use vstd::prelude::*;

verus! {

/// How one optional string of the credential surface changes at a merge.
#[derive(Debug, Clone)]
pub enum FieldUpdate {
    /// Leave the stored value; a fresh record gets none.
    Keep,
    /// Store this value, on a fresh record too.
    Put(Option<String>),
    /// Leave the stored value, but give a fresh record this one.
    KeepOrInit(Option<String>),
}

impl FieldUpdate {
    /// The value after applying this update over a stored one.
    pub open spec fn applied(self, prior: Option<String>) -> Option<String> {
        match self {
            FieldUpdate::Keep => prior,
            FieldUpdate::Put(v) => v,
            FieldUpdate::KeepOrInit(_) => prior,
        }
    }

    /// The value a fresh record gets.
    pub open spec fn for_new(self) -> Option<String> {
        match self {
            FieldUpdate::Keep => None,
            FieldUpdate::Put(v) => v,
            FieldUpdate::KeepOrInit(v) => v,
        }
    }

    /// Apply this update over a stored value.
    pub fn apply(&self, prior: &Option<String>) -> (r: Option<String>)
        ensures
            r == self.applied(*prior),
    {
        match self {
            FieldUpdate::Keep => clone_opt(prior),
            FieldUpdate::Put(v) => clone_opt(v),
            FieldUpdate::KeepOrInit(_) => clone_opt(prior),
        }
    }

    /// The value a fresh record gets.
    pub fn initial(&self) -> (r: Option<String>)
        ensures
            r == self.for_new(),
    {
        match self {
            FieldUpdate::Keep => None,
            FieldUpdate::Put(v) => clone_opt(v),
            FieldUpdate::KeepOrInit(v) => clone_opt(v),
        }
    }
}

/// How the stored expiry changes at a merge.
#[derive(Debug, Clone, Copy)]
pub enum ExpiryUpdate {
    Keep,
    Put(i64),
}

impl ExpiryUpdate {
    /// The expiry after applying this update over a stored one.
    pub open spec fn applied(self, prior: Option<i64>) -> Option<i64> {
        match self {
            ExpiryUpdate::Keep => prior,
            ExpiryUpdate::Put(v) => Some(v),
        }
    }

    /// The expiry a fresh record gets.
    pub open spec fn for_new(self) -> Option<i64> {
        match self {
            ExpiryUpdate::Keep => None,
            ExpiryUpdate::Put(v) => Some(v),
        }
    }

    /// Apply this update over a stored expiry.
    pub fn apply(&self, prior: Option<i64>) -> (r: Option<i64>)
        ensures
            r == self.applied(prior),
    {
        match self {
            ExpiryUpdate::Keep => prior,
            ExpiryUpdate::Put(v) => Some(*v),
        }
    }

    /// The expiry a fresh record gets.
    pub fn initial(&self) -> (r: Option<i64>)
        ensures
            r == self.for_new(),
    {
        match self {
            ExpiryUpdate::Keep => None,
            ExpiryUpdate::Put(v) => Some(*v),
        }
    }
}

/// The full field-by-field plan of one merge or in-place update.
#[derive(Debug, Clone)]
pub struct CredentialUpdate {
    pub access_token: FieldUpdate,
    pub refresh_token: FieldUpdate,
    pub csrf_token: FieldUpdate,
    pub session_token: FieldUpdate,
    pub expires_at: ExpiryUpdate,
    pub user_id: FieldUpdate,
    pub client_id: FieldUpdate,
    pub client_secret: FieldUpdate,
    pub region: FieldUpdate,
    pub client_id_hash: FieldUpdate,
    pub sso_session_id: FieldUpdate,
    pub id_token: FieldUpdate,
    pub profile_arn: FieldUpdate,
    pub usage_data: FieldUpdate,
    /// A new label, or none to keep the stored one.
    pub label: Option<String>,
    /// A new status, or none to keep the stored one; a fresh record without
    /// one starts active.
    pub status: Option<AccountStatus>,
}

/// A stored record after a credential update: identity, email, provider and
/// creation time survive; everything else follows the plan.
pub open spec fn updated_account_spec(prev: Account, update: CredentialUpdate) -> Account {
    Account {
        id: prev.id,
        email: prev.email,
        provider: prev.provider,
        added_at: prev.added_at,
        label: match update.label {
            Some(l) => l,
            None => prev.label,
        },
        status: match update.status {
            Some(st) => st,
            None => prev.status,
        },
        access_token: update.access_token.applied(prev.access_token),
        refresh_token: update.refresh_token.applied(prev.refresh_token),
        csrf_token: update.csrf_token.applied(prev.csrf_token),
        session_token: update.session_token.applied(prev.session_token),
        expires_at: update.expires_at.applied(prev.expires_at),
        user_id: update.user_id.applied(prev.user_id),
        client_id: update.client_id.applied(prev.client_id),
        client_secret: update.client_secret.applied(prev.client_secret),
        region: update.region.applied(prev.region),
        client_id_hash: update.client_id_hash.applied(prev.client_id_hash),
        sso_session_id: update.sso_session_id.applied(prev.sso_session_id),
        id_token: update.id_token.applied(prev.id_token),
        profile_arn: update.profile_arn.applied(prev.profile_arn),
        usage_data: update.usage_data.applied(prev.usage_data),
    }
}

/// A stored record after a login merge for its pair: identity and creation
/// time survive, the key is restated, and the credential surface follows the
/// plan.
pub open spec fn merged_login_spec(
    prev: Account,
    email: String,
    provider: String,
    update: CredentialUpdate,
) -> Account {
    Account {
        id: prev.id,
        email,
        provider: Some(provider),
        added_at: prev.added_at,
        label: match update.label {
            Some(l) => l,
            None => prev.label,
        },
        status: match update.status {
            Some(st) => st,
            None => prev.status,
        },
        access_token: update.access_token.applied(prev.access_token),
        refresh_token: update.refresh_token.applied(prev.refresh_token),
        csrf_token: update.csrf_token.applied(prev.csrf_token),
        session_token: update.session_token.applied(prev.session_token),
        expires_at: update.expires_at.applied(prev.expires_at),
        user_id: update.user_id.applied(prev.user_id),
        client_id: update.client_id.applied(prev.client_id),
        client_secret: update.client_secret.applied(prev.client_secret),
        region: update.region.applied(prev.region),
        client_id_hash: update.client_id_hash.applied(prev.client_id_hash),
        sso_session_id: update.sso_session_id.applied(prev.sso_session_id),
        id_token: update.id_token.applied(prev.id_token),
        profile_arn: update.profile_arn.applied(prev.profile_arn),
        usage_data: update.usage_data.applied(prev.usage_data),
    }
}

/// The two records agree on everything but the generated identifier and the
/// creation time.
pub open spec fn same_but_identity(a: Account, b: Account) -> bool {
    &&& a.email == b.email
    &&& a.label == b.label
    &&& a.status == b.status
    &&& a.access_token == b.access_token
    &&& a.refresh_token == b.refresh_token
    &&& a.csrf_token == b.csrf_token
    &&& a.session_token == b.session_token
    &&& a.expires_at == b.expires_at
    &&& a.provider == b.provider
    &&& a.user_id == b.user_id
    &&& a.client_id == b.client_id
    &&& a.client_secret == b.client_secret
    &&& a.region == b.region
    &&& a.client_id_hash == b.client_id_hash
    &&& a.sso_session_id == b.sso_session_id
    &&& a.id_token == b.id_token
    &&& a.profile_arn == b.profile_arn
    &&& a.usage_data == b.usage_data
}

/// The fresh record one merge plan creates for a pair nobody stored yet;
/// its identifier and creation time are generated, so they are not pinned
/// here.
pub open spec fn fresh_account_spec(
    email: String,
    provider: String,
    new_label: String,
    update: CredentialUpdate,
) -> Account {
    Account {
        // the identifier and creation time are generated at run time; the
        // comparison below goes through same_but_identity, which skips both
        id: arbitrary(),
        email,
        provider: Some(provider),
        added_at: arbitrary(),
        label: match update.label {
            Some(l) => l,
            None => new_label,
        },
        status: match update.status {
            Some(st) => st,
            None => AccountStatus::Active,
        },
        access_token: update.access_token.for_new(),
        refresh_token: update.refresh_token.for_new(),
        csrf_token: update.csrf_token.for_new(),
        session_token: update.session_token.for_new(),
        expires_at: update.expires_at.for_new(),
        user_id: update.user_id.for_new(),
        client_id: update.client_id.for_new(),
        client_secret: update.client_secret.for_new(),
        region: update.region.for_new(),
        client_id_hash: update.client_id_hash.for_new(),
        sso_session_id: update.sso_session_id.for_new(),
        id_token: update.id_token.for_new(),
        profile_arn: update.profile_arn.for_new(),
        usage_data: update.usage_data.for_new(),
    }
}

/// Merge one login into the store, deduplicated by the (email, provider)
/// pair.
///
/// When a record with the pair exists, its credential surface follows the
/// plan in place — identity, email, provider and creation time survive.
/// Otherwise a fresh record with a generated identifier is inserted at the
/// front. The record as stored is returned, and a collection without
/// duplicate pairs stays so.
pub fn apply_login_merge(
    store: &mut AccountStore,
    email: String,
    provider: String,
    new_label: String,
    update: CredentialUpdate,
) -> (r: Account)
    ensures
        pairs_unique(old(store).accounts@) ==> pairs_unique(final(store).accounts@),
        r.email == email,
        opt_str(r.provider) == Some(provider@),
        ({
            let s = old(store).accounts@;
            let key = (email@, Some(provider@));
            if exists|i: int| 0 <= i < s.len() && (#[trigger] s[i]).pair_key() == key {
                exists|i: int|
                    {
                        &&& #[trigger] is_first_pair_match(s, key, i)
                        &&& r == merged_login_spec(s[i], email, provider, update)
                        &&& final(store).accounts@ == s.update(i, r)
                    }
            } else {
                &&& final(store).accounts@ == seq![r] + s
                &&& same_but_identity(r, fresh_account_spec(email, provider, new_label, update))
                &&& r.id@.len() == 36
            }
        }),
{
    let ghost s = store.accounts@;
    let ghost key = (email@, Some(provider@));
    let provider_opt = Some(provider.clone());
    match store.find_by_pair(&email, &provider_opt) {
        Some(i) => {
            let prev = store.accounts[i].clone();
            let incoming = Account {
                id: prev.id.clone(),
                email,
                provider: provider_opt,
                added_at: prev.added_at,
                label: match update.label {
                    Some(l) => l,
                    None => prev.label.clone(),
                },
                status: match update.status {
                    Some(st) => st,
                    None => prev.status,
                },
                access_token: update.access_token.apply(&prev.access_token),
                refresh_token: update.refresh_token.apply(&prev.refresh_token),
                csrf_token: update.csrf_token.apply(&prev.csrf_token),
                session_token: update.session_token.apply(&prev.session_token),
                expires_at: update.expires_at.apply(prev.expires_at),
                user_id: update.user_id.apply(&prev.user_id),
                client_id: update.client_id.apply(&prev.client_id),
                client_secret: update.client_secret.apply(&prev.client_secret),
                region: update.region.apply(&prev.region),
                client_id_hash: update.client_id_hash.apply(&prev.client_id_hash),
                sso_session_id: update.sso_session_id.apply(&prev.sso_session_id),
                id_token: update.id_token.apply(&prev.id_token),
                profile_arn: update.profile_arn.apply(&prev.profile_arn),
                usage_data: update.usage_data.apply(&prev.usage_data),
            };
            assert(s[i as int].pair_key() == key);
            assert(incoming.pair_key() == key);
            let r = store.upsert(incoming);
            proof {
                let wi = choose|w: int| #[trigger]
                    upsert_found_post(s, incoming, r, store.accounts@, w);
                crate::store::lemma_first_match_unique(s, key, wi, i as int);
                assert(s[wi] == s[i as int]);
                assert(r == merged_login_spec(s[i as int], email, provider, update));
                assert(is_first_pair_match(s, key, i as int));
            }
            r
        },
        None => {
            let mut fresh = Account::new(email, match &update.label {
                Some(l) => l.clone(),
                None => new_label.clone(),
            });
            fresh.provider = Some(provider);
            fresh.status = match update.status {
                Some(st) => st,
                None => AccountStatus::Active,
            };
            fresh.access_token = update.access_token.initial();
            fresh.refresh_token = update.refresh_token.initial();
            fresh.csrf_token = update.csrf_token.initial();
            fresh.session_token = update.session_token.initial();
            fresh.expires_at = update.expires_at.initial();
            fresh.user_id = update.user_id.initial();
            fresh.client_id = update.client_id.initial();
            fresh.client_secret = update.client_secret.initial();
            fresh.region = update.region.initial();
            fresh.client_id_hash = update.client_id_hash.initial();
            fresh.sso_session_id = update.sso_session_id.initial();
            fresh.id_token = update.id_token.initial();
            fresh.profile_arn = update.profile_arn.initial();
            fresh.usage_data = update.usage_data.initial();
            let r = store.upsert(fresh);
            r
        },
    }
}

/// Update the record at index `i` in place: identity, email, provider and
/// creation time survive, the credential surface follows the plan, and
/// pair-uniqueness is untouched.
pub fn apply_update_at(store: &mut AccountStore, i: usize, update: CredentialUpdate) -> (r:
    Account)
    requires
        i < old(store).accounts@.len(),
    ensures
        r == updated_account_spec(old(store).accounts@[i as int], update),
        final(store).accounts@ == old(store).accounts@.update(i as int, r),
        pairs_unique(old(store).accounts@) ==> pairs_unique(final(store).accounts@),
{
    let ghost s = store.accounts@;
    let prev = store.accounts[i].clone();
    let merged = Account {
        id: prev.id.clone(),
        email: prev.email.clone(),
        provider: clone_opt(&prev.provider),
        added_at: prev.added_at,
        label: match &update.label {
            Some(l) => l.clone(),
            None => prev.label.clone(),
        },
        status: match update.status {
            Some(st) => st,
            None => prev.status,
        },
        access_token: update.access_token.apply(&prev.access_token),
        refresh_token: update.refresh_token.apply(&prev.refresh_token),
        csrf_token: update.csrf_token.apply(&prev.csrf_token),
        session_token: update.session_token.apply(&prev.session_token),
        expires_at: update.expires_at.apply(prev.expires_at),
        user_id: update.user_id.apply(&prev.user_id),
        client_id: update.client_id.apply(&prev.client_id),
        client_secret: update.client_secret.apply(&prev.client_secret),
        region: update.region.apply(&prev.region),
        client_id_hash: update.client_id_hash.apply(&prev.client_id_hash),
        sso_session_id: update.sso_session_id.apply(&prev.sso_session_id),
        id_token: update.id_token.apply(&prev.id_token),
        profile_arn: update.profile_arn.apply(&prev.profile_arn),
        usage_data: update.usage_data.apply(&prev.usage_data),
    };
    let r = merged.clone();
    store.accounts.set(i, merged);
    proof {
        if pairs_unique(s) {
            assert forall|x: int, y: int|
                0 <= x < y < store.accounts@.len() implies (
            #[trigger] store.accounts@[x]).pair_key() != (
            #[trigger] store.accounts@[y]).pair_key() by {
                assert(s[x].pair_key() != s[y].pair_key());
                assert(store.accounts@[x].pair_key() == s[x].pair_key());
                assert(store.accounts@[y].pair_key() == s[y].pair_key());
            }
        }
    }
    r
}

/// Update the record with this identifier in place, or report that none
/// carries it; nothing changes on that failure.
pub fn apply_update_by_id(store: &mut AccountStore, id: &String, update: CredentialUpdate) -> (r:
    Result<Account, AuthError>)
    ensures
        pairs_unique(old(store).accounts@) ==> pairs_unique(final(store).accounts@),
        ({
            let s = old(store).accounts@;
            if exists|i: int| 0 <= i < s.len() && (#[trigger] s[i]).id@ == id@ {
                exists|i: int|
                    {
                        &&& 0 <= i < s.len()
                        &&& (#[trigger] s[i]).id@ == id@
                        &&& (r matches Ok(a) && a == updated_account_spec(s[i], update)
                            && final(store).accounts@ == s.update(i, a))
                    }
            } else {
                r matches Err(AuthError::AccountNotFound) && final(store).accounts@ == s
            }
        }),
{
    match store.find_by_id(id) {
        Some(i) => {
            let a = apply_update_at(store, i, update);
            Ok(a)
        },
        None => Err(AuthError::AccountNotFound),
    }
}

/// A plan that touches nothing.
pub fn keep_everything(status: Option<AccountStatus>) -> (u: CredentialUpdate)
    ensures
        u.access_token is Keep,
        u.refresh_token is Keep,
        u.csrf_token is Keep,
        u.session_token is Keep,
        u.expires_at is Keep,
        u.user_id is Keep,
        u.client_id is Keep,
        u.client_secret is Keep,
        u.region is Keep,
        u.client_id_hash is Keep,
        u.sso_session_id is Keep,
        u.id_token is Keep,
        u.profile_arn is Keep,
        u.usage_data is Keep,
        u.label is None,
        u.status == status,
{
    CredentialUpdate {
        access_token: FieldUpdate::Keep,
        refresh_token: FieldUpdate::Keep,
        csrf_token: FieldUpdate::Keep,
        session_token: FieldUpdate::Keep,
        expires_at: ExpiryUpdate::Keep,
        user_id: FieldUpdate::Keep,
        client_id: FieldUpdate::Keep,
        client_secret: FieldUpdate::Keep,
        region: FieldUpdate::Keep,
        client_id_hash: FieldUpdate::Keep,
        sso_session_id: FieldUpdate::Keep,
        id_token: FieldUpdate::Keep,
        profile_arn: FieldUpdate::Keep,
        usage_data: FieldUpdate::Keep,
        label: None,
        status,
    }
}

/// The label a redirect-correlated login gives its account.
pub fn social_label(provider: &str) -> (r: String)
    ensures
        r@ == "Kiro "@ + provider@ + " account"@,
{
    let mut label = String::from_str("Kiro ");
    label.append(provider);
    label.append(" account");
    label
}

/// The label a web-portal login gives its account.
pub fn web_label(provider: &str) -> (r: String)
    ensures
        r@ == "Kiro "@ + provider@ + " (Web OAuth) account"@,
{
    let mut label = String::from_str("Kiro ");
    label.append(provider);
    label.append(" (Web OAuth) account");
    label
}

/// What a redirect-correlated login stores: the token set, the expiry, the
/// user, the profile and the usage snapshot. A stored web-flow csrf token is
/// preserved; a fresh record gets the login's own.
pub fn social_login_update(
    result: &AuthResult,
    user_id: Option<String>,
    usage_data: Option<String>,
    label: String,
) -> (u: CredentialUpdate)
    ensures
        u.access_token == FieldUpdate::Put(Some(result.access_token)),
        u.refresh_token == FieldUpdate::Put(Some(result.refresh_token)),
        u.csrf_token == FieldUpdate::KeepOrInit(result.csrf_token),
        u.session_token is Keep,
        u.expires_at == ExpiryUpdate::Put(result.expires_at),
        u.user_id == FieldUpdate::Put(user_id),
        u.client_id is Keep,
        u.client_secret is Keep,
        u.region is Keep,
        u.client_id_hash is Keep,
        u.sso_session_id is Keep,
        u.id_token is Keep,
        u.profile_arn == FieldUpdate::Put(result.profile_arn),
        u.usage_data == FieldUpdate::Put(usage_data),
        u.label == Some(label),
        u.status == Some(AccountStatus::Active),
{
    CredentialUpdate {
        access_token: FieldUpdate::Put(Some(result.access_token.clone())),
        refresh_token: FieldUpdate::Put(Some(result.refresh_token.clone())),
        csrf_token: FieldUpdate::KeepOrInit(clone_opt(&result.csrf_token)),
        session_token: FieldUpdate::Keep,
        expires_at: ExpiryUpdate::Put(result.expires_at),
        user_id: FieldUpdate::Put(user_id),
        client_id: FieldUpdate::Keep,
        client_secret: FieldUpdate::Keep,
        region: FieldUpdate::Keep,
        client_id_hash: FieldUpdate::Keep,
        sso_session_id: FieldUpdate::Keep,
        id_token: FieldUpdate::Keep,
        profile_arn: FieldUpdate::Put(clone_opt(&result.profile_arn)),
        usage_data: FieldUpdate::Put(usage_data),
        label: Some(label),
        status: Some(AccountStatus::Active),
    }
}

/// What a device-flow login stores: the token set, the expiry, the user, the
/// whole registration group, and the usage snapshot.
pub fn idc_login_update(
    result: &AuthResult,
    user_id: Option<String>,
    usage_data: Option<String>,
    suspended: bool,
) -> (u: CredentialUpdate)
    ensures
        u.access_token == FieldUpdate::Put(Some(result.access_token)),
        u.refresh_token == FieldUpdate::Put(Some(result.refresh_token)),
        u.csrf_token is Keep,
        u.session_token is Keep,
        u.expires_at == ExpiryUpdate::Put(result.expires_at),
        u.user_id == FieldUpdate::Put(user_id),
        u.client_id == FieldUpdate::Put(result.client_id),
        u.client_secret == FieldUpdate::Put(result.client_secret),
        u.region == FieldUpdate::Put(result.region),
        u.client_id_hash == FieldUpdate::Put(result.client_id_hash),
        u.sso_session_id == FieldUpdate::Put(result.sso_session_id),
        u.id_token == FieldUpdate::Put(result.id_token),
        u.profile_arn == FieldUpdate::Put(result.profile_arn),
        u.usage_data == FieldUpdate::Put(usage_data),
        u.label is None,
        u.status == Some(
            if suspended {
                AccountStatus::Suspended
            } else {
                AccountStatus::Active
            },
        ),
{
    CredentialUpdate {
        access_token: FieldUpdate::Put(Some(result.access_token.clone())),
        refresh_token: FieldUpdate::Put(Some(result.refresh_token.clone())),
        csrf_token: FieldUpdate::Keep,
        session_token: FieldUpdate::Keep,
        expires_at: ExpiryUpdate::Put(result.expires_at),
        user_id: FieldUpdate::Put(user_id),
        client_id: FieldUpdate::Put(clone_opt(&result.client_id)),
        client_secret: FieldUpdate::Put(clone_opt(&result.client_secret)),
        region: FieldUpdate::Put(clone_opt(&result.region)),
        client_id_hash: FieldUpdate::Put(clone_opt(&result.client_id_hash)),
        sso_session_id: FieldUpdate::Put(clone_opt(&result.sso_session_id)),
        id_token: FieldUpdate::Put(clone_opt(&result.id_token)),
        profile_arn: FieldUpdate::Put(clone_opt(&result.profile_arn)),
        usage_data: FieldUpdate::Put(usage_data),
        label: None,
        status: Some(
            if suspended {
                AccountStatus::Suspended
            } else {
                AccountStatus::Active
            },
        ),
    }
}

/// What adding an account by a bare refresh token stores: the fresh token
/// set, the user and the usage snapshot; stored expiry and flow-specific
/// fields stay.
pub fn social_add_update(
    access_token: String,
    refresh_token: String,
    user_id: Option<String>,
    usage_data: Option<String>,
    suspended: bool,
) -> (u: CredentialUpdate)
    ensures
        u.access_token == FieldUpdate::Put(Some(access_token)),
        u.refresh_token == FieldUpdate::Put(Some(refresh_token)),
        u.csrf_token is Keep,
        u.session_token is Keep,
        u.expires_at is Keep,
        u.user_id == FieldUpdate::Put(user_id),
        u.client_id is Keep,
        u.client_secret is Keep,
        u.region is Keep,
        u.client_id_hash is Keep,
        u.sso_session_id is Keep,
        u.id_token is Keep,
        u.profile_arn is Keep,
        u.usage_data == FieldUpdate::Put(usage_data),
        u.label is None,
        u.status == Some(
            if suspended {
                AccountStatus::Suspended
            } else {
                AccountStatus::Active
            },
        ),
{
    CredentialUpdate {
        access_token: FieldUpdate::Put(Some(access_token)),
        refresh_token: FieldUpdate::Put(Some(refresh_token)),
        csrf_token: FieldUpdate::Keep,
        session_token: FieldUpdate::Keep,
        expires_at: ExpiryUpdate::Keep,
        user_id: FieldUpdate::Put(user_id),
        client_id: FieldUpdate::Keep,
        client_secret: FieldUpdate::Keep,
        region: FieldUpdate::Keep,
        client_id_hash: FieldUpdate::Keep,
        sso_session_id: FieldUpdate::Keep,
        id_token: FieldUpdate::Keep,
        profile_arn: FieldUpdate::Keep,
        usage_data: FieldUpdate::Put(usage_data),
        label: None,
        status: Some(
            if suspended {
                AccountStatus::Suspended
            } else {
                AccountStatus::Active
            },
        ),
    }
}

/// What adding a device-flow account by its registration stores: the token
/// set, the expiry, the registration group and the usage snapshot.
pub fn idc_add_update(
    result: &AuthResult,
    client_id: String,
    client_secret: String,
    region: String,
    client_id_hash: String,
    user_id: Option<String>,
    usage_data: Option<String>,
    suspended: bool,
) -> (u: CredentialUpdate)
    ensures
        u.access_token == FieldUpdate::Put(Some(result.access_token)),
        u.refresh_token == FieldUpdate::Put(Some(result.refresh_token)),
        u.csrf_token is Keep,
        u.session_token is Keep,
        u.expires_at == ExpiryUpdate::Put(result.expires_at),
        u.user_id == FieldUpdate::Put(user_id),
        u.client_id == FieldUpdate::Put(Some(client_id)),
        u.client_secret == FieldUpdate::Put(Some(client_secret)),
        u.region == FieldUpdate::Put(Some(region)),
        u.client_id_hash == FieldUpdate::Put(Some(client_id_hash)),
        u.sso_session_id == FieldUpdate::Put(result.sso_session_id),
        u.id_token == FieldUpdate::Put(result.id_token),
        u.profile_arn is Keep,
        u.usage_data == FieldUpdate::Put(usage_data),
        u.label is None,
        u.status == Some(
            if suspended {
                AccountStatus::Suspended
            } else {
                AccountStatus::Active
            },
        ),
{
    CredentialUpdate {
        access_token: FieldUpdate::Put(Some(result.access_token.clone())),
        refresh_token: FieldUpdate::Put(Some(result.refresh_token.clone())),
        csrf_token: FieldUpdate::Keep,
        session_token: FieldUpdate::Keep,
        expires_at: ExpiryUpdate::Put(result.expires_at),
        user_id: FieldUpdate::Put(user_id),
        client_id: FieldUpdate::Put(Some(client_id)),
        client_secret: FieldUpdate::Put(Some(client_secret)),
        region: FieldUpdate::Put(Some(region)),
        client_id_hash: FieldUpdate::Put(Some(client_id_hash)),
        sso_session_id: FieldUpdate::Put(clone_opt(&result.sso_session_id)),
        id_token: FieldUpdate::Put(clone_opt(&result.id_token)),
        profile_arn: FieldUpdate::Keep,
        usage_data: FieldUpdate::Put(usage_data),
        label: None,
        status: Some(
            if suspended {
                AccountStatus::Suspended
            } else {
                AccountStatus::Active
            },
        ),
    }
}

/// What a completed web-portal login stores: the token set, the expiry, the
/// user, the profile, the fresh csrf token and the usage snapshot.
pub fn web_complete_update(
    result: &AuthResult,
    user_id: Option<String>,
    usage_data: Option<String>,
) -> (u: CredentialUpdate)
    ensures
        u.access_token == FieldUpdate::Put(Some(result.access_token)),
        u.refresh_token == FieldUpdate::Put(Some(result.refresh_token)),
        u.csrf_token == FieldUpdate::Put(result.csrf_token),
        u.session_token is Keep,
        u.expires_at == ExpiryUpdate::Put(result.expires_at),
        u.user_id == FieldUpdate::Put(user_id),
        u.client_id is Keep,
        u.client_secret is Keep,
        u.region is Keep,
        u.client_id_hash is Keep,
        u.sso_session_id is Keep,
        u.id_token is Keep,
        u.profile_arn == FieldUpdate::Put(result.profile_arn),
        u.usage_data == FieldUpdate::Put(usage_data),
        u.label is None,
        u.status == Some(AccountStatus::Active),
{
    CredentialUpdate {
        access_token: FieldUpdate::Put(Some(result.access_token.clone())),
        refresh_token: FieldUpdate::Put(Some(result.refresh_token.clone())),
        csrf_token: FieldUpdate::Put(clone_opt(&result.csrf_token)),
        session_token: FieldUpdate::Keep,
        expires_at: ExpiryUpdate::Put(result.expires_at),
        user_id: FieldUpdate::Put(user_id),
        client_id: FieldUpdate::Keep,
        client_secret: FieldUpdate::Keep,
        region: FieldUpdate::Keep,
        client_id_hash: FieldUpdate::Keep,
        sso_session_id: FieldUpdate::Keep,
        id_token: FieldUpdate::Keep,
        profile_arn: FieldUpdate::Put(clone_opt(&result.profile_arn)),
        usage_data: FieldUpdate::Put(usage_data),
        label: None,
        status: Some(AccountStatus::Active),
    }
}

/// What adding an account from caller-supplied tokens stores: the token set,
/// the user, the usage snapshot, and — when one is supplied — a csrf token.
pub fn kiro_account_update(
    access_token: String,
    refresh_token: String,
    user_id: Option<String>,
    csrf_token: Option<String>,
    usage_data: Option<String>,
) -> (u: CredentialUpdate)
    ensures
        u.access_token == FieldUpdate::Put(Some(access_token)),
        u.refresh_token == FieldUpdate::Put(Some(refresh_token)),
        u.csrf_token == match csrf_token {
            Some(c) => FieldUpdate::Put(Some(c)),
            None => FieldUpdate::Keep,
        },
        u.session_token is Keep,
        u.expires_at is Keep,
        u.user_id == FieldUpdate::Put(user_id),
        u.client_id is Keep,
        u.client_secret is Keep,
        u.region is Keep,
        u.client_id_hash is Keep,
        u.sso_session_id is Keep,
        u.id_token is Keep,
        u.profile_arn is Keep,
        u.usage_data == FieldUpdate::Put(usage_data),
        u.label is None,
        u.status == Some(AccountStatus::Active),
{
    CredentialUpdate {
        access_token: FieldUpdate::Put(Some(access_token)),
        refresh_token: FieldUpdate::Put(Some(refresh_token)),
        csrf_token: match csrf_token {
            Some(c) => FieldUpdate::Put(Some(c)),
            None => FieldUpdate::Keep,
        },
        session_token: FieldUpdate::Keep,
        expires_at: ExpiryUpdate::Keep,
        user_id: FieldUpdate::Put(user_id),
        client_id: FieldUpdate::Keep,
        client_secret: FieldUpdate::Keep,
        region: FieldUpdate::Keep,
        client_id_hash: FieldUpdate::Keep,
        sso_session_id: FieldUpdate::Keep,
        id_token: FieldUpdate::Keep,
        profile_arn: FieldUpdate::Keep,
        usage_data: FieldUpdate::Put(usage_data),
        label: None,
        status: Some(AccountStatus::Active),
    }
}

/// What a full synchronization stores on the record it refreshed: the fresh
/// token set and expiry, the usage snapshot, the status the usage lookup
/// decided, and — where the flow returned them — the profile, identity token
/// and session identifier.
pub fn sync_result_update(result: &AuthResult, usage_data: Option<String>, suspended: bool) -> (u:
    CredentialUpdate)
    ensures
        u.access_token == FieldUpdate::Put(Some(result.access_token)),
        u.refresh_token == FieldUpdate::Put(Some(result.refresh_token)),
        u.csrf_token is Keep,
        u.session_token is Keep,
        u.expires_at == ExpiryUpdate::Put(result.expires_at),
        u.user_id is Keep,
        u.client_id is Keep,
        u.client_secret is Keep,
        u.region is Keep,
        u.client_id_hash is Keep,
        u.sso_session_id == match result.sso_session_id {
            Some(s) => FieldUpdate::Put(Some(s)),
            None => FieldUpdate::Keep,
        },
        u.id_token == match result.id_token {
            Some(s) => FieldUpdate::Put(Some(s)),
            None => FieldUpdate::Keep,
        },
        u.profile_arn == match result.profile_arn {
            Some(s) => FieldUpdate::Put(Some(s)),
            None => FieldUpdate::Keep,
        },
        u.usage_data == FieldUpdate::Put(usage_data),
        u.label is None,
        u.status == Some(
            if suspended {
                AccountStatus::Suspended
            } else {
                AccountStatus::Active
            },
        ),
{
    CredentialUpdate {
        access_token: FieldUpdate::Put(Some(result.access_token.clone())),
        refresh_token: FieldUpdate::Put(Some(result.refresh_token.clone())),
        csrf_token: FieldUpdate::Keep,
        session_token: FieldUpdate::Keep,
        expires_at: ExpiryUpdate::Put(result.expires_at),
        user_id: FieldUpdate::Keep,
        client_id: FieldUpdate::Keep,
        client_secret: FieldUpdate::Keep,
        region: FieldUpdate::Keep,
        client_id_hash: FieldUpdate::Keep,
        sso_session_id: match &result.sso_session_id {
            Some(s) => FieldUpdate::Put(Some(s.clone())),
            None => FieldUpdate::Keep,
        },
        id_token: match &result.id_token {
            Some(s) => FieldUpdate::Put(Some(s.clone())),
            None => FieldUpdate::Keep,
        },
        profile_arn: match &result.profile_arn {
            Some(s) => FieldUpdate::Put(Some(s.clone())),
            None => FieldUpdate::Keep,
        },
        usage_data: FieldUpdate::Put(usage_data),
        label: None,
        status: Some(
            if suspended {
                AccountStatus::Suspended
            } else {
                AccountStatus::Active
            },
        ),
    }
}

/// What a token-only refresh stores: the fresh token set and expiry, and
/// nothing else — stored usage, status and flow fields stay.
pub fn token_refresh_update(result: &AuthResult) -> (u: CredentialUpdate)
    ensures
        u.access_token == FieldUpdate::Put(Some(result.access_token)),
        u.refresh_token == FieldUpdate::Put(Some(result.refresh_token)),
        u.csrf_token is Keep,
        u.session_token is Keep,
        u.expires_at == ExpiryUpdate::Put(result.expires_at),
        u.user_id is Keep,
        u.client_id is Keep,
        u.client_secret is Keep,
        u.region is Keep,
        u.client_id_hash is Keep,
        u.sso_session_id is Keep,
        u.id_token is Keep,
        u.profile_arn is Keep,
        u.usage_data is Keep,
        u.label is None,
        u.status is None,
{
    let mut u = keep_everything(None);
    u.access_token = FieldUpdate::Put(Some(result.access_token.clone()));
    u.refresh_token = FieldUpdate::Put(Some(result.refresh_token.clone()));
    u.expires_at = ExpiryUpdate::Put(result.expires_at);
    u
}

/// What a web-portal refresh stores: the fresh token set, csrf token and
/// expiry, the usage snapshot, an active status, and the profile where the
/// portal returned one.
pub fn web_refresh_update(result: &AuthResult, usage_data: Option<String>) -> (u: CredentialUpdate)
    ensures
        u.access_token == FieldUpdate::Put(Some(result.access_token)),
        u.refresh_token == FieldUpdate::Put(Some(result.refresh_token)),
        u.csrf_token == FieldUpdate::Put(result.csrf_token),
        u.session_token is Keep,
        u.expires_at == ExpiryUpdate::Put(result.expires_at),
        u.user_id is Keep,
        u.client_id is Keep,
        u.client_secret is Keep,
        u.region is Keep,
        u.client_id_hash is Keep,
        u.sso_session_id is Keep,
        u.id_token is Keep,
        u.profile_arn == match result.profile_arn {
            Some(s) => FieldUpdate::Put(Some(s)),
            None => FieldUpdate::Keep,
        },
        u.usage_data == FieldUpdate::Put(usage_data),
        u.label is None,
        u.status == Some(AccountStatus::Active),
{
    let mut u = keep_everything(Some(AccountStatus::Active));
    u.access_token = FieldUpdate::Put(Some(result.access_token.clone()));
    u.refresh_token = FieldUpdate::Put(Some(result.refresh_token.clone()));
    u.csrf_token = FieldUpdate::Put(clone_opt(&result.csrf_token));
    u.expires_at = ExpiryUpdate::Put(result.expires_at);
    u.profile_arn = match &result.profile_arn {
        Some(s) => FieldUpdate::Put(Some(s.clone())),
        None => FieldUpdate::Keep,
    };
    u.usage_data = FieldUpdate::Put(usage_data);
    u
}

/// What a manual edit stores: each field the caller supplied, and nothing
/// else.
pub fn manual_update(
    label: Option<String>,
    access_token: Option<String>,
    refresh_token: Option<String>,
    client_id: Option<String>,
    client_secret: Option<String>,
) -> (u: CredentialUpdate)
    ensures
        u.access_token == match access_token {
            Some(v) => FieldUpdate::Put(Some(v)),
            None => FieldUpdate::Keep,
        },
        u.refresh_token == match refresh_token {
            Some(v) => FieldUpdate::Put(Some(v)),
            None => FieldUpdate::Keep,
        },
        u.client_id == match client_id {
            Some(v) => FieldUpdate::Put(Some(v)),
            None => FieldUpdate::Keep,
        },
        u.client_secret == match client_secret {
            Some(v) => FieldUpdate::Put(Some(v)),
            None => FieldUpdate::Keep,
        },
        u.csrf_token is Keep,
        u.session_token is Keep,
        u.expires_at is Keep,
        u.user_id is Keep,
        u.region is Keep,
        u.client_id_hash is Keep,
        u.sso_session_id is Keep,
        u.id_token is Keep,
        u.profile_arn is Keep,
        u.usage_data is Keep,
        u.label == label,
        u.status is None,
{
    let mut u = keep_everything(None);
    u.label = label;
    u.access_token = match access_token {
        Some(v) => FieldUpdate::Put(Some(v)),
        None => FieldUpdate::Keep,
    };
    u.refresh_token = match refresh_token {
        Some(v) => FieldUpdate::Put(Some(v)),
        None => FieldUpdate::Keep,
    };
    u.client_id = match client_id {
        Some(v) => FieldUpdate::Put(Some(v)),
        None => FieldUpdate::Keep,
    };
    u.client_secret = match client_secret {
        Some(v) => FieldUpdate::Put(Some(v)),
        None => FieldUpdate::Keep,
    };
    u
}

/// What a verification stores on the record it refreshed: the fresh token
/// set, and nothing else.
pub fn verify_update(access_token: String, refresh_token: String) -> (u: CredentialUpdate)
    ensures
        u.access_token == FieldUpdate::Put(Some(access_token)),
        u.refresh_token == FieldUpdate::Put(Some(refresh_token)),
        u.csrf_token is Keep,
        u.session_token is Keep,
        u.expires_at is Keep,
        u.user_id is Keep,
        u.client_id is Keep,
        u.client_secret is Keep,
        u.region is Keep,
        u.client_id_hash is Keep,
        u.sso_session_id is Keep,
        u.id_token is Keep,
        u.profile_arn is Keep,
        u.usage_data is Keep,
        u.label is None,
        u.status is None,
{
    let mut u = keep_everything(None);
    u.access_token = FieldUpdate::Put(Some(access_token));
    u.refresh_token = FieldUpdate::Put(Some(refresh_token));
    u
}

/// Which refresh path a stored account takes: the device flow with its
/// registration metadata, or the desktop backend with the bare refresh
/// token.
#[derive(Debug, Clone)]
pub enum RefreshPlan {
    /// Refresh against the region's SSO backend.
    Device { refresh_token: String, metadata: RefreshMetadata, region: String },
    /// Refresh against the desktop backend.
    Desktop { refresh_token: String, profile_arn: Option<String> },
}

/// Decide how to refresh a stored account: a device-flow record goes to the
/// SSO backend with its registration metadata, everything else to the
/// desktop backend; an account without a refresh token cannot be refreshed.
pub fn sync_plan(account: &Account) -> (r: Result<RefreshPlan, AuthError>)
    ensures
        account.refresh_token is None ==> (r matches Err(AuthError::MissingMetadata(f)) && f@
            == "refresh_token"@),
        account.refresh_token matches Some(tok) ==> if opt_str(account.provider) == Some(
            "BuilderId"@,
        ) {
            r matches Ok(RefreshPlan::Device { refresh_token, metadata, region }) && {
                &&& refresh_token == tok
                &&& metadata.client_id == account.client_id
                &&& metadata.client_secret == account.client_secret
                &&& metadata.region == account.region
                &&& metadata.client_id_hash is None
                &&& metadata.profile_arn is None
                &&& region@ == match account.region {
                    Some(reg) => reg@,
                    None => "us-east-1"@,
                }
            }
        } else {
            r matches Ok(RefreshPlan::Desktop { refresh_token, profile_arn }) && refresh_token
                == tok && profile_arn == account.profile_arn
        },
{
    let refresh_token = match &account.refresh_token {
        Some(tok) => tok.clone(),
        None => {
            return Err(AuthError::MissingMetadata(String::from_str("refresh_token")));
        },
    };
    let is_device = match &account.provider {
        Some(p) => string_eq_str(p, "BuilderId"),
        None => false,
    };
    if is_device {
        let metadata = RefreshMetadata {
            client_id: clone_opt(&account.client_id),
            client_secret: clone_opt(&account.client_secret),
            region: clone_opt(&account.region),
            client_id_hash: None,
            profile_arn: None,
        };
        let region = match &account.region {
            Some(reg) => reg.clone(),
            None => String::from_str("us-east-1"),
        };
        Ok(RefreshPlan::Device { refresh_token, metadata, region })
    } else {
        Ok(RefreshPlan::Desktop { refresh_token, profile_arn: clone_opt(&account.profile_arn) })
    }
}

/// Whether a provider identifier names a device-flow backend.
pub fn is_idc_provider(provider: &String) -> (r: bool)
    ensures
        r == (provider@ == "BuilderId"@ || provider@ == "Enterprise"@),
{
    string_eq_str(provider, "BuilderId") || string_eq_str(provider, "Enterprise")
}

/// The index of the first record whose stored refresh token equals this one.
pub fn find_by_refresh_token(store: &AccountStore, token: &String) -> (r: Option<usize>)
    ensures
        match r {
            Some(i) => 0 <= i < store.accounts@.len() && opt_str(
                store.accounts@[i as int].refresh_token,
            ) == Some(token@),
            None => forall|j: int|
                0 <= j < store.accounts@.len() ==> opt_str(
                    (#[trigger] store.accounts@[j]).refresh_token,
                ) != Some(token@),
        },
{
    let n = store.accounts.len();
    for i in 0..n
        invariant
            n == store.accounts@.len(),
            forall|j: int|
                0 <= j < i ==> opt_str((#[trigger] store.accounts@[j]).refresh_token) != Some(
                    token@,
                ),
    {
        let matches_token = match &store.accounts[i].refresh_token {
            Some(t) => string_eq(t, token),
            None => false,
        };
        if matches_token {
            return Some(i);
        }
    }
    None
}

/// Read a usage lookup's outcome: the snapshot on success, and whether the
/// failure marks the account suspended — only the suspension error does;
/// any other failure leaves the stored status alone.
pub fn assess_usage_outcome(call: Result<UsageSummary, AuthError>) -> (r: (
    Option<UsageSummary>,
    bool,
))
    ensures
        match call {
            Ok(u) => r.0 == Some(u) && r.1 == false,
            Err(e) => r.0 is None && r.1 == (e is AccountSuspended),
        },
{
    match call {
        Ok(u) => (Some(u), false),
        Err(AuthError::AccountSuspended(_)) => (None, true),
        Err(_) => (None, false),
    }
}

/// The identity provider behind a bare refresh token: the caller's word if
/// given, else a guess from the account's mail domain, defaulting to the
/// first known provider.
pub fn infer_social_provider(provider: Option<String>, email: &str) -> (r: String)
    ensures
        match provider {
            Some(p) => r == p,
            None => if seq_contains(email@, "gmail"@) {
                r@ == "Google"@
            } else if seq_contains(email@, "github"@) {
                r@ == "Github"@
            } else {
                r@ == "Google"@
            },
        },
{
    match provider {
        Some(p) => p,
        None => {
            if str_contains(email, "gmail") {
                String::from_str("Google")
            } else if str_contains(email, "github") {
                String::from_str("Github")
            } else {
                String::from_str("Google")
            }
        },
    }
}

/// A supplied value, or the given fallback.
pub fn choose_or_default(v: Option<String>, fallback: &str) -> (r: String)
    ensures
        match v {
            Some(s) => r == s,
            None => r@ == fallback@,
        },
{
    match v {
        Some(s) => s,
        None => fallback.to_owned(),
    }
}

/// What a verification reports back: the first usage breakdown, the
/// subscription kind, and the fresh token set.
#[derive(Debug, Clone)]
pub struct VerifyAccountResponse {
    pub usage_limit: Option<i32>,
    pub current_usage: Option<i32>,
    pub subscription_type: Option<String>,
    pub access_token: String,
    pub refresh_token: String,
}

/// Assemble a verification report from the fresh tokens and the usage
/// summary.
pub fn build_verify_response(
    access_token: String,
    refresh_token: String,
    usage: &UsageSummary,
) -> (r: VerifyAccountResponse)
    ensures
        r.usage_limit == usage.usage_limit,
        r.current_usage == usage.current_usage,
        r.subscription_type == usage.subscription_type,
        r.access_token == access_token,
        r.refresh_token == refresh_token,
{
    VerifyAccountResponse {
        usage_limit: usage.usage_limit,
        current_usage: usage.current_usage,
        subscription_type: clone_opt(&usage.subscription_type),
        access_token,
        refresh_token,
    }
}

/// Export the selected accounts, or every account when no selection — or an
/// empty one — was given.
pub fn export_accounts(store: &AccountStore, ids: Option<Vec<String>>) -> (r: Vec<Account>)
    ensures
        match ids {
            Some(list) => if list@.len() > 0 {
                r@ == store.accounts@.filter(
                    |a: Account| crate::store::contains_string(list@, a.id@),
                )
            } else {
                r@ == store.accounts@
            },
            None => r@ == store.accounts@,
        },
{
    match ids {
        Some(list) => {
            if list.len() > 0 {
                store.export_selected(&list)
            } else {
                store.get_all()
            }
        },
        None => store.get_all(),
    }
}

/// What a web-portal refresh needs from a stored account: the access token,
/// the csrf token that marks the record as a portal account, the session
/// token, and the provider. Each missing one is reported by name.
pub fn web_refresh_inputs(account: &Account) -> (r: Result<
    (String, String, String, String),
    AuthError,
>)
    ensures
        account.csrf_token is None ==> (r matches Err(AuthError::MissingMetadata(f)) && f@
            == "csrf_token"@),
        account.csrf_token is Some && account.access_token is None ==> (r matches Err(
            AuthError::MissingMetadata(f),
        ) && f@ == "access_token"@),
        account.csrf_token is Some && account.access_token is Some && account.refresh_token
            is None ==> (r matches Err(AuthError::MissingMetadata(f)) && f@ == "refresh_token"@),
        account.csrf_token is Some && account.access_token is Some && account.refresh_token
            is Some && account.provider is None ==> (r matches Err(AuthError::MissingMetadata(f))
            && f@ == "provider"@),
        match (account.csrf_token, account.access_token, account.refresh_token, account.provider) {
            (Some(csrf), Some(acc), Some(refr), Some(prov)) => r matches Ok(inputs) && inputs.0
                == acc && inputs.1 == csrf && inputs.2 == refr && inputs.3 == prov,
            _ => true,
        },
{
    let csrf = match &account.csrf_token {
        Some(c) => c.clone(),
        None => {
            return Err(AuthError::MissingMetadata(String::from_str("csrf_token")));
        },
    };
    let access = match &account.access_token {
        Some(a) => a.clone(),
        None => {
            return Err(AuthError::MissingMetadata(String::from_str("access_token")));
        },
    };
    let refresh = match &account.refresh_token {
        Some(t) => t.clone(),
        None => {
            return Err(AuthError::MissingMetadata(String::from_str("refresh_token")));
        },
    };
    let provider = match &account.provider {
        Some(p) => p.clone(),
        None => {
            return Err(AuthError::MissingMetadata(String::from_str("provider")));
        },
    };
    Ok((access, csrf, refresh, provider))
}

/// What a portal-session import stores: the token set, the registration it
/// created, the region, the derived registration key, a one-hour expiry, the
/// user and the usage snapshot.
pub fn sso_import_update(
    access_token: String,
    refresh_token: String,
    client_id: String,
    client_secret: String,
    region: String,
    client_id_hash: String,
    expires_at: i64,
    user_id: Option<String>,
    usage_data: Option<String>,
) -> (u: CredentialUpdate)
    ensures
        u.access_token == FieldUpdate::Put(Some(access_token)),
        u.refresh_token == FieldUpdate::Put(Some(refresh_token)),
        u.csrf_token is Keep,
        u.session_token is Keep,
        u.expires_at == ExpiryUpdate::Put(expires_at),
        u.user_id == FieldUpdate::Put(user_id),
        u.client_id == FieldUpdate::Put(Some(client_id)),
        u.client_secret == FieldUpdate::Put(Some(client_secret)),
        u.region == FieldUpdate::Put(Some(region)),
        u.client_id_hash == FieldUpdate::Put(Some(client_id_hash)),
        u.sso_session_id is Keep,
        u.id_token is Keep,
        u.profile_arn is Keep,
        u.usage_data == FieldUpdate::Put(usage_data),
        u.label is None,
        u.status == Some(AccountStatus::Active),
{
    let mut u = keep_everything(Some(AccountStatus::Active));
    u.access_token = FieldUpdate::Put(Some(access_token));
    u.refresh_token = FieldUpdate::Put(Some(refresh_token));
    u.expires_at = ExpiryUpdate::Put(expires_at);
    u.user_id = FieldUpdate::Put(user_id);
    u.client_id = FieldUpdate::Put(Some(client_id));
    u.client_secret = FieldUpdate::Put(Some(client_secret));
    u.region = FieldUpdate::Put(Some(region));
    u.client_id_hash = FieldUpdate::Put(Some(client_id_hash));
    u.usage_data = FieldUpdate::Put(usage_data);
    u
}

} // verus!


