//! The settings records the caller persists, and the one rule about them
//! this crate owns: saving merges field by field, so an update that names
//! only some fields leaves the others as they were.

use vstd::prelude::*;

verus! {

/// This application's own settings.
#[derive(Debug, Clone)]
pub struct AppSettings {
    pub theme: Option<String>,
    pub lock_model: Option<bool>,
    pub locked_model: Option<String>,
    pub auto_refresh: Option<bool>,
    pub auto_refresh_interval: Option<i32>,
    pub auto_change_machine_id: Option<bool>,
    pub browser_path: Option<String>,
    pub bind_machine_id_to_account: Option<bool>,
    pub use_bound_machine_id: Option<bool>,
    /// Account identifier to machine identifier, as a list of pairs.
    pub account_machine_ids: Option<Vec<(String, String)>>,
}

/// The target IDE's settings this crate reads or writes.
#[derive(Debug, Clone)]
pub struct KiroSettings {
    pub http_proxy: Option<String>,
    pub model_selection: Option<String>,
}

/// A detected system proxy.
#[derive(Debug, Clone)]
pub struct SystemProxyInfo {
    pub enabled: bool,
    pub proxy_server: Option<String>,
    pub http_proxy: Option<String>,
}

/// A browser found on this machine.
#[derive(Debug, Clone)]
pub struct DetectedBrowser {
    pub name: String,
    pub path: String,
    pub incognito_arg: String,
}

/// One steering document.
#[derive(Debug, Clone)]
pub struct SteeringFile {
    pub file_name: String,
    pub content: String,
    pub size: u64,
    pub modified_at: Option<String>,
}

/// Merge a settings update over the stored settings: every field the update
/// names replaces the stored one, every field it leaves out survives.
pub fn merge_app_settings(current: AppSettings, updates: AppSettings) -> (r: AppSettings)
    ensures
        r.theme == merged(current.theme, updates.theme),
        r.lock_model == merged(current.lock_model, updates.lock_model),
        r.locked_model == merged(current.locked_model, updates.locked_model),
        r.auto_refresh == merged(current.auto_refresh, updates.auto_refresh),
        r.auto_refresh_interval == merged(
            current.auto_refresh_interval,
            updates.auto_refresh_interval,
        ),
        r.auto_change_machine_id == merged(
            current.auto_change_machine_id,
            updates.auto_change_machine_id,
        ),
        r.browser_path == merged(current.browser_path, updates.browser_path),
        r.bind_machine_id_to_account == merged(
            current.bind_machine_id_to_account,
            updates.bind_machine_id_to_account,
        ),
        r.use_bound_machine_id == merged(
            current.use_bound_machine_id,
            updates.use_bound_machine_id,
        ),
        r.account_machine_ids == merged(current.account_machine_ids, updates.account_machine_ids),
{
    AppSettings {
        theme: pick(current.theme, updates.theme),
        lock_model: pick(current.lock_model, updates.lock_model),
        locked_model: pick(current.locked_model, updates.locked_model),
        auto_refresh: pick(current.auto_refresh, updates.auto_refresh),
        auto_refresh_interval: pick(current.auto_refresh_interval, updates.auto_refresh_interval),
        auto_change_machine_id: pick(
            current.auto_change_machine_id,
            updates.auto_change_machine_id,
        ),
        browser_path: pick(current.browser_path, updates.browser_path),
        bind_machine_id_to_account: pick(
            current.bind_machine_id_to_account,
            updates.bind_machine_id_to_account,
        ),
        use_bound_machine_id: pick(current.use_bound_machine_id, updates.use_bound_machine_id),
        account_machine_ids: pick(current.account_machine_ids, updates.account_machine_ids),
    }
}

/// An update's value when it names one, else the stored value.
pub open spec fn merged<T>(current: Option<T>, update: Option<T>) -> Option<T> {
    match update {
        Some(v) => Some(v),
        None => current,
    }
}

/// An update's value when it names one, else the stored value.
fn pick<T>(current: Option<T>, update: Option<T>) -> (r: Option<T>)
    ensures
        r == merged(current, update),
{
    match update {
        Some(v) => Some(v),
        None => current,
    }
}

} // verus!
