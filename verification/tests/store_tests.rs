use kiro_auth::store::Account;
use kiro_auth::store::AccountStatus;
use kiro_auth::store::AccountStore;

fn account(email: &str, provider: &str) -> Account {
    let mut a = Account::new(email.to_string(), format!("{} account", provider));
    a.provider = Some(provider.to_string());
    a.access_token = Some("at".to_string());
    a.refresh_token = Some("rt".to_string());
    a
}

#[test]
fn new_account_has_fresh_identity() {
    let a = Account::new("a@b.c".to_string(), "label".to_string());
    assert_eq!(a.id.len(), 36);
    assert_eq!(a.email, "a@b.c");
    assert_eq!(a.label, "label");
    assert!(matches!(a.status, AccountStatus::Active));
    assert!(a.access_token.is_none());
    assert!(a.provider.is_none());
}

#[test]
fn two_new_accounts_have_distinct_ids() {
    let a = Account::new("a@b.c".to_string(), "l".to_string());
    let b = Account::new("a@b.c".to_string(), "l".to_string());
    assert_ne!(a.id, b.id);
}

#[test]
fn upsert_inserts_new_pair_at_front() {
    let mut store = AccountStore::new();
    store.upsert(account("one@x.y", "Google"));
    store.upsert(account("two@x.y", "Google"));
    assert_eq!(store.accounts.len(), 2);
    assert_eq!(store.accounts[0].email, "two@x.y");
    assert_eq!(store.accounts[1].email, "one@x.y");
}

#[test]
fn upsert_same_pair_never_duplicates() {
    let mut store = AccountStore::new();
    let first = store.upsert(account("one@x.y", "Google"));
    let mut second = account("one@x.y", "Google");
    second.access_token = Some("newer".to_string());
    let merged = store.upsert(second);
    assert_eq!(store.accounts.len(), 1);
    // the identity of the first record survives the second login
    assert_eq!(merged.id, first.id);
    assert_eq!(merged.added_at, first.added_at);
    assert_eq!(merged.access_token.as_deref(), Some("newer"));
}

#[test]
fn upsert_same_email_other_provider_is_a_new_account() {
    let mut store = AccountStore::new();
    store.upsert(account("one@x.y", "Google"));
    store.upsert(account("one@x.y", "BuilderId"));
    assert_eq!(store.accounts.len(), 2);
}

#[test]
fn delete_removes_exactly_the_identified_record() {
    let mut store = AccountStore::new();
    let kept = store.upsert(account("keep@x.y", "Google"));
    let gone = store.upsert(account("gone@x.y", "Google"));
    assert!(store.delete(&gone.id));
    assert_eq!(store.accounts.len(), 1);
    assert_eq!(store.accounts[0].id, kept.id);
    assert!(!store.delete(&"no-such-id".to_string()));
}

#[test]
fn delete_many_counts_removed_records() {
    let mut store = AccountStore::new();
    let a = store.upsert(account("a@x.y", "Google"));
    let b = store.upsert(account("b@x.y", "Google"));
    store.upsert(account("c@x.y", "Google"));
    let removed = store.delete_many(&vec![a.id.clone(), b.id.clone(), "ghost".to_string()]);
    assert_eq!(removed, 2);
    assert_eq!(store.accounts.len(), 1);
}

#[test]
fn import_skips_records_already_present_by_id() {
    let mut store = AccountStore::new();
    let stored = store.upsert(account("a@x.y", "Google"));
    let mut duplicate = account("a2@x.y", "Google");
    duplicate.id = stored.id.clone();
    let fresh = account("b@x.y", "Google");
    let count = store.import(vec![duplicate, fresh]);
    assert_eq!(count, 2);
    assert_eq!(store.accounts.len(), 2);
}

#[test]
fn importing_the_same_export_twice_changes_nothing() {
    let mut store = AccountStore::new();
    store.upsert(account("a@x.y", "Google"));
    store.upsert(account("b@x.y", "BuilderId"));
    let export = store.get_all();
    let mut other = AccountStore::new();
    other.import(export.clone());
    let after_first = other.accounts.len();
    other.import(export);
    assert_eq!(other.accounts.len(), after_first);
    assert_eq!(after_first, 2);
}

#[test]
fn export_then_import_rebuilds_the_same_records() {
    let mut store = AccountStore::new();
    store.upsert(account("a@x.y", "Google"));
    store.upsert(account("b@x.y", "BuilderId"));
    let export = store.get_all();
    let mut rebuilt = AccountStore::new();
    rebuilt.import(export);
    assert_eq!(rebuilt.accounts.len(), store.accounts.len());
    for (orig, copy) in store.accounts.iter().zip(rebuilt.accounts.iter()) {
        assert_eq!(orig.id, copy.id);
        assert_eq!(orig.email, copy.email);
        assert_eq!(orig.provider, copy.provider);
        assert_eq!(orig.access_token, copy.access_token);
        assert_eq!(orig.refresh_token, copy.refresh_token);
        assert_eq!(orig.added_at, copy.added_at);
    }
}

#[test]
fn export_selected_filters_by_id() {
    let mut store = AccountStore::new();
    let a = store.upsert(account("a@x.y", "Google"));
    store.upsert(account("b@x.y", "Google"));
    let picked = store.export_selected(&vec![a.id.clone()]);
    assert_eq!(picked.len(), 1);
    assert_eq!(picked[0].email, "a@x.y");
}
