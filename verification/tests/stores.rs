//! Integration tests for application store mutation and notification behavior.

use phanerite::route::InstanceRef;
use phanerite::seed::{seed_instances, storage_ident};
use phanerite::state::{
    AccountStore, AccountSummary, AccountType, CrashStore, InstanceStore, LaunchJob,
    LaunchStore, Loader, SessionId, SessionStore, SessionSummary, SettingsStore,
};

#[test]
fn instance_equal_mutations_do_not_notify() {
    let id = storage_ident(1);
    let mut store = InstanceStore::new(seed_instances(id.clone()));
    store.set_storage_context(id.clone());
    let reference = InstanceRef::new(id, "inst-fog");
    assert!(!store.set_mod_enabled(&reference, "m-sodium", true));
    assert!(store.set_mod_enabled(&reference, "m-sodium", false));
    assert!(!store.set_mod_enabled(&reference, "m-sodium", false));
}

#[test]
fn stale_storage_results_are_ignored() {
    let one = storage_ident(1);
    let two = storage_ident(2);
    let mut store = InstanceStore::new(Vec::new());
    store.set_storage_context(two.clone());
    let registered = [one];
    assert!(!store.apply_for_storage(&registered, one, seed_instances(storage_ident(1))));
    assert!(store.all().is_empty());
}

#[test]
fn settings_equal_values_do_not_notify() {
    let mut store = SettingsStore::default();
    assert!(!store.set_accent("emerald"));
    assert!(store.set_accent("gold"));
    assert!(!store.set_accent("gold"));
}

fn offline_account(id: &str, name: &str) -> AccountSummary {
    AccountSummary {
        id: id.into(),
        username: name.into(),
        account_type: AccountType::Offline,
        last_used: "now".into(),
        auth_server: None,
        active_profile_id: format!("profile-{id}"),
        profiles: Vec::new(),
    }
}

#[test]
fn all_mutable_stores_ignore_equal_values() {
    let mut accounts = AccountStore::new(vec![
        offline_account("acc-enita", "Enita_Nureya"),
        offline_account("acc-steve", "Steve"),
        offline_account("acc-alex", "alex_03"),
    ]);
    assert!(!accounts.set_active_profile("acc-enita", "profile-enita"));
    assert_eq!(accounts.revision(), 0);

    let mut launch = LaunchStore::default();
    let reference = InstanceRef::new(storage_ident(1), "inst-fog");
    let job = LaunchJob::new(reference.clone(), "The Fog", "the-fog", Loader::Fabric);
    assert!(launch.start(job.clone()));
    assert!(!launch.start(job));
    assert!(launch.finish(&reference));
    assert_eq!(launch.revision(), 2);

    let mut sessions = SessionStore::default();
    let session = SessionSummary {
        id: SessionId::new("session-a"),
        instance: reference,
        started_at: "now".into(),
        exit_code: None,
        running: true,
    };
    assert!(sessions.start(session.clone()));
    assert!(!sessions.start(session));
    assert!(!sessions.finish(&SessionId::new("missing"), 1));
    assert_eq!(sessions.revision(), 1);

    let storage = storage_ident(5);
    let registered = [storage];
    let mut crashes = CrashStore::default();
    crashes.set_storage_context(storage);
    assert!(!crashes.apply_for_storage(&registered, storage, vec![]));
    assert_eq!(crashes.revision(), 0);
}

#[test]
fn storage_registry_and_context_both_guard_late_results() {
    let a = storage_ident(11);
    let b = storage_ident(12);
    let registered = [a, b];
    let mut store = InstanceStore::new(Vec::new());
    store.set_storage_context(a);
    assert!(store.apply_for_storage(&registered, a, seed_instances(a)));
    assert_eq!(store.all()[0].storage_id, a);
    store.set_storage_context(b);
    assert!(!store.apply_for_storage(&registered, a, seed_instances(a)));
    assert_eq!(store.all()[0].storage_id, a);
    assert!(store.apply_for_storage(&registered, b, seed_instances(b)));
    assert_eq!(store.all()[0].storage_id, b);
}
