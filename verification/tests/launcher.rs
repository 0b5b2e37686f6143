use phanerite::launcher::{first_by_username, rescoped_route, sorts_before, Phanerite};
use phanerite::route::{CrashRef, InstanceRef, Route};
use phanerite::seed::{seed_instances, storage_ident};
use phanerite::state::{AccountStore, AccountSummary, AccountType};
use phanerite::{APP_ID, APP_NAME, APP_WINDOW_TITLE};

fn account(id: &str, name: &str) -> AccountSummary {
    AccountSummary {
        id: id.into(),
        username: name.into(),
        account_type: AccountType::Offline,
        last_used: "now".into(),
        auth_server: None,
        active_profile_id: format!("profile-{id}"),
        profiles: Vec::new(),
    }
}

#[test]
fn application_identity() {
    assert_eq!(APP_NAME, "Phanerite");
    assert_eq!(APP_WINDOW_TITLE, "Phanerite Launcher");
    assert_eq!(APP_ID, "org.feniota.phanerite");
}

#[test]
fn usernames_sort_like_strings() {
    for (a, b) in [("a", "b"), ("", "a"), ("Z", "a"), ("ab", "abc"), ("Builder", "enita"), ("é", "ê")] {
        assert_eq!(sorts_before(a, b), a < b, "{a} < {b}");
        assert_eq!(sorts_before(b, a), b < a, "{b} < {a}");
    }
    assert!(!sorts_before("same", "same"));
}

#[test]
fn the_first_least_username_is_chosen() {
    let accounts = vec![
        account("1", "enita"),
        account("2", "Builder"),
        account("3", "alex"),
        account("4", "Builder"),
    ];
    assert_eq!(first_by_username(&accounts), Some(1));
    assert_eq!(first_by_username(&accounts[2..]), Some(1));
    assert_eq!(first_by_username(&accounts[..1]), Some(0));
    assert_eq!(first_by_username(&[]), None);
}

#[test]
fn start_up_scopes_the_gallery_to_the_opened_storage() {
    let storage = storage_ident(5);
    let accounts = AccountStore::new(vec![account("acc-enita", "enita"), account("acc-builder", "Builder")]);
    let launcher = Phanerite::new(storage, accounts);
    let app = &launcher.app;
    assert_eq!(app.route(), &Route::Play);
    assert_eq!(app.storage(), Some(storage));
    assert_eq!(app.instances.storage_context(), Some(storage));
    assert_eq!(app.instances.all(), seed_instances(storage).as_slice());
    assert_eq!(app.crashes.all().len(), 4);
    assert!(app.crashes.all().iter().all(|report| report.storage_id == storage));
    assert_eq!(app.accounts.active_id().as_deref(), Some("acc-builder"));
    assert_eq!(app.settings.runtimes().len(), 3);
    assert!(!app.settings.runtimes().is_empty());

    let empty = Phanerite::new(storage, AccountStore::default());
    assert_eq!(empty.app.accounts.active_id(), None);
}

#[test]
fn start_up_routes_move_into_the_opened_storage() {
    let storage = storage_ident(5);
    let route = Route::Mods(InstanceRef::new(storage_ident(0), "inst-fog"));
    let launcher = Phanerite::new_with_route(storage, AccountStore::default(), Some(route));
    assert_eq!(launcher.app.route(), &Route::Mods(InstanceRef::new(storage, "inst-fog")));
    assert_eq!(
        rescoped_route(Route::Crash(CrashRef::new(storage_ident(0), "crash-jvm")), storage),
        Route::Crash(CrashRef::new(storage, "crash-jvm"))
    );
    assert_eq!(rescoped_route(Route::Settings, storage), Route::Settings);
}
