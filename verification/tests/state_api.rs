use phanerite::route::{InstanceRef, Route, StorageId};
use phanerite::seed::{seed_crash_reports, seed_instances, storage_ident};
use phanerite::state::{
    AccountStore, AppState, CrashStore, InstanceStore, LaunchJob, LaunchPhase, LaunchStore, LaunchValue,
    Loader, QuickPlayMode, SessionId, SessionStore, SessionSummary, Settings, SettingsStore,
};

fn app(storages: Vec<StorageId>, default: Option<StorageId>) -> AppState {
    let storage = storage_ident(3);
    AppState::new(
        storages,
        default,
        InstanceStore::new(seed_instances(storage)),
        AccountStore::new(Vec::new()),
        SettingsStore::new(Settings::default(), Vec::new()),
        CrashStore::new(seed_crash_reports(storage)),
        SessionStore::new(),
    )
}

#[test]
fn storages_keep_a_registered_default() {
    let a = storage_ident(1);
    let b = storage_ident(2);
    let mut state = app(Vec::new(), None);
    assert_eq!(state.route(), &Route::Setup);
    assert_eq!(state.add_storage(a), Some(a));
    assert_eq!(state.storage(), Some(a));
    assert_eq!(state.add_storage(a), None);
    assert_eq!(state.add_storage(b), Some(b));
    assert_eq!(state.storage(), Some(a));
    assert!(state.set_default_storage(b));
    assert!(!state.set_default_storage(b));
    assert!(!state.set_default_storage(storage_ident(9)));
    // The default goes only with a registered replacement.
    assert!(!state.remove_storage(b, None));
    assert!(!state.remove_storage(b, Some(storage_ident(9))));
    assert!(state.remove_storage(b, Some(a)));
    assert_eq!(state.storage(), Some(a));
    assert!(!state.remove_storage(b, None));
    assert!(state.remove_storage(a, None));
    assert_eq!(state.storage(), None);
}

#[test]
fn opening_an_instance_needs_a_known_instance() {
    let storage = storage_ident(3);
    let mut state = app(vec![storage], Some(storage));
    assert_eq!(state.route(), &Route::Play);
    state.open_instance(InstanceRef::new(storage, "missing"));
    assert_eq!(state.route(), &Route::Play);
    state.open_instance(InstanceRef::new(storage, "inst-neo"));
    assert_eq!(state.route(), &Route::InstanceDetail(InstanceRef::new(storage, "inst-neo")));
    state.back();
    assert_eq!(state.route(), &Route::Play);
}

#[test]
fn loaders_and_values_read_back() {
    assert_eq!(Loader::from_key("neoforge"), Some(Loader::NeoForge));
    assert_eq!(Loader::from_key("NeoForge"), None);
    assert_eq!(QuickPlayMode::Server.target_placeholder(), "Server address");
    assert_eq!(QuickPlayMode::Off.target_placeholder(), "");
    assert_eq!(LaunchValue::Text("x".to_owned()).as_text(), "x");
    assert_eq!(LaunchValue::Number(3).as_text(), "");
    assert_eq!(LaunchValue::Number(3).as_number(), 3);
    assert_eq!(LaunchValue::Flag(true).as_number(), 0);
    assert!(LaunchValue::Flag(true).as_flag());
    assert!(!LaunchValue::Flag(false).as_flag());
    assert!(!LaunchValue::Text("true".to_owned()).as_flag());
    assert_eq!(storage_ident(42).to_string(), "42");
    let reports = seed_crash_reports(storage_ident(3));
    assert!(reports[0].findings[0].has_action());
    assert!(!reports[1].findings[0].has_action());
}

#[test]
fn instance_groups_and_favorites() {
    let storage = storage_ident(3);
    let mut store = InstanceStore::new(seed_instances(storage));
    let ids = |list: Vec<&phanerite::state::InstanceSummary>| -> Vec<String> { list.iter().map(|i| i.id.clone()).collect() };
    assert_eq!(ids(store.aphanite_unfavorited()), vec!["inst-neo", "inst-create"]);
    let neo = InstanceRef::new(storage, "inst-neo");
    assert!(!store.toggle_favorite(&neo));
    store.set_storage_context(storage);
    assert!(store.toggle_favorite(&neo));
    assert_eq!(ids(store.aphanite_unfavorited()), vec!["inst-create"]);
    assert!(store.toggle_favorite(&neo));
    assert_eq!(ids(store.aphanite_unfavorited()), vec!["inst-neo", "inst-create"]);
}

#[test]
fn sessions_count_and_find_running_games() {
    let fog = InstanceRef::new(storage_ident(1), "inst-fog");
    let mut sessions = SessionStore::new();
    assert_eq!(sessions.running_count(), 0);
    assert!(sessions.session_for(&fog).is_none());
    assert!(sessions.start(SessionSummary {
        id: SessionId::new("s-1"),
        instance: fog.clone(),
        started_at: "now".into(),
        exit_code: None,
        running: true,
    }));
    assert_eq!(sessions.running_count(), 1);
    assert_eq!(sessions.session_for(&fog).map(|s| s.id.as_str()), Some("s-1"));
    assert!(sessions.stop_instance(&fog, 0));
    assert_eq!(sessions.running_count(), 0);
    assert!(sessions.session_for(&fog).is_none());
}

#[test]
fn launch_jobs_move_through_phases_and_fail_once() {
    let fog = InstanceRef::new(storage_ident(1), "inst-fog");
    let mut launch = LaunchStore::new();
    assert!(!launch.update(&fog, LaunchPhase::Resolving, 1500));
    assert!(launch.start(LaunchJob::new(fog.clone(), "The Fog", "the-fog", Loader::Fabric)));
    assert!(launch.update(&fog, LaunchPhase::Resolving, 1500));
    assert!(!launch.update(&fog, LaunchPhase::Resolving, 1500));
    assert_eq!(launch.get(&fog).map(|job| job.progress), Some(1500));
    assert!(launch.fail(&fog, "Java was not found"));
    assert!(!launch.fail(&fog, "Java was not found"));
    let job = launch.get(&fog).unwrap();
    assert_eq!(job.error.as_deref(), Some("Java was not found"));
    assert!(!job.cancellable);
    assert_eq!(launch.revision(), 3);
}

#[test]
fn settings_edits_report_whether_they_changed_anything() {
    let mut settings = SettingsStore::default();
    assert!(!settings.update_launch(|launch| launch));
    assert!(settings.update_launch(|mut launch| {
        launch.memory = 10;
        launch
    }));
    assert_eq!(settings.launch().memory, 10);
    assert!(!settings.update_preferences(|prefs| prefs));
    assert!(settings.update_preferences(|mut prefs| {
        prefs.connection_timeout = 45;
        prefs
    }));
    assert_eq!(settings.preferences().connection_timeout, 45);
    assert_eq!(settings.revision(), 2);
}
