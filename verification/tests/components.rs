use phanerite::components::account_add_dialog::{account_form_valid, offline_name_valid, server_valid, submit as submit_account};
use phanerite::components::add_resources_dialog::{
    eq_ignore_ascii_case, file_name, import_files, import_paths, import_samples, FilesPicked, ImportDialog,
    ResourceMode,
};
use phanerite::components::instance_actions::{delete, duplicate, play, start, stop};
use phanerite::components::instance_create_dialog::{
    created_message, loader_version_placeholder, name_valid, new_instance, submit,
};
use phanerite::components::minecraft_avatar::{avatar, skin_name};
use phanerite::components::nav_sidebar::{row_active, section_active, Section};
use phanerite::components::running_instances_popover::{instance_total, running_instances, running_label, running_line};
use phanerite::assets::icons::PhaIcon;
use phanerite::pages::accounts::{can_remove, preview_caption, previewed, provider_icon, remove_title};
use phanerite::state::AccountSummary;
use phanerite::components::runtime_dialog::{runtime_form_valid, runtime_version, submit as submit_runtime};
use phanerite::route::{InstanceRef, Route};
use phanerite::seed::{seed_crash_reports, seed_instances, storage_ident};
use phanerite::state::{
    AccountStore, AccountType, AppState, CrashStore, InstanceStore, Loader, PlayerProfileSummary, SessionStore,
    SettingsStore,
};

fn app() -> AppState {
    let storage = storage_ident(3);
    let mut instances = InstanceStore::new(seed_instances(storage));
    instances.set_storage_context(storage);
    AppState::new(
        vec![storage],
        Some(storage),
        instances,
        AccountStore::new(Vec::new()),
        SettingsStore::default(),
        CrashStore::new(seed_crash_reports(storage)),
        SessionStore::new(),
    )
}

fn fog() -> InstanceRef {
    InstanceRef::new(storage_ident(3), "inst-fog")
}

#[test]
fn account_dialog_validates_names_and_servers() {
    assert!(offline_name_valid("Steve_01"));
    assert!(offline_name_valid("abcdefghijklmnop"));
    assert!(!offline_name_valid("abcdefghijklmnopq"));
    assert!(!offline_name_valid(""));
    assert!(!offline_name_valid("two words"));
    assert!(!offline_name_valid("Stéve"));
    assert!(server_valid("https://auth.example.org"));
    assert!(server_valid("http://"));
    assert!(!server_valid("ftp://auth.example.org"));
    assert!(!server_valid("https://auth example.org"));
    assert!(account_form_valid(AccountType::Offline, "Steve", "", false));
    assert!(!account_form_valid(AccountType::Microsoft, "", "", false));
    assert!(account_form_valid(AccountType::Microsoft, "", "", true));
    assert!(account_form_valid(AccountType::Yggdrasil, " Alex ", "https://auth.example.org", true));
    assert!(!account_form_valid(AccountType::Yggdrasil, "   ", "https://auth.example.org", true));
    assert!(!account_form_valid(AccountType::Yggdrasil, "Alex", "auth.example.org", true));
}

#[test]
fn create_dialog_builds_the_new_instance() {
    assert!(name_valid("  Survival 2026 "));
    assert!(!name_valid("   "));
    assert!(name_valid(&"x".repeat(64)));
    assert!(!name_valid(&"x".repeat(65)));
    assert_eq!(loader_version_placeholder(Loader::Vanilla), "No loader");
    assert_eq!(loader_version_placeholder(Loader::Forge), "Latest compatible version");
    let input = new_instance(" Survival2026 ", " A world ", None, Loader::Fabric, "  ", 4);
    assert_eq!(input.name, "Survival2026");
    assert_eq!(input.description, "A world");
    assert_eq!(input.mc_version, "1.21.4");
    assert_eq!(input.loader_version, "Latest");
    let vanilla = new_instance("v", "", Some("1.20.1"), Loader::Vanilla, "0.1", 2);
    assert_eq!(vanilla.mc_version, "1.20.1");
    assert_eq!(vanilla.loader_version, "—");
    let forge = new_instance("f", "", None, Loader::Forge, " 47.2.0 ", 6);
    assert_eq!(forge.loader_version, "47.2.0");
    assert_eq!(forge.memory, 6);
}

#[test]
fn runtime_dialog_validates_and_reads_the_version() {
    assert!(runtime_form_valid("Temurin", "21", "/opt/java/bin/java"));
    assert!(!runtime_form_valid(" ", "21", "/opt/java/bin/java"));
    assert!(!runtime_form_valid("Temurin", "7", "/opt/java/bin/java"));
    assert!(!runtime_form_valid("Temurin", "100", "/opt/java/bin/java"));
    assert!(!runtime_form_valid("Temurin", "21", "  "));
    assert_eq!(runtime_version("17"), 17);
    assert_eq!(runtime_version("seventeen"), 21);
}

#[test]
fn resources_dialog_accepts_its_extension_in_any_case() {
    assert_eq!(ResourceMode::Mods.title(), "Add mods");
    assert_eq!(ResourceMode::Packs.title(), "Import resource packs");
    assert_eq!(ResourceMode::Shaders.title(), "Import shader packs");
    assert_eq!(ResourceMode::Mods.extension(), "jar");
    assert_eq!(ResourceMode::Shaders.extension(), "zip");
    assert!(ResourceMode::Mods.accepts(Some("JAR")));
    assert!(!ResourceMode::Mods.accepts(Some("zip")));
    assert!(!ResourceMode::Packs.accepts(None));
    assert_eq!(ResourceMode::Packs.selection_error(), "Choose .zip files for this collection.");
    assert!(eq_ignore_ascii_case("Mixed", "mIXED"));
    assert!(!eq_ignore_ascii_case("Mixed", "Mixe"));
}

#[test]
fn resources_dialog_imports_picked_files() {
    let mut store = InstanceStore::new(seed_instances(storage_ident(3)));
    assert!(!import_files(&mut store, &fog(), ResourceMode::Mods, &vec!["a.jar".to_owned()]));
    store.set_storage_context(storage_ident(3));
    let before = store.find(&fog()).unwrap().mods.len();
    assert!(import_files(&mut store, &fog(), ResourceMode::Mods, &vec!["a.jar".to_owned(), "b.jar".to_owned()]));
    let fog_now = store.find(&fog()).unwrap();
    assert_eq!(fog_now.mods.len(), before + 2);
    let added = &fog_now.mods[before];
    assert_eq!(added.file_name, "a.jar");
    assert!(added.enabled);
    assert!(!added.id.is_empty());
    assert_ne!(fog_now.mods[before].id, fog_now.mods[before + 1].id);
    assert!(!import_files(&mut store, &fog(), ResourceMode::Packs, &Vec::new()));
    let missing = InstanceRef::new(storage_ident(3), "missing");
    assert!(!import_files(&mut store, &missing, ResourceMode::Shaders, &vec!["s.zip".to_owned()]));
    let packs = store.find(&fog()).unwrap().resource_packs.len();
    assert!(import_samples(&mut store, &fog(), ResourceMode::Packs));
    assert!(store.find(&fog()).unwrap().resource_packs.len() > packs);
}

#[test]
fn avatars_use_the_skin_name_and_fall_back_to_steve() {
    let profile = PlayerProfileSummary {
        id: "p".to_owned(),
        name: "enita".to_owned(),
        skin_url: "https://mc-heads.net/skin/Enita".to_owned(),
        is_slim: false,
    };
    assert_eq!(skin_name(&profile), "Enita");
    let other = PlayerProfileSummary { skin_url: "https://example.org/skin.png".to_owned(), ..profile.clone() };
    assert_eq!(skin_name(&other), "enita");
    let bare = PlayerProfileSummary { skin_url: "https://mc-heads.net/skin/".to_owned(), ..profile.clone() };
    assert_eq!(skin_name(&bare), "enita");
    assert_eq!(
        avatar(Some(&profile)),
        ("Enita".to_owned(), "https://mc-heads.net/avatar/Enita/64".to_owned(), false)
    );
    assert_eq!(
        avatar(None),
        ("Steve".to_owned(), "https://mc-heads.net/avatar/Steve/64".to_owned(), false)
    );
    let alex = PlayerProfileSummary { skin_url: "https://mc-heads.net/skin/ALEXandra".to_owned(), ..profile.clone() };
    assert!(avatar(Some(&alex)).2);
    let slim = PlayerProfileSummary { is_slim: true, ..profile };
    assert!(avatar(Some(&slim)).2);
}

#[test]
fn instance_actions_start_stop_and_toggle_sessions() {
    let mut state = app();
    let plays = state.instances.find(&fog()).unwrap().play_count;
    assert!(start(&mut state, &fog()));
    assert!(state.sessions.is_running(&fog()));
    assert_eq!(state.instances.find(&fog()).unwrap().play_count, plays + 1);
    assert!(!start(&mut state, &fog()));
    let running = running_instances(&state.sessions, &state.instances);
    assert_eq!(running.iter().map(|i| i.id.as_str()).collect::<Vec<_>>(), vec!["inst-fog"]);
    assert!(stop(&mut state, &fog()));
    assert!(!state.sessions.is_running(&fog()));
    assert!(!stop(&mut state, &fog()));
    assert!(!play(&mut state, &fog()));
    assert!(state.sessions.is_running(&fog()));
    assert!(play(&mut state, &fog()));
    assert!(!state.sessions.is_running(&fog()));
    let missing = InstanceRef::new(storage_ident(3), "missing");
    assert!(!start(&mut state, &missing));
}

#[test]
fn instance_actions_duplicate_and_delete() {
    let mut state = app();
    let copy = duplicate(&mut state, &fog()).unwrap();
    assert_eq!(state.instances.find(&copy).unwrap().name, "The Fog (copy)");
    assert_eq!(state.route(), &Route::InstanceDetail(copy.clone()));
    start(&mut state, &fog());
    delete(&mut state, &fog());
    assert!(state.instances.find(&fog()).is_none());
    assert!(!state.sessions.is_running(&fog()));
    assert_eq!(state.route(), &Route::Instances);
    let missing = InstanceRef::new(storage_ident(3), "missing");
    assert!(duplicate(&mut state, &missing).is_none());
}

#[test]
fn sidebar_highlights_the_instance_pages_and_groups() {
    let fog = fog();
    let neo = InstanceRef::new(storage_ident(3), "inst-neo");
    assert!(row_active(&Route::InstanceDetail(fog.clone()), &fog));
    assert!(row_active(&Route::Mods(fog.clone()), &fog));
    assert!(row_active(&Route::LaunchSettings(fog.clone()), &fog));
    assert!(!row_active(&Route::Mods(neo.clone()), &fog));
    assert!(!row_active(&Route::Instances, &fog));
    assert!(!row_active(&Route::Settings, &fog));
    assert!(section_active(&Route::Instances, Section::Local));
    assert!(!section_active(&Route::Instances, Section::Aphanite));
    assert!(section_active(&Route::Aphanite, Section::Aphanite));
    assert_eq!(Section::Local.label(), "Instances");
    assert_eq!(Section::Aphanite.route(), Route::Aphanite);
    assert_eq!(Section::Local.disclosure_label(true), "Collapse local instances");
    assert_eq!(Section::Aphanite.disclosure_label(false), "Expand Aphanite instances");
}

#[test]
fn picked_paths_are_imported_under_their_file_names() {
    assert_eq!(file_name("/home/enita/Downloads/sodium-0.6.9.jar"), "sodium-0.6.9.jar");
    assert_eq!(file_name("sodium.jar"), "sodium.jar");
    assert_eq!(file_name("packs/faithful.zip/"), "faithful.zip");
    assert_eq!(file_name("/"), "");
    assert_eq!(file_name("mods/.."), "");
    let mut store = InstanceStore::new(seed_instances(storage_ident(3)));
    store.set_storage_context(storage_ident(3));
    let before = store.find(&fog()).unwrap().shader_packs.len();
    assert!(import_paths(&mut store, &fog(), ResourceMode::Shaders, &vec!["/tmp/shaders/complementary.zip".to_owned()]));
    let fog_now = store.find(&fog()).unwrap();
    assert_eq!(fog_now.shader_packs.len(), before + 1);
    assert_eq!(fog_now.shader_packs[before].name, "complementary.zip");
    assert_eq!(fog_now.shader_packs[before].author, "Local file");
    assert!(!import_paths(&mut store, &fog(), ResourceMode::Mods, &Vec::new()));
}

#[test]
fn create_dialog_submit_opens_the_new_instance() {
    let mut state = app();
    let typed = format!("{}{}", "Survival", "2026");
    let input = new_instance(&typed, "", None, Loader::Vanilla, "", 4);
    let created = submit(&mut state, input).unwrap();
    assert_eq!(state.route(), &Route::InstanceDetail(created.clone()));
    let instance = state.instances.find(&created).expect("created instance must exist");
    assert_eq!(instance.name, "Survival2026");
    assert_eq!(instance.mc_version, "1.21.4");
    assert_eq!(created_message(&instance.name), "Instance “Survival2026” created");

    let storage = storage_ident(3);
    let mut unscoped = AppState::new(
        vec![storage],
        Some(storage),
        InstanceStore::new(Vec::new()),
        AccountStore::new(Vec::new()),
        SettingsStore::default(),
        CrashStore::new(Vec::new()),
        SessionStore::new(),
    );
    let input = new_instance("x", "", None, Loader::Vanilla, "", 4);
    assert_eq!(submit(&mut unscoped, input), Err("The selected game directory is no longer available."));
    let mut no_storage = AppState::new(
        Vec::new(),
        None,
        InstanceStore::new(Vec::new()),
        AccountStore::new(Vec::new()),
        SettingsStore::default(),
        CrashStore::new(Vec::new()),
        SessionStore::new(),
    );
    let input = new_instance("x", "", None, Loader::Vanilla, "", 4);
    assert_eq!(submit(&mut no_storage, input), Err("Choose a game directory before creating an instance."));
    assert_eq!(no_storage.route(), &Route::Setup);
}

#[test]
fn status_texts_count_instances_and_running_games() {
    assert_eq!(running_label(2), "● 2 running");
    assert_eq!(instance_total(1), "1 instances");
    let instances = seed_instances(storage_ident(3));
    assert_eq!(running_line(&instances[2]), "MC 1.21.1 · NeoForge");
}

fn account(id: &str, name: &str, kind: AccountType) -> AccountSummary {
    AccountSummary {
        id: id.into(),
        username: name.into(),
        account_type: kind,
        last_used: "now".into(),
        auth_server: None,
        active_profile_id: format!("profile-{id}"),
        profiles: Vec::new(),
    }
}

#[test]
fn accounts_page_previews_the_active_or_first_account() {
    let mut store = AccountStore::new(vec![
        account("a", "enita", AccountType::Microsoft),
        account("b", "Builder", AccountType::Offline),
    ]);
    assert_eq!(previewed(&store).map(|a| a.id), Some("a".to_owned()));
    assert!(store.set_active("b"));
    assert_eq!(previewed(&store).map(|a| a.id), Some("b".to_owned()));
    assert!(can_remove(&store));
    assert!(store.remove("a"));
    assert!(!can_remove(&store));
    assert!(previewed(&AccountStore::new(Vec::new())).is_none());
    assert_eq!(provider_icon(AccountType::Microsoft), PhaIcon::KeyRound);
    assert_eq!(provider_icon(AccountType::Offline), PhaIcon::Monitor);
    assert_eq!(remove_title("enita"), "Remove “enita”?");
    assert_eq!(preview_caption(AccountType::Aphanite), "Aphanite player profile preview");
}

#[test]
fn account_dialog_adds_offline_accounts_once() {
    let mut store = AccountStore::new(Vec::new());
    assert_eq!(submit_account(&mut store, account("off-1", "Steve", AccountType::Offline)), Ok("off-1".to_owned()));
    assert_eq!(store.active_id().as_deref(), Some("off-1"));
    assert_eq!(
        submit_account(&mut store, account("off-1", "Steve", AccountType::Offline)),
        Err("This account has already been added.")
    );
    assert_eq!(
        submit_account(&mut store, account("ms-1", "enita", AccountType::Microsoft)),
        Err("This account has already been added.")
    );
    assert_eq!(store.len(), 1);
}

#[test]
fn import_dialog_keeps_the_picked_files_of_its_collection() {
    let mut dialog = ImportDialog::new(ResourceMode::Mods);
    dialog.browsed(FilesPicked::Picked(vec![
        "/home/enita/sodium.JAR".to_owned(),
        "/home/enita/pack.zip".to_owned(),
        "/home/enita/.jar".to_owned(),
        "/home/enita/lithium.jar".to_owned(),
    ]));
    assert_eq!(dialog.files, vec!["/home/enita/sodium.JAR", "/home/enita/lithium.jar"]);
    assert_eq!(dialog.error, None);
    dialog.browsed(FilesPicked::Dismissed);
    assert_eq!(dialog.files.len(), 2);
    dialog.browsed(FilesPicked::Picked(vec!["notes.txt".to_owned(), "archive".to_owned()]));
    assert!(dialog.files.is_empty());
    assert_eq!(dialog.error.as_deref(), Some("Choose .jar files for this collection."));
    dialog.browsed(FilesPicked::Failed);
    assert_eq!(dialog.error.as_deref(), Some("Could not open the file picker. Try again."));
}

#[test]
fn import_dialog_imports_under_file_names_or_reports_a_missing_instance() {
    let mut store = InstanceStore::new(seed_instances(storage_ident(3)));
    let mut dialog = ImportDialog::new(ResourceMode::Packs);
    assert!(!dialog.import(&mut store, &fog()));
    dialog.browsed(FilesPicked::Picked(vec!["/tmp/Faithful 32x.zip".to_owned()]));
    assert!(!dialog.import(&mut store, &fog()));
    assert_eq!(dialog.error.as_deref(), Some("The instance is no longer available."));
    store.set_storage_context(storage_ident(3));
    let before = store.find(&fog()).unwrap().resource_packs.len();
    assert!(dialog.import(&mut store, &fog()));
    let packs = &store.find(&fog()).unwrap().resource_packs;
    assert_eq!(packs.len(), before + 1);
    assert_eq!(packs[before].name, "Faithful 32x.zip");
}

#[test]
fn runtime_dialog_adds_the_trimmed_runtime() {
    let mut settings = SettingsStore::default();
    assert!(!submit_runtime(&mut settings, "Temurin", "7", "/opt/java/bin/java"));
    assert!(settings.runtimes().is_empty());
    assert!(submit_runtime(&mut settings, "  Temurin 21 ", "21", " /opt/java/bin/java "));
    let added = &settings.runtimes()[0];
    assert_eq!(added.name, "Temurin 21");
    assert_eq!(added.path, "/opt/java/bin/java");
    assert_eq!(added.version, 21);
    assert!(!added.managed);
    assert_eq!(settings.revision(), 1);
}
