use phanerite::pages::aphanite::{
    configuration_line, empty_state as aphanite_empty_state, install_badge, server_label, summary_line,
};
use phanerite::pages::crash_report::{
    action_label, apply_finding, crashed_name, evidence_text, first_evidence_line, prepared_report,
    report_owner, subtitle, ReportFormat,
};
use phanerite::pages::instance_detail::{
    choose_runtime, configuration_lines, crash_banner, last_crash, launch_label, runtime_choice, runtime_note,
};
use phanerite::pages::instances::{card_line as instance_card_line, empty_state, instance_is_shown, play_labels, shown_instances};
use phanerite::pages::launch_settings::{
    choice_value, choices, chosen_value, effective, key, memory_hint, override_fields, overridden,
    set_value, switch_fields, text_input_value, text_value,
};
use phanerite::pages::play::{account_label, card_line, greeting, instance_count, recommended, stats_line};
use phanerite::pages::settings::{aphanite_counts, connection_timeout, font_size_px, priority_named};
use phanerite::pages::setup::{OpenOutcome, PickOutcome, SetupAction, SetupPage};
use phanerite::pages::widgets::{favorite_label, instance_key, search_key};
use phanerite::route::InstanceRef;
use phanerite::seed::{seed_crash_reports, seed_instances, seed_runtimes, storage_ident};
use phanerite::state::{
    InstanceStore, LaunchField, LaunchSettings, LaunchValue, MemoryMode, ProcessPriority, QuickPlayMode,
    Settings, SettingsStore, WindowMode,
};

fn store() -> InstanceStore {
    let mut store = InstanceStore::new(seed_instances(storage_ident(3)));
    store.set_storage_context(storage_ident(3));
    store
}

fn fog() -> InstanceRef {
    InstanceRef::new(storage_ident(3), "inst-fog")
}

#[test]
fn play_page_recommends_old_faithful_then_the_first_instance() {
    let all = store();
    assert_eq!(recommended(&all).map(|i| i.id.as_str()), Some("inst-legacy"));
    let mut others = seed_instances(storage_ident(3));
    others.retain(|i| i.name != "Old Faithful");
    let others = InstanceStore::new(others);
    assert_eq!(recommended(&others).map(|i| i.id.as_str()), Some("inst-fog"));
    assert!(recommended(&InstanceStore::new(Vec::new())).is_none());
}

#[test]
fn play_page_greets_by_the_hour() {
    assert_eq!(greeting(4), "Welcome back.");
    assert_eq!(greeting(5), "Good morning.");
    assert_eq!(greeting(11), "Good morning.");
    assert_eq!(greeting(12), "Good afternoon.");
    assert_eq!(greeting(18), "Good evening.");
    assert_eq!(greeting(21), "Good evening.");
    assert_eq!(greeting(22), "Welcome back.");
}

#[test]
fn play_page_lines_describe_an_instance() {
    let instances = seed_instances(storage_ident(3));
    assert_eq!(instance_count(0), "0 instances");
    assert_eq!(instance_count(1), "1 instance");
    assert_eq!(instance_count(5), "5 instances");
    assert_eq!(card_line(&instances[0]), "MC 1.21.4 · Fabric · 2 hours ago");
    assert_eq!(card_line(&instances[4]), "MC 1.20.1 · Fabric");
    assert_eq!(stats_line(&instances[0]), "11 mods    3 packs    3 worlds    Java 21");
    assert_eq!(account_label(None), "Offline");
}

#[test]
fn instances_page_filters_by_lowercased_name_and_loader() {
    let all = store();
    let ids = |search: &str, loader: &str| -> Vec<String> {
        shown_instances(&all, search, loader).iter().map(|i| i.id.clone()).collect()
    };
    assert_eq!(ids("", "All loaders").len(), 5);
    assert_eq!(ids("", "Fabric"), vec!["inst-fog", "inst-create"]);
    assert_eq!(ids("fog", "All loaders"), vec!["inst-fog"]);
    assert_eq!(ids("fog", "Forge"), Vec::<String>::new());
    assert_eq!(ids("old", "Forge"), vec!["inst-legacy"]);
    assert_eq!(ids("  The FOG ", "All loaders"), vec!["inst-fog"]);
    let instances = seed_instances(storage_ident(3));
    assert!(instance_is_shown(&instances[1], "survival", "Vanilla"));
    assert!(!instance_is_shown(&instances[1], "Survival", "Vanilla"));
}

#[test]
fn instances_page_labels() {
    let instances = seed_instances(storage_ident(3));
    assert_eq!(instance_card_line(&instances[0]), "Fabric · MC 1.21.4 · 312 launches");
    assert_eq!(empty_state(0), ("No instances found", "Create your first instance to get started."));
    assert_eq!(empty_state(3), ("No matching instances", "Try a different search or loader filter."));
    assert_eq!(play_labels(true), ("Stop instance", "Stop"));
    assert_eq!(play_labels(false), ("Play instance", "Launch"));
}

#[test]
fn widgets_keys_and_labels() {
    assert_eq!(instance_key(&fog(), "memory"), "3:inst-fog:memory");
    assert_eq!(favorite_label(true), "Remove from favorites");
    assert_eq!(favorite_label(false), "Add to favorites");
    assert_eq!(search_key("  The FOG \t"), "the fog");
    assert_eq!(search_key(""), "");
}

#[test]
fn settings_page_reads_its_controls() {
    assert_eq!(priority_named("Low"), Some(ProcessPriority::Low));
    assert_eq!(priority_named("Normal"), Some(ProcessPriority::Normal));
    assert_eq!(priority_named("High"), Some(ProcessPriority::High));
    assert_eq!(priority_named("high"), None);
    assert_eq!(font_size_px("sm"), 14);
    assert_eq!(font_size_px("md"), 16);
    assert_eq!(font_size_px("lg"), 18);
    assert_eq!(font_size_px(""), 16);
    assert_eq!(connection_timeout("30"), Some(30));
    assert_eq!(connection_timeout("+45"), Some(45));
    assert_eq!(connection_timeout("1"), Some(1));
    assert_eq!(connection_timeout("600"), Some(600));
    assert_eq!(connection_timeout("0"), None);
    assert_eq!(connection_timeout("601"), None);
    assert_eq!(connection_timeout(" 30"), None);
    assert_eq!(connection_timeout("-5"), None);
    assert_eq!(connection_timeout("99999999999"), None);
    assert_eq!(aphanite_counts(&store()), (3, 2));
}

#[test]
fn setup_page_moves_through_its_steps() {
    let mut page = SetupPage::new(None);
    assert!(!page.can_continue());
    assert_eq!(page.continue_setup(None), SetupAction::Wait);
    page.picked(PickOutcome::Failed);
    assert_eq!(page.error.as_deref(), Some("Could not open the directory picker. Try again."));
    page.picked(PickOutcome::Picked("/games/minecraft".to_owned()));
    assert_eq!(page.directory.as_deref(), Some("/games/minecraft"));
    assert_eq!(page.error, None);
    page.picked(PickOutcome::Dismissed);
    assert_eq!(page.directory.as_deref(), Some("/games/minecraft"));
    assert!(page.can_continue());
    assert_eq!(page.continue_setup(Some("/games/minecraft")), SetupAction::Enter);
    assert!(!page.busy);
    assert_eq!(page.continue_setup(Some("/other")), SetupAction::Open("/games/minecraft".to_owned()));
    assert!(page.busy);
    assert!(!page.can_continue());
    assert_eq!(page.continue_setup(None), SetupAction::Wait);
    page.opened(OpenOutcome::Failed("permission denied".to_owned()));
    assert!(!page.busy);
    assert_eq!(page.error.as_deref(), Some("Could not open this directory: permission denied"));
    page.continue_setup(None);
    page.opened(OpenOutcome::NotRegistered);
    assert_eq!(page.error.as_deref(), Some("Could not register the game directory."));
    page.continue_setup(None);
    assert_eq!(page.error, None);
    page.opened(OpenOutcome::Registered);
    assert_eq!(page.error, None);
    assert!(!page.busy);
}

#[test]
fn crash_page_labels_and_evidence() {
    let reports = seed_crash_reports(storage_ident(3));
    let instances = store();
    let sodium = &reports[0];
    assert_eq!(subtitle(sodium), "2 minutes ago · exit code 1");
    assert_eq!(subtitle(&reports[3]), "3 days ago · exit code -6");
    assert_eq!(crashed_name(&instances, sodium), "The Fog");
    assert_eq!(crashed_name(&InstanceStore::new(Vec::new()), sodium), "inst-fog");
    assert_eq!(evidence_text(sodium, 0), "Mixin apply for mod optifine failed");
    assert_eq!(evidence_text(sodium, 1), "");
    assert_eq!(first_evidence_line(sodium, 0), Some(7));
    assert_eq!(first_evidence_line(sodium, 3), None);
    assert_eq!(report_owner(sodium).as_deref(), Some("aphanite.enita.cn"));
    assert_eq!(report_owner(&reports[2]), None);
    let fog_instance = instances.find(&fog());
    assert_eq!(action_label(&sodium.findings[0], fog_instance), "Disable OptiFine and retry");
    assert_eq!(action_label(&sodium.findings[0], None), "Disable mod and retry");
    assert_eq!(action_label(&reports[1].findings[0], None), "Raise memory to 4 GB and retry");
}

#[test]
fn crash_page_applies_a_finding_to_the_crashed_instance() {
    let reports = seed_crash_reports(storage_ident(3));
    let mut instances = store();
    assert_eq!(apply_finding(&mut instances, &reports[0], 5), None);
    assert_eq!(apply_finding(&mut instances, &reports[0], 0), Some(true));
    let fog = instances.find(&fog()).unwrap();
    assert!(!fog.mods.iter().find(|m| m.id == "m-optifine").unwrap().enabled);
    // Applying it again changes nothing.
    assert_eq!(apply_finding(&mut instances, &reports[0], 0), Some(false));
}

#[test]
fn prepared_reports_follow_the_document_layout_and_are_redacted() {
    let reports = seed_crash_reports(storage_ident(3));
    let unknown = &reports[2];
    let expected = format!(
        "Minecraft crash report captured by Phanerite.\n\nInstance: Vanilla Survival\nTime: yesterday\nExit code: 1\n\n## Local crash-signature matches\n- No local crash signature matched.\n\n## Environment\nMinecraft 1.21.4 · Fabric 0.115.1+1.21.4\nJava 21 (Azul Zulu JDK 21)\nJava path: ~/.local/share/phanerite/java/zulu-21/bin/java\nMemory 4 GB · Fedora Linux 44 · NVIDIA GeForce GTX 1060 6GB\nOverridden launch settings: None\n\n## Enabled mods (0)\nNone\n\n## Crash report\n\n~~~text\n{}\n~~~\n",
        unknown.output().join("\n")
    );
    assert_eq!(prepared_report(unknown, "Vanilla Survival", ReportFormat::Post), expected);

    let sodium = prepared_report(&reports[0], "The Fog", ReportFormat::Ai);
    assert!(sodium.starts_with("My Minecraft game crashed while using Phanerite."));
    assert!(sodium.contains("- OptiFine failed while its mixin was being applied (MIXIN_APPLY_MOD_FAILED): "));
    assert!(sodium.contains("Overridden launch settings: memory\n"));
    assert!(sodium.contains("## Enabled mods (5)\n- Sodium 0.6.9\n- OptiFine HD_U_I8\n"));
    assert!(sodium.contains("--accessToken <redacted>"));
    assert!(!sodium.contains("eyJhbGci"));
    assert!(!sodium.contains("/home/enita"));

    let jvm = prepared_report(&reports[3], "Old Faithful", ReportFormat::Post);
    assert!(jvm.contains("Exit code: -6\n"));
    assert!(jvm.contains("## Process output\n\n~~~text\n# A fatal error"));
}

#[test]
fn launch_settings_resolve_overrides_over_the_globals() {
    let instances = store();
    let global = LaunchSettings::default();
    let fog_settings = effective(&instances, &global, Some(&fog()));
    assert_eq!(fog_settings.memory, 6);
    assert_eq!(effective(&instances, &global, None).memory, 4);
    let missing = InstanceRef::new(storage_ident(3), "missing");
    assert_eq!(effective(&instances, &global, Some(&missing)).memory, 4);
    assert!(overridden(&instances, None, LaunchField::Memory));
    assert!(overridden(&instances, Some(&fog()), LaunchField::Memory));
    assert!(!overridden(&instances, Some(&fog()), LaunchField::JavaArgs));
    assert!(!overridden(&instances, Some(&missing), LaunchField::Memory));
    assert_eq!(key(Some(&fog()), LaunchField::Memory), "3:inst-fog:memory");
    assert_eq!(key(None, LaunchField::WindowWidth), "global-launch-windowWidth");
    assert_eq!(memory_hint(&global), "4 GB maximum heap");
    let auto = LaunchSettings { memory_mode: MemoryMode::Auto, ..LaunchSettings::default() };
    assert_eq!(memory_hint(&auto), "Phanerite chooses a safe allocation for the machine.");
}

#[test]
fn launch_settings_controls_write_their_values() {
    let mut instances = store();
    let mut settings = SettingsStore::default();
    assert!(set_value(&mut instances, &mut settings, None, LaunchField::Memory, LaunchValue::Number(8)));
    assert_eq!(settings.launch().memory, 8);
    assert!(!set_value(&mut instances, &mut settings, None, LaunchField::Memory, LaunchValue::Number(8)));
    assert!(set_value(&mut instances, &mut settings, Some(&fog()), LaunchField::Memory, LaunchValue::Number(10)));
    assert_eq!(effective(&instances, settings.launch(), Some(&fog())).memory, 10);
    let global = settings.launch().clone();
    assert!(override_fields(&mut instances, &global, &fog(), &switch_fields(LaunchField::WindowMode), true));
    assert!(overridden(&instances, Some(&fog()), LaunchField::WindowWidth));
    assert!(override_fields(&mut instances, &global, &fog(), &[LaunchField::WindowWidth], false));
    assert!(!overridden(&instances, Some(&fog()), LaunchField::WindowWidth));
}

#[test]
fn launch_settings_controls_read_their_values() {
    assert_eq!(text_value(&LaunchValue::Number(1280)), "1280");
    assert_eq!(text_value(&LaunchValue::Text("-Xss2M".to_owned())), "-Xss2M");
    assert_eq!(text_value(&LaunchValue::Flag(true)), "");
    assert_eq!(text_input_value(LaunchField::WindowWidth, "1920"), Some(LaunchValue::Number(1920)));
    assert_eq!(text_input_value(LaunchField::WindowHeight, "0"), None);
    assert_eq!(text_input_value(LaunchField::WindowHeight, "16385"), None);
    assert_eq!(text_input_value(LaunchField::WindowWidth, "wide"), None);
    assert_eq!(text_input_value(LaunchField::GameArgs, "--demo"), Some(LaunchValue::Text("--demo".to_owned())));
    assert_eq!(choice_value(&LaunchValue::Memory(MemoryMode::Auto)), "Automatic");
    assert_eq!(choice_value(&LaunchValue::Window(WindowMode::Fullscreen)), "Fullscreen");
    assert_eq!(choice_value(&LaunchValue::QuickPlay(QuickPlayMode::Realms)), "Realms ID");
    assert_eq!(choices(LaunchField::MemoryMode), vec!["Automatic", "Manual"]);
    assert_eq!(choices(LaunchField::WindowMode), vec!["Windowed", "Maximized", "Fullscreen"]);
    assert_eq!(
        choices(LaunchField::QuickPlayMode),
        vec!["No quick play", "Multiplayer server", "Single-player world", "Realms ID"]
    );
    assert_eq!(chosen_value(LaunchField::WindowMode, "Maximized"), Some(LaunchValue::Window(WindowMode::Maximized)));
    assert_eq!(chosen_value(LaunchField::MemoryMode, "Maximized"), None);
    assert_eq!(switch_fields(LaunchField::QuickPlayMode), vec![LaunchField::QuickPlayMode, LaunchField::QuickPlayTarget]);
    assert_eq!(switch_fields(LaunchField::Memory), vec![LaunchField::Memory]);
}

#[test]
fn instance_page_shows_the_last_crash_and_the_configuration() {
    let instances = seed_instances(storage_ident(3));
    let crashes = phanerite::state::CrashStore::new(seed_crash_reports(storage_ident(3)));
    let report = last_crash(&crashes, &instances[0]).unwrap();
    assert_eq!(report.id, "crash-sodium-optifine");
    assert_eq!(crash_banner(report), ("Last launch crashed · 2 minutes ago".to_owned(), "Exit code 1".to_owned()));
    assert!(last_crash(&crashes, &instances[4]).is_none());
    let elsewhere = phanerite::state::CrashStore::new(seed_crash_reports(storage_ident(4)));
    assert!(last_crash(&elsewhere, &instances[0]).is_none());
    assert_eq!(configuration_lines(&instances[0]), vec!["11/16 enabled", "3 installed", "2 installed", "3 saved"]);
    assert_eq!(configuration_lines(&instances[3]), vec!["3/3 enabled", "0 installed", "0 installed", "0 saved"]);
    assert_eq!(launch_label(true, "The Fog"), "Stop The Fog");
    assert_eq!(launch_label(false, "The Fog"), "Play The Fog");
}

#[test]
fn instance_page_picks_java_runtimes() {
    let settings = SettingsStore::new(Settings::default(), seed_runtimes());
    let runtimes = seed_runtimes();
    assert_eq!(runtime_choice(&runtimes[0]), "Azul Zulu JDK 21 (Java 21) · Managed");
    assert_eq!(runtime_choice(&runtimes[1]), "Eclipse Temurin JDK 17 (Java 17)");
    let mut instances = store();
    assert_eq!(runtime_note(&settings, instances.find(&fog()).unwrap()), "Managed by Phanerite");
    assert!(choose_runtime(&mut instances, &settings, &fog(), "temurin-17"));
    let fog_now = instances.find(&fog()).unwrap();
    assert_eq!(fog_now.java_runtime_id, "temurin-17");
    assert_eq!(fog_now.java, "17");
    assert_eq!(runtime_note(&settings, fog_now), "/usr/lib/jvm/java-17-openjdk");
    assert!(!choose_runtime(&mut instances, &settings, &fog(), "temurin-17"));
    assert!(!choose_runtime(&mut instances, &settings, &fog(), "graal-22"));
    assert_eq!(runtime_note(&SettingsStore::default(), instances.find(&fog()).unwrap()), "Select a Java runtime in Settings.");
}

#[test]
fn aphanite_page_describes_the_server_and_its_configurations() {
    let all = store();
    let (total, installed) = aphanite_counts(&all);
    assert_eq!(summary_line(total, installed), "3 configurations, 2 installed");
    assert_eq!(server_label("https://aphanite.enita.cn/"), "Enita\u{2019}s Aphanite Server");
    assert_eq!(server_label("https://packs.example.org/"), "https://packs.example.org/");
    let fog = all.find(&fog()).unwrap();
    assert_eq!(configuration_line(fog), "Fabric · MC 1.21.4 · 11 mods");
    assert_eq!(install_badge(fog), "Installed");
    let create = all.find(&InstanceRef::new(storage_ident(3), "inst-create")).unwrap();
    assert_eq!(configuration_line(create), "Fabric · MC 1.20.1 · 3 mods");
    assert_eq!(install_badge(create), "Not installed");
    assert_eq!(aphanite_empty_state(3), None);
    assert_eq!(
        aphanite_empty_state(0),
        Some(("No Aphanite configurations", "Connect a server in Settings to discover modpack configurations."))
    );
}
