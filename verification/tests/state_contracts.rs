//! Integration tests for state and storage-reference contracts.

use phanerite::route::{CrashRef, InstanceRef, StorageId};
use phanerite::seed::{
    importable_mods, importable_resource_packs, importable_shader_packs, live_output_samples,
    seed_aphanite, seed_crash_reports, seed_debug_log, seed_instances, seed_latest_log,
    seed_news, seed_runtimes, storage_ident,
};
use phanerite::state::{redact, CrashSource, LaunchField, LaunchValue, Loader};

#[test]
fn references_include_storage_context() {
    let storage_id = StorageId::for_test(7);
    assert_eq!(
        InstanceRef::new(storage_id, "instance").storage_id,
        storage_id
    );
    assert_eq!(CrashRef::new(storage_id, "crash").storage_id, storage_id);
}

#[test]
fn seed_projections_are_deterministic_and_storage_scoped() {
    let storage = StorageId::for_test(7);
    let first = seed_instances(storage);
    let second = seed_instances(storage);

    assert_eq!(first, second);
    assert!(first.iter().all(|instance| instance.storage_id == storage));
    assert!(first.iter().all(|instance| !instance.icon_seed.is_empty()));
}

#[test]
fn crash_exports_redact_credentials_tokens_and_home_paths() {
    let input = "--accessToken secret-access --clientToken client-secret --session session-secret jwt=eyJhbGciOiJIUzI1NiJ9.eyJzdWIiOiIxIn0.signature path=/home/alice/.minecraft/logs/latest.log";

    let redacted = redact(input);
    assert!(!redacted.contains("secret-access"));
    assert!(!redacted.contains("client-secret"));
    assert!(!redacted.contains("session-secret"));
    assert!(!redacted.contains("eyJhbGci"));
    assert!(!redacted.contains("/home/alice"));
    assert!(redacted.contains("~/.minecraft/logs/latest.log"));
}

#[test]
fn every_credential_is_redacted_whatever_the_order_and_case_of_the_options() {
    assert_eq!(
        redact("--session s3cr3t --ACCESSTOKEN \"a b\" x"),
        "--session <redacted> --ACCESSTOKEN <redacted> x"
    );
    assert_eq!(
        redact("--clientToken c1 --session s1 --accessToken a1"),
        "--clientToken <redacted> --session <redacted> --accessToken <redacted>"
    );
    // An option without a value is left alone, and a later one is still found.
    assert_eq!(redact("--session\n--session s2"), "--session\n--session <redacted>");
}

#[test]
fn seed_instances_hold_the_gallery_instances_in_order() {
    let instances = seed_instances(storage_ident(3));
    let ids: Vec<&str> = instances.iter().map(|i| i.id.as_str()).collect();
    assert_eq!(ids, ["inst-fog", "inst-vanilla", "inst-neo", "inst-legacy", "inst-create"]);
    let fog = &instances[0];
    assert_eq!(fog.icon_seed, "The Fog|1.21.4|fabric");
    assert_eq!(fog.mods.len(), 16);
    assert_eq!(fog.enabled_mods(), 11);
    assert_eq!(
        fog.launch_overrides.get(LaunchField::Memory),
        Some(&LaunchValue::Number(6))
    );
    let vanilla = &instances[1];
    assert!(vanilla.launch_overrides.is_empty());
    assert_eq!(vanilla.last_crash_id.as_deref(), Some("crash-unknown"));
    let create = &instances[4];
    assert_eq!(create.last_played, None);
    assert_eq!(create.play_count, 0);
}

#[test]
fn seed_mod_file_names_follow_the_jar_convention() {
    let instances = seed_instances(storage_ident(1));
    let fog = &instances[0];
    assert_eq!(fog.mods[0].file_name, "sodium-0.6.9.jar");
    assert_eq!(fog.mods[1].file_name, "optifine-hd_u_i8.jar");
    assert_eq!(fog.mods[8].file_name, "mod-menu-13.0.0.jar");
    assert_eq!(fog.mods[14].file_name, "cloth-config-api-18.1.1.jar");
    assert_eq!(fog.mods[15].name, None);
    assert_eq!(fog.mods[15].display_name(), "legacy-addon-1.21.4.jar");
    let legacy = &instances[3];
    assert_eq!(legacy.mods[2].file_name, "tinkers-construct-2.13.0.183.jar");
    assert_eq!(legacy.mods[0].file_name, "thaumcraft-6.1.beta26.jar");
}

#[test]
fn seed_lists_keep_their_order_and_content() {
    let runtimes = seed_runtimes();
    assert_eq!(runtimes.len(), 3);
    assert_eq!(runtimes[0].id, "zulu-21");
    assert!(runtimes[0].managed);
    assert_eq!(runtimes[2].version_string, "1.8.0_392");

    let news = seed_news();
    assert_eq!(news.len(), 4);
    assert_eq!(news[3].title, "Sodium 0.6.9 — smaller, faster");

    let mods = importable_mods();
    assert_eq!(mods.len(), 6);
    assert!(mods.iter().all(|m| m.loader == Loader::Fabric));
    assert_eq!(mods[5].file_name, "appleskin-fabric-mc1.21-3.0.4.jar");

    let packs = importable_resource_packs();
    assert!(packs.iter().all(|p| p.id.is_empty() && p.enabled));
    assert_eq!(packs[1].name, "Programmer Art");

    let shaders = importable_shader_packs();
    assert!(shaders.iter().all(|s| s.id.is_empty() && s.enabled));
    assert_eq!(shaders[1].gpu, "Intel UHD 630");

    assert_eq!(seed_latest_log().len(), 4);
    assert_eq!(seed_debug_log()[0], "[12:14:02] [main/DEBUG]: Launch arguments resolved");
    assert_eq!(live_output_samples()[3], "[Server thread/INFO]: Autosave completed");
}

#[test]
fn seed_crash_reports_are_scoped_and_shaped() {
    let storage = storage_ident(9);
    let reports = seed_crash_reports(storage);
    assert_eq!(reports.len(), 4);
    assert!(reports.iter().all(|r| r.storage_id == storage));
    let first = &reports[0];
    assert_eq!(first.id, "crash-sodium-optifine");
    let lines = first.lines.as_ref().unwrap();
    assert_eq!(lines[0], "---- Minecraft Crash Report ----");
    assert_eq!(lines.len(), 6 + 16);
    assert_eq!(first.findings[0].evidence_lines, vec![7]);
    assert_eq!(first.environment.aphanite_server.as_deref(), Some("aphanite.enita.cn"));
    let jvm = &reports[3];
    assert_eq!(jvm.exit_code, -6);
    assert!(!jvm.has_report());
    assert_eq!(jvm.output().len(), 7);
    assert_eq!(jvm.environment.source, CrashSource::Local);
    assert_eq!(jvm.environment.aphanite_server, None);

    let aphanite = seed_aphanite(storage);
    assert_eq!(aphanite.server_url, "https://aphanite.enita.cn/");
    assert_eq!(aphanite.storage_id, storage);
}

#[test]
fn launch_field_keys_are_stable_and_distinct() {
    let fields = [
        LaunchField::Memory,
        LaunchField::MemoryMode,
        LaunchField::WindowMode,
        LaunchField::WindowWidth,
        LaunchField::WindowHeight,
        LaunchField::QuickPlayMode,
        LaunchField::QuickPlayTarget,
        LaunchField::GameArgs,
        LaunchField::EnvironmentVariables,
        LaunchField::JavaArgs,
        LaunchField::PreLaunchCommand,
        LaunchField::CommandWrapper,
        LaunchField::PostExitCommand,
        LaunchField::NativesPath,
        LaunchField::GlfwPath,
        LaunchField::OpenalPath,
        LaunchField::UseDefaultJvmArgs,
        LaunchField::UseOptimizedJvmArgs,
        LaunchField::SkipJvmValidation,
        LaunchField::AllowAutoAgent,
        LaunchField::SkipIntegrityCheck,
        LaunchField::UseCustomNatives,
        LaunchField::SkipNativePatching,
    ];
    let mut keys: Vec<&str> = fields.iter().map(|f| f.key()).collect();
    keys.sort();
    keys.dedup();
    assert_eq!(keys.len(), fields.len());
    assert_eq!(LaunchField::Memory.key(), "memory");
    assert_eq!(LaunchField::QuickPlayTarget.key(), "quickPlayTarget");
    assert_eq!(LaunchField::SkipNativePatching.key(), "skipNativePatching");
}
