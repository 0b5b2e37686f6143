use phanerite::assets::icons::PhaIcon;
use phanerite::pages::resources::{
    add_label, count_badge, delete_confirmation, empty_state, mod_is_shown, queue_world, remove_resource,
    resource_count, rows, set_enabled, ResourceKind,
};
use phanerite::palette::{accent_colors, accent_swatch, channels, rgba_hex};
use phanerite::route::{InstanceRef, Navigation, Route, MAX_HISTORY};
use phanerite::seed::{seed_instances, storage_ident};
use phanerite::state::{InstanceStore, LaunchField, LaunchValue, QuickPlayMode};
use phanerite::theme::{palette_paint, themed_paint, ColorRole, Opacity, Paint};
use phanerite::text::{contains, parse_u32, push_signed, starts_with, trim};

fn fog() -> InstanceRef {
    InstanceRef::new(storage_ident(3), "inst-fog")
}

fn scoped_store() -> InstanceStore {
    let mut store = InstanceStore::new(seed_instances(storage_ident(3)));
    store.set_storage_context(storage_ident(3));
    store
}

#[test]
fn accent_swatches_fall_back_to_the_default_primary() {
    assert_eq!(accent_swatch("emerald"), 0x349D62);
    assert_eq!(accent_swatch("gold"), 0xDCAF61);
    assert_eq!(accent_swatch("slate"), 0x9BA6B1);
    assert_eq!(accent_swatch("teal"), 0x33A6A0);
    assert_eq!(accent_swatch("crimson"), 0x349D62);
    assert_eq!(accent_swatch("Gold"), 0x349D62);
    assert_eq!(accent_colors("gold"), (0xDCAF61, 0x1F1401, 0x93744A, 0x7B5C3E));
    assert_eq!(accent_colors("teal"), (0x33A6A0, 0x00100F, 0x366E6B, 0x3D5F5D));
    assert_eq!(accent_colors("unknown"), (0x349D62, 0x04130A, 0x3A6343, 0x3E5B44));
}

#[test]
fn colors_pack_and_split_into_bytes() {
    assert_eq!(rgba_hex(0x349D62, 0xFF), 0xFF34_9D62);
    assert_eq!(rgba_hex(0x12_349D62, 0x80), 0x8034_9D62);
    assert_eq!(rgba_hex(0, 0), 0);
    assert_eq!(channels(0x349D62), (0x34, 0x9D, 0x62));
    assert_eq!(channels(0xAB_FF0001), (0xFF, 0x00, 0x01));
}

#[test]
fn every_icon_name_leads_back_to_its_icon() {
    assert_eq!(PhaIcon::ALL.len(), 43);
    for icon in PhaIcon::ALL {
        assert_eq!(PhaIcon::from_name(icon.name()), Some(icon));
        assert_eq!(icon.asset_path(), format!("icons/{}.svg", icon.name()));
    }
    let mut names: Vec<&str> = PhaIcon::ALL.iter().map(|icon| icon.name()).collect();
    names.sort();
    names.dedup();
    assert_eq!(names.len(), 43);
    assert_eq!(PhaIcon::Trash2.name(), "trash-2");
    assert_eq!(PhaIcon::from_name("trash2"), None);
    assert_eq!(PhaIcon::from_name(""), None);
}

#[test]
fn text_helpers_follow_std() {
    assert_eq!(trim("  a b \t\n"), "a b");
    assert_eq!(trim(""), "");
    assert_eq!(parse_u32("4294967295"), Some(u32::MAX));
    assert_eq!(parse_u32("4294967296"), None);
    assert_eq!(parse_u32("+"), None);
    assert_eq!(parse_u32(""), None);
    assert_eq!(parse_u32("007"), Some(7));
    assert!(contains("crash report", "sh r"));
    assert!(contains("anything", ""));
    assert!(!contains("abc", "abcd"));
    assert!(starts_with("https://x", "https://"));
    assert!(!starts_with("http", "https"));
    let mut out: Vec<char> = Vec::new();
    push_signed(&mut out, -6);
    push_signed(&mut out, 0);
    push_signed(&mut out, i32::MIN);
    assert_eq!(out.iter().collect::<String>(), "-60-2147483648");
}

#[test]
fn navigation_keeps_a_bounded_history_with_its_root() {
    let mut nav = Navigation::new(Route::Play);
    nav.push(Route::Play);
    assert_eq!(nav.history_len(), 1);
    nav.push(Route::Settings);
    nav.push(Route::Accounts);
    assert_eq!(nav.current(), &Route::Accounts);
    nav.back();
    assert_eq!(nav.current(), &Route::Settings);
    nav.back();
    assert_eq!(nav.current(), &Route::Play);
    nav.back();
    assert_eq!(nav.current(), &Route::Play);
    nav.replace(Route::Instances);
    assert_eq!(nav.current(), &Route::Instances);
    assert_eq!(nav.history_len(), 1);
    for i in 0..100 {
        let route = if i % 2 == 0 { Route::Settings } else { Route::Accounts };
        nav.push(route);
    }
    assert_eq!(nav.history_len(), MAX_HISTORY);
    while nav.history_len() > 1 {
        nav.back();
    }
    // The root entry survives the trimming.
    assert_eq!(nav.current(), &Route::Instances);
}

#[test]
fn resource_pages_list_rows_and_counts() {
    let instances = seed_instances(storage_ident(3));
    let fog = &instances[0];
    let mods = rows(fog, ResourceKind::Mods, "", "All loaders");
    assert_eq!(mods.len(), 16);
    assert_eq!(mods[0].name, "Sodium");
    assert_eq!(mods[0].detail, format!("0.6.9 · {}", fog.mods[0].file_name));
    assert_eq!(mods[0].enabled, Some(true));
    assert_eq!(mods[15].name, "legacy-addon-1.21.4.jar");
    assert_eq!(mods[15].detail, "");
    let found = rows(fog, ResourceKind::Mods, "iris", "Fabric");
    assert_eq!(found.iter().map(|r| r.id.as_str()).collect::<Vec<_>>(), vec!["m-iris"]);
    assert!(rows(fog, ResourceKind::Mods, "", "Forge").is_empty());
    let padded = rows(fog, ResourceKind::Mods, " IRIS\t", "Fabric");
    assert_eq!(padded.iter().map(|r| r.id.as_str()).collect::<Vec<_>>(), vec!["m-iris"]);
    assert!(mod_is_shown(&fog.mods[0], "sodium", "All loaders"));
    assert!(!mod_is_shown(&fog.mods[15], "", "Fabric"));
    let worlds = rows(fog, ResourceKind::Worlds, "ignored", "Forge");
    assert_eq!(worlds.len(), 3);
    assert_eq!(worlds[0].name, "Survival World");
    assert_eq!(worlds[0].detail, "seed 7421095342 · 2 hours ago · 4 players");
    assert_eq!(worlds[1].detail, "seed -92873144 · 3 days ago · 1 player");
    assert_eq!(worlds[0].metadata, "MC 1.21.4");
    assert_eq!(worlds[0].enabled, None);
    let packs = rows(fog, ResourceKind::Packs, "", "All loaders");
    assert_eq!(packs[0].metadata, "RayDyn · 6.4 MB");
    assert_eq!(resource_count(fog, ResourceKind::Mods), 16);
    assert_eq!(count_badge(fog, ResourceKind::Mods), "11/16 enabled");
    assert_eq!(count_badge(fog, ResourceKind::Shaders), "2");
}

#[test]
fn resource_pages_labels() {
    assert_eq!(ResourceKind::Packs.title(), "Resource packs");
    assert_eq!(ResourceKind::Worlds.description(), "Saved worlds for the instance you opened.");
    assert_eq!(empty_state(ResourceKind::Mods, 3).0, "No mods match");
    assert_eq!(empty_state(ResourceKind::Mods, 0).1, "Add .jar files to customize this instance.");
    assert_eq!(empty_state(ResourceKind::Worlds, 0).0, "No worlds yet");
    assert_eq!(add_label(ResourceKind::Mods), "Add mods…");
    assert_eq!(add_label(ResourceKind::Shaders), "Import…");
    assert_eq!(
        delete_confirmation(ResourceKind::Worlds, "Survival World"),
        ("Delete “Survival World”?".to_owned(), "The world and its saved progress are removed from this instance.")
    );
    assert_eq!(delete_confirmation(ResourceKind::Mods, "Sodium").1, "The resource is removed from this instance.");
}

#[test]
fn resource_pages_change_the_instance() {
    let mut store = scoped_store();
    assert!(set_enabled(&mut store, &fog(), ResourceKind::Mods, "m-rei", true));
    assert!(!set_enabled(&mut store, &fog(), ResourceKind::Mods, "m-rei", true));
    assert!(!set_enabled(&mut store, &fog(), ResourceKind::Worlds, "w-main", false));
    assert!(!set_enabled(&mut store, &fog(), ResourceKind::Mods, "m-missing", false));
    assert_eq!(store.find(&fog()).unwrap().enabled_mods(), 12);
    assert!(remove_resource(&mut store, &fog(), ResourceKind::Worlds, "w-main"));
    assert!(!remove_resource(&mut store, &fog(), ResourceKind::Worlds, "w-main"));
    assert_eq!(store.find(&fog()).unwrap().worlds.len(), 2);
    queue_world(&mut store, &fog(), "Creative Testing");
    let overrides = &store.find(&fog()).unwrap().launch_overrides;
    assert_eq!(overrides.get(LaunchField::QuickPlayMode), Some(&LaunchValue::QuickPlay(QuickPlayMode::World)));
    assert_eq!(
        overrides.get(LaunchField::QuickPlayTarget),
        Some(&LaunchValue::Text("Creative Testing".to_owned()))
    );
}

#[test]
fn theme_roles_take_their_palette_paint() {
    let opaque = |rgb: u32, shift: i8| Paint { rgb, opacity: Opacity::Opaque, shift };
    assert_eq!(palette_paint(ColorRole::Background), opaque(0x090B09, 0));
    assert_eq!(palette_paint(ColorRole::Border), Paint { rgb: 0xFFFFFF, opacity: Opacity::Byte(0x17), shift: 0 });
    assert_eq!(palette_paint(ColorRole::Selection), Paint { rgb: 0x349D62, opacity: Opacity::Percent(35), shift: 0 });
    assert_eq!(palette_paint(ColorRole::Overlay), Paint { rgb: 0x000000, opacity: Opacity::Percent(60), shift: 0 });
    assert_eq!(palette_paint(ColorRole::DangerHover), opaque(0xF05653, 4));
    assert_eq!(palette_paint(ColorRole::LinkActive), opaque(0x349D62, -6));
    assert_eq!(palette_paint(ColorRole::WarningForeground), opaque(0x090B09, 0));
    assert_eq!(palette_paint(ColorRole::ScrollbarThumbHover), Paint { rgb: 0xFFFFFF, opacity: Opacity::Percent(24), shift: 0 });
}

#[test]
fn accents_replace_only_their_roles() {
    assert_eq!(themed_paint(ColorRole::Primary, "gold"), Paint { rgb: 0xDCAF61, opacity: Opacity::Opaque, shift: 0 });
    assert_eq!(themed_paint(ColorRole::PrimaryActive, "gold"), Paint { rgb: 0xDCAF61, opacity: Opacity::Opaque, shift: -4 });
    assert_eq!(themed_paint(ColorRole::Selection, "teal"), Paint { rgb: 0x33A6A0, opacity: Opacity::Percent(35), shift: 0 });
    assert_eq!(themed_paint(ColorRole::ButtonPrimaryForeground, "slate").rgb, 0x070E16);
    assert_eq!(themed_paint(ColorRole::Chart5, "gold").rgb, 0x7B5C3E);
    // The accent leaves the neutral roles, and the hover shades it does not set, as they were.
    for role in [ColorRole::Background, ColorRole::Border, ColorRole::SuccessHover, ColorRole::LinkHover, ColorRole::Chart4] {
        assert_eq!(themed_paint(role, "gold"), palette_paint(role));
    }
    assert_eq!(themed_paint(ColorRole::Primary, "unknown"), palette_paint(ColorRole::Primary));
}

#[test]
fn page_names_open_their_routes() {
    let storage = storage_ident(2);
    let at = InstanceRef::new(storage, "inst-neo");
    assert_eq!(Route::from_page("play", storage, "inst-neo", "crash-jvm"), Some(Route::Play));
    assert_eq!(Route::from_page("mods", storage, "inst-neo", "crash-jvm"), Some(Route::Mods(at.clone())));
    assert_eq!(Route::from_page("launch-settings", storage, "inst-neo", "x"), Some(Route::LaunchSettings(at)));
    assert_eq!(
        Route::from_page("crash", storage, "inst-neo", "crash-jvm"),
        Some(Route::Crash(phanerite::route::CrashRef::new(storage, "crash-jvm")))
    );
    assert_eq!(Route::from_page("Play", storage, "inst-neo", "crash-jvm"), None);
    assert_eq!(Route::from_page("", storage, "inst-neo", "crash-jvm"), None);
}

#[test]
fn launch_settings_read_back_what_is_set_and_nothing_else() {
    let mut settings = phanerite::state::LaunchSettings::default();
    let before = settings.clone();
    settings.set(LaunchField::WindowWidth, LaunchValue::Number(1920));
    assert_eq!(settings.get(LaunchField::WindowWidth), LaunchValue::Number(1920));
    assert_eq!(settings.get(LaunchField::WindowHeight), before.get(LaunchField::WindowHeight));
    // A value of the wrong shape is ignored.
    settings.set(LaunchField::WindowWidth, LaunchValue::Flag(true));
    assert_eq!(settings.get(LaunchField::WindowWidth), LaunchValue::Number(1920));
    let copy = settings.clone();
    settings.set(LaunchField::Memory, copy.get(LaunchField::Memory));
    assert_eq!(settings, copy);
}

#[test]
fn overrides_resolve_over_the_globals_and_clear_away() {
    let global = phanerite::state::LaunchSettings::default();
    let mut overrides = phanerite::state::LaunchOverrides::new();
    assert_eq!(overrides.resolve(&global), global);
    assert!(overrides.set(LaunchField::Memory, LaunchValue::Number(12)));
    assert!(!overrides.set(LaunchField::Memory, LaunchValue::Number(12)));
    assert_eq!(overrides.get(LaunchField::Memory), Some(&LaunchValue::Number(12)));
    let resolved = overrides.resolve(&global);
    assert_eq!(resolved.memory, 12);
    assert_eq!(resolved.window_width, global.window_width);
    assert!(overrides.clear(LaunchField::Memory));
    assert!(!overrides.is_overridden(LaunchField::Memory));
    assert!(!overrides.clear(LaunchField::Memory));
    assert_eq!(overrides.resolve(&global), global);
}

#[test]
fn launch_phases_partition_the_progress() {
    use_phase(0, "Preparing");
    use_phase(999, "Preparing");
    use_phase(1000, "Resolving");
    use_phase(6199, "DownloadingAssets");
    use_phase(8400, "ExtractingNatives");
    use_phase(9999, "Launching");
    use_phase(10000, "Launching");
    use_phase(u32::MAX, "Launching");
}

fn use_phase(progress: u32, expected: &str) {
    assert_eq!(format!("{:?}", phanerite::state::LaunchPhase::for_progress(progress)), expected);
}
