//! Global launcher preferences and the settings store.
use vstd::prelude::*;

use crate::plain::PlainData;
use crate::seqs::{first_index, lemma_first_index, position_where};
use crate::state::instances::{allocated_id, JavaRuntimeSummary, JavaRuntimeSummaryView};
use crate::state::launch::{default_launch_settings, LaunchSettings, LaunchSettingsView};
use crate::text::{chars_of, decimal, is_whitespace, push_decimal, push_hex8, push_str, str_eq, string_of};

verus! {

/// The priority the game process runs at.
#[derive(Clone, Copy, Debug, PartialEq, Eq, Structural)]
pub enum ProcessPriority {
    Low,
    Normal,
    High,
}

impl ProcessPriority {
    pub const ALL: [ProcessPriority; 3] = [ProcessPriority::Low, ProcessPriority::Normal, ProcessPriority::High];

    pub fn label(self) -> (r: &'static str)
        ensures
            r@ == match self {
                ProcessPriority::Low => "Low"@,
                ProcessPriority::Normal => "Normal"@,
                ProcessPriority::High => "High"@,
            },
    {
        match self {
            ProcessPriority::Low => "Low",
            ProcessPriority::Normal => "Normal",
            ProcessPriority::High => "High",
        }
    }
}

impl DeepView for ProcessPriority {
    type V = ProcessPriority;

    open spec fn deep_view(&self) -> ProcessPriority {
        *self
    }
}

impl PlainData for ProcessPriority {
    fn same(&self, other: &Self) -> (r: bool) {
        *self == *other
    }

    fn copied(&self) -> (r: Self) {
        *self
    }
}

/// Languages offered by the appearance section.
pub const LANGUAGES: [(&'static str, &'static str); 4] = [("en", "English"), ("zh", "简体中文"), ("de", "Deutsch"), ("ja", "日本語")];

/// UI font size choices offered by the appearance section.
pub const FONT_SIZES: [(&'static str, &'static str); 3] = [("sm", "Small"), ("md", "Medium"), ("lg", "Large")];


/// Global launcher preferences that are not launch settings.
#[derive(Clone, Debug, PartialEq, Eq)]
pub struct Preferences {
    pub close_after_launch: bool,
    pub hide_on_launch: bool,
    pub multi_instance: bool,
    pub check_updates: bool,
    pub download_threads: u32,
    pub connection_timeout: u32,
    pub language: String,
    pub font_size: String,
    pub show_news: bool,
    pub aphanite_server: String,
    pub show_game_logs: bool,
    pub debug_logs: bool,
    pub generate_game_options: bool,
    pub process_priority: ProcessPriority,
    pub opengl_renderer: String,
    pub vulkan_renderer: String,
    pub prefer_high_performance_gpu: bool,
}

/// The abstract value of `Preferences`.
pub struct PreferencesView {
    pub close_after_launch: bool,
    pub hide_on_launch: bool,
    pub multi_instance: bool,
    pub check_updates: bool,
    pub download_threads: u32,
    pub connection_timeout: u32,
    pub language: Seq<char>,
    pub font_size: Seq<char>,
    pub show_news: bool,
    pub aphanite_server: Seq<char>,
    pub show_game_logs: bool,
    pub debug_logs: bool,
    pub generate_game_options: bool,
    pub process_priority: ProcessPriority,
    pub opengl_renderer: Seq<char>,
    pub vulkan_renderer: Seq<char>,
    pub prefer_high_performance_gpu: bool,
}

impl DeepView for Preferences {
    type V = PreferencesView;

    open spec fn deep_view(&self) -> PreferencesView {
        PreferencesView {
            close_after_launch: self.close_after_launch.deep_view(),
            hide_on_launch: self.hide_on_launch.deep_view(),
            multi_instance: self.multi_instance.deep_view(),
            check_updates: self.check_updates.deep_view(),
            download_threads: self.download_threads.deep_view(),
            connection_timeout: self.connection_timeout.deep_view(),
            language: self.language.deep_view(),
            font_size: self.font_size.deep_view(),
            show_news: self.show_news.deep_view(),
            aphanite_server: self.aphanite_server.deep_view(),
            show_game_logs: self.show_game_logs.deep_view(),
            debug_logs: self.debug_logs.deep_view(),
            generate_game_options: self.generate_game_options.deep_view(),
            process_priority: self.process_priority.deep_view(),
            opengl_renderer: self.opengl_renderer.deep_view(),
            vulkan_renderer: self.vulkan_renderer.deep_view(),
            prefer_high_performance_gpu: self.prefer_high_performance_gpu.deep_view(),
        }
    }
}

impl View for Preferences {
    type V = PreferencesView;

    open spec fn view(&self) -> PreferencesView {
        self.deep_view()
    }
}

impl PlainData for Preferences {
    fn same(&self, other: &Self) -> (r: bool) {
        self.close_after_launch.same(&other.close_after_launch)
            && self.hide_on_launch.same(&other.hide_on_launch)
            && self.multi_instance.same(&other.multi_instance)
            && self.check_updates.same(&other.check_updates)
            && self.download_threads.same(&other.download_threads)
            && self.connection_timeout.same(&other.connection_timeout)
            && self.language.same(&other.language)
            && self.font_size.same(&other.font_size)
            && self.show_news.same(&other.show_news)
            && self.aphanite_server.same(&other.aphanite_server)
            && self.show_game_logs.same(&other.show_game_logs)
            && self.debug_logs.same(&other.debug_logs)
            && self.generate_game_options.same(&other.generate_game_options)
            && self.process_priority.same(&other.process_priority)
            && self.opengl_renderer.same(&other.opengl_renderer)
            && self.vulkan_renderer.same(&other.vulkan_renderer)
            && self.prefer_high_performance_gpu.same(&other.prefer_high_performance_gpu)
    }

    fn copied(&self) -> (r: Self) {
        Preferences {
            close_after_launch: self.close_after_launch.copied(),
            hide_on_launch: self.hide_on_launch.copied(),
            multi_instance: self.multi_instance.copied(),
            check_updates: self.check_updates.copied(),
            download_threads: self.download_threads.copied(),
            connection_timeout: self.connection_timeout.copied(),
            language: self.language.copied(),
            font_size: self.font_size.copied(),
            show_news: self.show_news.copied(),
            aphanite_server: self.aphanite_server.copied(),
            show_game_logs: self.show_game_logs.copied(),
            debug_logs: self.debug_logs.copied(),
            generate_game_options: self.generate_game_options.copied(),
            process_priority: self.process_priority.copied(),
            opengl_renderer: self.opengl_renderer.copied(),
            vulkan_renderer: self.vulkan_renderer.copied(),
            prefer_high_performance_gpu: self.prefer_high_performance_gpu.copied(),
        }
    }
}

/// The default preferences.
pub open spec fn default_preferences() -> PreferencesView {
    PreferencesView {
        close_after_launch: false,
        hide_on_launch: true,
        multi_instance: true,
        check_updates: true,
        download_threads: 4,
        connection_timeout: 30,
        language: "en"@,
        font_size: "md"@,
        show_news: true,
        aphanite_server: "https://aphanite.enita.cn/"@,
        show_game_logs: true,
        debug_logs: false,
        generate_game_options: true,
        process_priority: ProcessPriority::Normal,
        opengl_renderer: "Default"@,
        vulkan_renderer: "Default"@,
        prefer_high_performance_gpu: true,
    }
}

impl Default for Preferences {
    fn default() -> (r: Self)
        ensures
            r@ == default_preferences(),
    {
        Preferences {
            close_after_launch: false,
            hide_on_launch: true,
            multi_instance: true,
            check_updates: true,
            download_threads: 4,
            connection_timeout: 30,
            language: "en".to_owned(),
            font_size: "md".to_owned(),
            show_news: true,
            aphanite_server: "https://aphanite.enita.cn/".to_owned(),
            show_game_logs: true,
            debug_logs: false,
            generate_game_options: true,
            process_priority: ProcessPriority::Normal,
            opengl_renderer: "Default".to_owned(),
            vulkan_renderer: "Default".to_owned(),
            prefer_high_performance_gpu: true,
        }
    }
}

/// Boolean preferences the settings page toggles generically.
#[derive(Clone, Copy, Debug, PartialEq, Eq, Structural)]
pub enum PreferenceFlag {
    CloseAfterLaunch,
    HideOnLaunch,
    MultiInstance,
    CheckUpdates,
    ShowNews,
    ShowGameLogs,
    DebugLogs,
    GenerateGameOptions,
    PreferHighPerformanceGpu,
}

/// The value a flag has in the preferences.
pub open spec fn flag_of(p: PreferencesView, flag: PreferenceFlag) -> bool {
    match flag {
        PreferenceFlag::CloseAfterLaunch => p.close_after_launch,
        PreferenceFlag::HideOnLaunch => p.hide_on_launch,
        PreferenceFlag::MultiInstance => p.multi_instance,
        PreferenceFlag::CheckUpdates => p.check_updates,
        PreferenceFlag::ShowNews => p.show_news,
        PreferenceFlag::ShowGameLogs => p.show_game_logs,
        PreferenceFlag::DebugLogs => p.debug_logs,
        PreferenceFlag::GenerateGameOptions => p.generate_game_options,
        PreferenceFlag::PreferHighPerformanceGpu => p.prefer_high_performance_gpu,
    }
}

/// The preferences with one flag set.
pub open spec fn with_flag(p: PreferencesView, flag: PreferenceFlag, value: bool) -> PreferencesView {
    match flag {
        PreferenceFlag::CloseAfterLaunch => PreferencesView { close_after_launch: value, ..p },
        PreferenceFlag::HideOnLaunch => PreferencesView { hide_on_launch: value, ..p },
        PreferenceFlag::MultiInstance => PreferencesView { multi_instance: value, ..p },
        PreferenceFlag::CheckUpdates => PreferencesView { check_updates: value, ..p },
        PreferenceFlag::ShowNews => PreferencesView { show_news: value, ..p },
        PreferenceFlag::ShowGameLogs => PreferencesView { show_game_logs: value, ..p },
        PreferenceFlag::DebugLogs => PreferencesView { debug_logs: value, ..p },
        PreferenceFlag::GenerateGameOptions => PreferencesView { generate_game_options: value, ..p },
        PreferenceFlag::PreferHighPerformanceGpu => PreferencesView { prefer_high_performance_gpu: value, ..p },
    }
}

impl PreferenceFlag {
    pub fn key(self) -> (r: &'static str)
        ensures
            r@ == match self {
                PreferenceFlag::CloseAfterLaunch => "closeAfterLaunch"@,
                PreferenceFlag::HideOnLaunch => "hideOnLaunch"@,
                PreferenceFlag::MultiInstance => "multiInstance"@,
                PreferenceFlag::CheckUpdates => "checkUpdates"@,
                PreferenceFlag::ShowNews => "showNews"@,
                PreferenceFlag::ShowGameLogs => "showGameLogs"@,
                PreferenceFlag::DebugLogs => "debugLogs"@,
                PreferenceFlag::GenerateGameOptions => "generateGameOptions"@,
                PreferenceFlag::PreferHighPerformanceGpu => "preferHighPerformanceGpu"@,
            },
    {
        match self {
            PreferenceFlag::CloseAfterLaunch => "closeAfterLaunch",
            PreferenceFlag::HideOnLaunch => "hideOnLaunch",
            PreferenceFlag::MultiInstance => "multiInstance",
            PreferenceFlag::CheckUpdates => "checkUpdates",
            PreferenceFlag::ShowNews => "showNews",
            PreferenceFlag::ShowGameLogs => "showGameLogs",
            PreferenceFlag::DebugLogs => "debugLogs",
            PreferenceFlag::GenerateGameOptions => "generateGameOptions",
            PreferenceFlag::PreferHighPerformanceGpu => "preferHighPerformanceGpu",
        }
    }
}

impl Preferences {
    pub fn flag(&self, flag: PreferenceFlag) -> (r: bool)
        ensures
            r == flag_of(self@, flag),
    {
        match flag {
            PreferenceFlag::CloseAfterLaunch => self.close_after_launch,
            PreferenceFlag::HideOnLaunch => self.hide_on_launch,
            PreferenceFlag::MultiInstance => self.multi_instance,
            PreferenceFlag::CheckUpdates => self.check_updates,
            PreferenceFlag::ShowNews => self.show_news,
            PreferenceFlag::ShowGameLogs => self.show_game_logs,
            PreferenceFlag::DebugLogs => self.debug_logs,
            PreferenceFlag::GenerateGameOptions => self.generate_game_options,
            PreferenceFlag::PreferHighPerformanceGpu => self.prefer_high_performance_gpu,
        }
    }

    pub fn set_flag(&mut self, flag: PreferenceFlag, value: bool)
        ensures
            final(self)@ == with_flag(old(self)@, flag, value),
    {
        match flag {
            PreferenceFlag::CloseAfterLaunch => self.close_after_launch = value,
            PreferenceFlag::HideOnLaunch => self.hide_on_launch = value,
            PreferenceFlag::MultiInstance => self.multi_instance = value,
            PreferenceFlag::CheckUpdates => self.check_updates = value,
            PreferenceFlag::ShowNews => self.show_news = value,
            PreferenceFlag::ShowGameLogs => self.show_game_logs = value,
            PreferenceFlag::DebugLogs => self.debug_logs = value,
            PreferenceFlag::GenerateGameOptions => self.generate_game_options = value,
            PreferenceFlag::PreferHighPerformanceGpu => self.prefer_high_performance_gpu = value,
        }
    }
}

/// Setting a flag and reading it back gives the value set; no other flag moves.
pub proof fn law_flag_after_set_flag(p: PreferencesView, flag: PreferenceFlag, other: PreferenceFlag, value: bool)
    ensures
        flag_of(with_flag(p, flag, value), flag) == value,
        other != flag ==> flag_of(with_flag(p, flag, value), other) == flag_of(p, other),
        with_flag(p, flag, flag_of(p, flag)) == p,
{
}

/// Launch settings, preferences and the accent color.
#[derive(Clone, Debug, PartialEq, Eq)]
pub struct Settings {
    pub launch: LaunchSettings,
    pub preferences: Preferences,
    pub accent: String,
}

/// The abstract value of `Settings`.
pub struct SettingsView {
    pub launch: LaunchSettingsView,
    pub preferences: PreferencesView,
    pub accent: Seq<char>,
}

impl DeepView for Settings {
    type V = SettingsView;

    open spec fn deep_view(&self) -> SettingsView {
        SettingsView {
            launch: self.launch.deep_view(),
            preferences: self.preferences.deep_view(),
            accent: self.accent.deep_view(),
        }
    }
}

impl View for Settings {
    type V = SettingsView;

    open spec fn view(&self) -> SettingsView {
        self.deep_view()
    }
}

impl PlainData for Settings {
    fn same(&self, other: &Self) -> (r: bool) {
        self.launch.same(&other.launch)
            && self.preferences.same(&other.preferences)
            && self.accent.same(&other.accent)
    }

    fn copied(&self) -> (r: Self) {
        Settings {
            launch: self.launch.copied(),
            preferences: self.preferences.copied(),
            accent: self.accent.copied(),
        }
    }
}

/// The default settings.
pub open spec fn default_settings() -> SettingsView {
    SettingsView { launch: default_launch_settings(), preferences: default_preferences(), accent: "emerald"@ }
}

impl Default for Settings {
    fn default() -> (r: Self)
        ensures
            r@ == default_settings(),
    {
        Settings { launch: LaunchSettings::default(), preferences: Preferences::default(), accent: "emerald".to_owned() }
    }
}

/// The abstract state of a settings store.
pub struct SettingsStoreView {
    pub settings: SettingsView,
    pub runtimes: Seq<JavaRuntimeSummaryView>,
    pub next_id: u64,
    pub revision: u64,
}

/// Selects the runtime with the given id.
pub open spec fn runtime_with_id(id: Seq<char>) -> spec_fn(JavaRuntimeSummaryView) -> bool {
    |r: JavaRuntimeSummaryView| r.id == id
}

/// The runtime `add_runtime` records.
pub open spec fn added_runtime(id_counter: u64, name: Seq<char>, version: u32, path: Seq<char>) -> JavaRuntimeSummaryView {
    JavaRuntimeSummaryView {
        id: allocated_id("java"@, id_counter),
        name,
        version,
        version_string: decimal(version as nat),
        path,
        managed: false,
    }
}

/// Settings, preferences and the known Java runtimes, with a revision that
/// advances exactly when they change.
pub struct SettingsStore {
    settings: Settings,
    runtimes: Vec<JavaRuntimeSummary>,
    next_id: u64,
    revision: u64,
}

impl View for SettingsStore {
    type V = SettingsStoreView;

    closed spec fn view(&self) -> SettingsStoreView {
        SettingsStoreView {
            settings: self.settings.deep_view(),
            runtimes: self.runtimes.deep_view(),
            next_id: self.next_id,
            revision: self.revision,
        }
    }
}

impl Default for SettingsStore {
    fn default() -> (r: Self)
        ensures
            r@ == (SettingsStoreView { settings: default_settings(), runtimes: Seq::empty(), next_id: 0, revision: 0 }),
    {
        let r = SettingsStore { settings: Settings::default(), runtimes: Vec::new(), next_id: 0, revision: 0 };
        assert(r@.runtimes =~= Seq::<JavaRuntimeSummaryView>::empty());
        r
    }
}

impl SettingsStore {
    pub fn new(settings: Settings, runtimes: Vec<JavaRuntimeSummary>) -> (r: Self)
        ensures
            r@ == (SettingsStoreView { settings: settings@, runtimes: runtimes.deep_view(), next_id: 0, revision: 0 }),
    {
        SettingsStore { settings, runtimes, next_id: 0, revision: 0 }
    }

    pub fn settings(&self) -> (r: &Settings)
        ensures
            r@ == self@.settings,
    {
        &self.settings
    }

    pub fn launch(&self) -> (r: &LaunchSettings)
        ensures
            r@ == self@.settings.launch,
    {
        &self.settings.launch
    }

    pub fn preferences(&self) -> (r: &Preferences)
        ensures
            r@ == self@.settings.preferences,
    {
        &self.settings.preferences
    }

    pub fn accent(&self) -> (r: &str)
        ensures
            r@ == self@.settings.accent,
    {
        self.settings.accent.as_str()
    }

    pub fn runtimes(&self) -> (r: &[JavaRuntimeSummary])
        ensures
            r.deep_view() == self@.runtimes,
    {
        self.runtimes.as_slice()
    }

    /// The runtime with the given id.
    pub fn runtime(&self, id: &str) -> (r: Option<&JavaRuntimeSummary>)
        ensures
            r matches Some(rt) ==> first_index(self@.runtimes, runtime_with_id(id@)) matches Some(k)
                && rt.deep_view() == self@.runtimes[k],
            r is None ==> first_index(self@.runtimes, runtime_with_id(id@)) is None,
    {
        let ghost t = id@;
        proof {
            lemma_first_index(self@.runtimes, runtime_with_id(t));
        }
        match position_where(
            &self.runtimes,
            |rt: &JavaRuntimeSummary| -> (b: bool) ensures b == (rt.deep_view().id == t) { str_eq(rt.id.as_str(), id) },
            Ghost(runtime_with_id(t)),
        ) {
            Some(k) => Some(&self.runtimes[k]),
            None => None,
        }
    }

    pub fn revision(&self) -> (r: u64)
        ensures
            r == self@.revision,
    {
        self.revision
    }

    /// Changes the accent color; an equal value changes nothing.
    pub fn set_accent(&mut self, value: &str) -> (r: bool)
        requires
            old(self)@.revision < u64::MAX,
        ensures
            r == (old(self)@.settings.accent != value@),
            r ==> final(self)@ == (SettingsStoreView {
                settings: SettingsView { accent: value@, ..old(self)@.settings },
                revision: (old(self)@.revision + 1) as u64,
                ..old(self)@
            }),
            !r ==> final(self)@ == old(self)@,
    {
        if str_eq(self.settings.accent.as_str(), value) {
            return false;
        }
        self.settings.accent = value.to_owned();
        self.revision += 1;
        true
    }

    /// Replaces the launch settings; equal settings change nothing.
    pub fn set_launch(&mut self, value: LaunchSettings) -> (r: bool)
        requires
            old(self)@.revision < u64::MAX,
        ensures
            r == (old(self)@.settings.launch != value@),
            r ==> final(self)@ == (SettingsStoreView {
                settings: SettingsView { launch: value@, ..old(self)@.settings },
                revision: (old(self)@.revision + 1) as u64,
                ..old(self)@
            }),
            !r ==> final(self)@ == old(self)@,
    {
        if self.settings.launch.same(&value) {
            return false;
        }
        self.settings.launch = value;
        self.revision += 1;
        true
    }

    /// Applies `edit` to a copy of the launch settings and stores the result.
    pub fn update_launch<F: FnOnce(LaunchSettings) -> LaunchSettings>(&mut self, edit: F) -> (r: bool)
        requires
            old(self)@.revision < u64::MAX,
            forall|s: LaunchSettings| #[trigger] edit.requires((s,)),
        ensures
            exists|input: LaunchSettings, output: LaunchSettings|
                input@ == old(self)@.settings.launch && #[trigger] edit.ensures((input,), output) && {
                    &&& r == (old(self)@.settings.launch != output@)
                    &&& r ==> final(self)@ == (SettingsStoreView {
                        settings: SettingsView { launch: output@, ..old(self)@.settings },
                        revision: (old(self)@.revision + 1) as u64,
                        ..old(self)@
                    })
                    &&& !r ==> final(self)@ == old(self)@
                },
    {
        let input = self.settings.launch.copied();
        let output = edit(input);
        self.set_launch(output)
    }

    /// Replaces the preferences; equal preferences change nothing.
    pub fn set_preferences(&mut self, value: Preferences) -> (r: bool)
        requires
            old(self)@.revision < u64::MAX,
        ensures
            r == (old(self)@.settings.preferences != value@),
            r ==> final(self)@ == (SettingsStoreView {
                settings: SettingsView { preferences: value@, ..old(self)@.settings },
                revision: (old(self)@.revision + 1) as u64,
                ..old(self)@
            }),
            !r ==> final(self)@ == old(self)@,
    {
        if self.settings.preferences.same(&value) {
            return false;
        }
        self.settings.preferences = value;
        self.revision += 1;
        true
    }

    /// Applies `edit` to a copy of the preferences and stores the result.
    pub fn update_preferences<F: FnOnce(Preferences) -> Preferences>(&mut self, edit: F) -> (r: bool)
        requires
            old(self)@.revision < u64::MAX,
            forall|p: Preferences| #[trigger] edit.requires((p,)),
        ensures
            exists|input: Preferences, output: Preferences|
                input@ == old(self)@.settings.preferences && #[trigger] edit.ensures((input,), output) && {
                    &&& r == (old(self)@.settings.preferences != output@)
                    &&& r ==> final(self)@ == (SettingsStoreView {
                        settings: SettingsView { preferences: output@, ..old(self)@.settings },
                        revision: (old(self)@.revision + 1) as u64,
                        ..old(self)@
                    })
                    &&& !r ==> final(self)@ == old(self)@
                },
    {
        let input = self.settings.preferences.copied();
        let output = edit(input);
        self.set_preferences(output)
    }

    /// Sets one boolean preference; an equal value changes nothing.
    pub fn set_flag(&mut self, flag: PreferenceFlag, value: bool) -> (r: bool)
        requires
            old(self)@.revision < u64::MAX,
        ensures
            ({
                let next = with_flag(old(self)@.settings.preferences, flag, value);
                &&& r == (old(self)@.settings.preferences != next)
                &&& r ==> final(self)@ == (SettingsStoreView {
                    settings: SettingsView { preferences: next, ..old(self)@.settings },
                    revision: (old(self)@.revision + 1) as u64,
                    ..old(self)@
                })
                &&& !r ==> final(self)@ == old(self)@
            }),
    {
        let mut next = self.settings.preferences.copied();
        next.set_flag(flag, value);
        self.set_preferences(next)
    }

    /// Registers a Java runtime; a blank name or an empty path is refused.
    pub fn add_runtime(&mut self, name: &str, version: u32, path: &str) -> (r: bool)
        requires
            old(self)@.revision < u64::MAX,
            old(self)@.next_id < u64::MAX,
        ensures
            r == (path@.len() > 0 && exists|i: int| 0 <= i < name@.len() && !is_whitespace(#[trigger] name@[i])),
            r ==> final(self)@ == (SettingsStoreView {
                runtimes: old(self)@.runtimes.push(added_runtime((old(self)@.next_id + 1) as u64, name@, version, path@)),
                next_id: (old(self)@.next_id + 1) as u64,
                revision: (old(self)@.revision + 1) as u64,
                ..old(self)@
            }),
            !r ==> final(self)@ == old(self)@,
    {
        let chars = chars_of(name);
        let mut blank = true;
        let mut i: usize = 0;
        while i < chars.len()
            invariant
                i <= chars.len(),
                chars@ == name@,
                blank == forall|j: int| 0 <= j < i ==> is_whitespace(#[trigger] name@[j]),
            decreases chars.len() - i,
        {
            if !crate::text::char_is_whitespace(chars[i]) {
                blank = false;
            }
            i += 1;
        }
        if blank || path.is_empty() {
            return false;
        }
        self.next_id += 1;
        let mut id: Vec<char> = Vec::new();
        push_str(&mut id, "java");
        id.push('-');
        push_hex8(&mut id, self.next_id);
        let mut version_digits: Vec<char> = Vec::new();
        push_decimal(&mut version_digits, version as u64);
        let runtime = JavaRuntimeSummary {
            id: string_of(&id),
            name: name.to_owned(),
            version,
            version_string: string_of(&version_digits),
            path: path.to_owned(),
            managed: false,
        };
        let ghost before = self.runtimes.deep_view();
        assert(runtime.deep_view() == added_runtime(self.next_id, name@, version, path@)) by {
            assert(runtime.id@ =~= allocated_id("java"@, self.next_id));
        }
        self.runtimes.push(runtime);
        self.revision += 1;
        assert(self.runtimes.deep_view() =~= before.push(added_runtime(self.next_id, name@, version, path@)));
        true
    }
}

} // verus!
