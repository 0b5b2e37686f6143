//! Launch configuration, overrides, progress, and launch-state storage.
use vstd::prelude::*;

use crate::route::{InstanceRef, RefView};
use crate::seqs::{first_index, lemma_filter_keeps_all, lemma_first_index, position_by, retain_by};
use crate::state::Loader;
use crate::text::str_eq;
use crate::plain::PlainData;

verus! {

/// How the game's memory is chosen.
#[derive(Clone, Copy, Debug, PartialEq, Eq, Structural)]
pub enum MemoryMode {
    Auto,
    Manual,
}

/// The label of a memory mode.
pub open spec fn memory_mode_label(m: MemoryMode) -> Seq<char> {
    match m {
        MemoryMode::Auto => "Automatic"@,
        MemoryMode::Manual => "Manual"@,
    }
}

impl MemoryMode {
    pub const ALL: [MemoryMode; 2] = [MemoryMode::Auto, MemoryMode::Manual];

    pub fn label(self) -> (r: &'static str)
        ensures
            r@ == memory_mode_label(self),
    {
        match self {
            MemoryMode::Auto => "Automatic",
            MemoryMode::Manual => "Manual",
        }
    }
}

/// How the game window opens.
#[derive(Clone, Copy, Debug, PartialEq, Eq, Structural)]
pub enum WindowMode {
    Windowed,
    Maximized,
    Fullscreen,
}

/// The label of a window mode.
pub open spec fn window_mode_label(m: WindowMode) -> Seq<char> {
    match m {
        WindowMode::Windowed => "Windowed"@,
        WindowMode::Maximized => "Maximized"@,
        WindowMode::Fullscreen => "Fullscreen"@,
    }
}

impl WindowMode {
    pub const ALL: [WindowMode; 3] = [WindowMode::Windowed, WindowMode::Maximized, WindowMode::Fullscreen];

    pub fn label(self) -> (r: &'static str)
        ensures
            r@ == window_mode_label(self),
    {
        match self {
            WindowMode::Windowed => "Windowed",
            WindowMode::Maximized => "Maximized",
            WindowMode::Fullscreen => "Fullscreen",
        }
    }
}

/// Where the game jumps right after it starts.
#[derive(Clone, Copy, Debug, PartialEq, Eq, Structural)]
pub enum QuickPlayMode {
    Off,
    Server,
    World,
    Realms,
}

/// The label of a quick play mode.
pub open spec fn quick_play_label(m: QuickPlayMode) -> Seq<char> {
    match m {
        QuickPlayMode::Off => "No quick play"@,
        QuickPlayMode::Server => "Multiplayer server"@,
        QuickPlayMode::World => "Single-player world"@,
        QuickPlayMode::Realms => "Realms ID"@,
    }
}

impl QuickPlayMode {
    pub const ALL: [QuickPlayMode; 4] = [QuickPlayMode::Off, QuickPlayMode::Server, QuickPlayMode::World, QuickPlayMode::Realms];

    pub fn label(self) -> (r: &'static str)
        ensures
            r@ == quick_play_label(self),
    {
        match self {
            QuickPlayMode::Off => "No quick play",
            QuickPlayMode::Server => "Multiplayer server",
            QuickPlayMode::World => "Single-player world",
            QuickPlayMode::Realms => "Realms ID",
        }
    }

    /// Placeholder for the target input.
    pub fn target_placeholder(self) -> (r: &'static str)
        ensures
            r@ == match self {
                QuickPlayMode::Off => ""@,
                QuickPlayMode::Server => "Server address"@,
                QuickPlayMode::World => "World name"@,
                QuickPlayMode::Realms => "Realms ID"@,
            },
    {
        match self {
            QuickPlayMode::Off => "",
            QuickPlayMode::Server => "Server address",
            QuickPlayMode::World => "World name",
            QuickPlayMode::Realms => "Realms ID",
        }
    }
}

/// Every launch setting an instance may override individually, in the order
/// the launch settings page renders them.
#[derive(Clone, Copy, Debug, PartialEq, Eq, PartialOrd, Ord, Hash, Structural)]
pub enum LaunchField {
    Memory,
    MemoryMode,
    WindowMode,
    WindowWidth,
    WindowHeight,
    QuickPlayMode,
    QuickPlayTarget,
    GameArgs,
    EnvironmentVariables,
    JavaArgs,
    PreLaunchCommand,
    CommandWrapper,
    PostExitCommand,
    NativesPath,
    GlfwPath,
    OpenalPath,
    UseDefaultJvmArgs,
    UseOptimizedJvmArgs,
    SkipJvmValidation,
    AllowAutoAgent,
    SkipIntegrityCheck,
    UseCustomNatives,
    SkipNativePatching,
}

/// The number of launch fields.
pub const FIELD_COUNT: usize = 23;

/// The position of a field in rendering order.
pub open spec fn field_index(f: LaunchField) -> int {
    match f {
        LaunchField::Memory => 0,
        LaunchField::MemoryMode => 1,
        LaunchField::WindowMode => 2,
        LaunchField::WindowWidth => 3,
        LaunchField::WindowHeight => 4,
        LaunchField::QuickPlayMode => 5,
        LaunchField::QuickPlayTarget => 6,
        LaunchField::GameArgs => 7,
        LaunchField::EnvironmentVariables => 8,
        LaunchField::JavaArgs => 9,
        LaunchField::PreLaunchCommand => 10,
        LaunchField::CommandWrapper => 11,
        LaunchField::PostExitCommand => 12,
        LaunchField::NativesPath => 13,
        LaunchField::GlfwPath => 14,
        LaunchField::OpenalPath => 15,
        LaunchField::UseDefaultJvmArgs => 16,
        LaunchField::UseOptimizedJvmArgs => 17,
        LaunchField::SkipJvmValidation => 18,
        LaunchField::AllowAutoAgent => 19,
        LaunchField::SkipIntegrityCheck => 20,
        LaunchField::UseCustomNatives => 21,
        LaunchField::SkipNativePatching => 22,
    }
}

/// The field at a position in rendering order.
pub open spec fn field_at(i: int) -> LaunchField {
    if i == 0 {
        LaunchField::Memory
    } else if i == 1 {
        LaunchField::MemoryMode
    } else if i == 2 {
        LaunchField::WindowMode
    } else if i == 3 {
        LaunchField::WindowWidth
    } else if i == 4 {
        LaunchField::WindowHeight
    } else if i == 5 {
        LaunchField::QuickPlayMode
    } else if i == 6 {
        LaunchField::QuickPlayTarget
    } else if i == 7 {
        LaunchField::GameArgs
    } else if i == 8 {
        LaunchField::EnvironmentVariables
    } else if i == 9 {
        LaunchField::JavaArgs
    } else if i == 10 {
        LaunchField::PreLaunchCommand
    } else if i == 11 {
        LaunchField::CommandWrapper
    } else if i == 12 {
        LaunchField::PostExitCommand
    } else if i == 13 {
        LaunchField::NativesPath
    } else if i == 14 {
        LaunchField::GlfwPath
    } else if i == 15 {
        LaunchField::OpenalPath
    } else if i == 16 {
        LaunchField::UseDefaultJvmArgs
    } else if i == 17 {
        LaunchField::UseOptimizedJvmArgs
    } else if i == 18 {
        LaunchField::SkipJvmValidation
    } else if i == 19 {
        LaunchField::AllowAutoAgent
    } else if i == 20 {
        LaunchField::SkipIntegrityCheck
    } else if i == 21 {
        LaunchField::UseCustomNatives
    } else {
        LaunchField::SkipNativePatching
    }
}

/// All fields, in rendering order.
pub open spec fn all_fields() -> Seq<LaunchField> {
    Seq::new(FIELD_COUNT as nat, |i: int| field_at(i))
}

pub proof fn lemma_field_index(f: LaunchField)
    ensures
        0 <= field_index(f) < FIELD_COUNT,
        field_at(field_index(f)) == f,
{
}

pub proof fn lemma_field_at(i: int)
    requires
        0 <= i < FIELD_COUNT,
    ensures
        field_index(field_at(i)) == i,
{
}

/// The stable key of a field, used for element ids and crash summaries.
pub open spec fn field_key(f: LaunchField) -> Seq<char> {
    match f {
        LaunchField::Memory => "memory"@,
        LaunchField::MemoryMode => "memoryMode"@,
        LaunchField::WindowMode => "windowMode"@,
        LaunchField::WindowWidth => "windowWidth"@,
        LaunchField::WindowHeight => "windowHeight"@,
        LaunchField::QuickPlayMode => "quickPlayMode"@,
        LaunchField::QuickPlayTarget => "quickPlayTarget"@,
        LaunchField::GameArgs => "gameArgs"@,
        LaunchField::EnvironmentVariables => "environmentVariables"@,
        LaunchField::JavaArgs => "javaArgs"@,
        LaunchField::PreLaunchCommand => "preLaunchCommand"@,
        LaunchField::CommandWrapper => "commandWrapper"@,
        LaunchField::PostExitCommand => "postExitCommand"@,
        LaunchField::NativesPath => "nativesPath"@,
        LaunchField::GlfwPath => "glfwPath"@,
        LaunchField::OpenalPath => "openalPath"@,
        LaunchField::UseDefaultJvmArgs => "useDefaultJvmArgs"@,
        LaunchField::UseOptimizedJvmArgs => "useOptimizedJvmArgs"@,
        LaunchField::SkipJvmValidation => "skipJvmValidation"@,
        LaunchField::AllowAutoAgent => "allowAutoAgent"@,
        LaunchField::SkipIntegrityCheck => "skipIntegrityCheck"@,
        LaunchField::UseCustomNatives => "useCustomNatives"@,
        LaunchField::SkipNativePatching => "skipNativePatching"@,
    }
}

/// The launch-field keys are distinct: two different fields never share a
/// stable identifier.
pub proof fn law_field_keys_distinct(f: LaunchField, g: LaunchField)
    requires
        f != g,
    ensures
        field_key(f) != field_key(g),
{
    reveal_strlit("memory");
    reveal_strlit("memoryMode");
    reveal_strlit("windowMode");
    reveal_strlit("windowWidth");
    reveal_strlit("windowHeight");
    reveal_strlit("quickPlayMode");
    reveal_strlit("quickPlayTarget");
    reveal_strlit("gameArgs");
    reveal_strlit("environmentVariables");
    reveal_strlit("javaArgs");
    reveal_strlit("preLaunchCommand");
    reveal_strlit("commandWrapper");
    reveal_strlit("postExitCommand");
    reveal_strlit("nativesPath");
    reveal_strlit("glfwPath");
    reveal_strlit("openalPath");
    reveal_strlit("useDefaultJvmArgs");
    reveal_strlit("useOptimizedJvmArgs");
    reveal_strlit("skipJvmValidation");
    reveal_strlit("allowAutoAgent");
    reveal_strlit("skipIntegrityCheck");
    reveal_strlit("useCustomNatives");
    reveal_strlit("skipNativePatching");
    if field_key(f) == field_key(g) {
        assert(field_key(f).len() == field_key(g).len());
        assert(field_key(f)[0] == field_key(g)[0]);
        assert(field_key(f)[1] == field_key(g)[1]);
        assert(field_key(f)[4] == field_key(g)[4]);
    }
}

impl LaunchField {
    /// Stable identifier used for element ids and the crash environment's
    /// "overridden launch settings" summary.
    pub fn key(self) -> (r: &'static str)
        ensures
            r@ == field_key(self),
    {
        match self {
            LaunchField::Memory => "memory",
            LaunchField::MemoryMode => "memoryMode",
            LaunchField::WindowMode => "windowMode",
            LaunchField::WindowWidth => "windowWidth",
            LaunchField::WindowHeight => "windowHeight",
            LaunchField::QuickPlayMode => "quickPlayMode",
            LaunchField::QuickPlayTarget => "quickPlayTarget",
            LaunchField::GameArgs => "gameArgs",
            LaunchField::EnvironmentVariables => "environmentVariables",
            LaunchField::JavaArgs => "javaArgs",
            LaunchField::PreLaunchCommand => "preLaunchCommand",
            LaunchField::CommandWrapper => "commandWrapper",
            LaunchField::PostExitCommand => "postExitCommand",
            LaunchField::NativesPath => "nativesPath",
            LaunchField::GlfwPath => "glfwPath",
            LaunchField::OpenalPath => "openalPath",
            LaunchField::UseDefaultJvmArgs => "useDefaultJvmArgs",
            LaunchField::UseOptimizedJvmArgs => "useOptimizedJvmArgs",
            LaunchField::SkipJvmValidation => "skipJvmValidation",
            LaunchField::AllowAutoAgent => "allowAutoAgent",
            LaunchField::SkipIntegrityCheck => "skipIntegrityCheck",
            LaunchField::UseCustomNatives => "useCustomNatives",
            LaunchField::SkipNativePatching => "skipNativePatching",
        }
    }

    /// The position of this field in rendering order.
    pub fn index(self) -> (r: usize)
        ensures
            r == field_index(self),
    {
        match self {
            LaunchField::Memory => 0,
            LaunchField::MemoryMode => 1,
            LaunchField::WindowMode => 2,
            LaunchField::WindowWidth => 3,
            LaunchField::WindowHeight => 4,
            LaunchField::QuickPlayMode => 5,
            LaunchField::QuickPlayTarget => 6,
            LaunchField::GameArgs => 7,
            LaunchField::EnvironmentVariables => 8,
            LaunchField::JavaArgs => 9,
            LaunchField::PreLaunchCommand => 10,
            LaunchField::CommandWrapper => 11,
            LaunchField::PostExitCommand => 12,
            LaunchField::NativesPath => 13,
            LaunchField::GlfwPath => 14,
            LaunchField::OpenalPath => 15,
            LaunchField::UseDefaultJvmArgs => 16,
            LaunchField::UseOptimizedJvmArgs => 17,
            LaunchField::SkipJvmValidation => 18,
            LaunchField::AllowAutoAgent => 19,
            LaunchField::SkipIntegrityCheck => 20,
            LaunchField::UseCustomNatives => 21,
            LaunchField::SkipNativePatching => 22,
        }
    }

    /// The field at position `i` in rendering order.
    pub fn at(i: usize) -> (r: LaunchField)
        requires
            i < FIELD_COUNT,
        ensures
            r == field_at(i as int),
    {
        if i == 0 {
            LaunchField::Memory
        } else if i == 1 {
            LaunchField::MemoryMode
        } else if i == 2 {
            LaunchField::WindowMode
        } else if i == 3 {
            LaunchField::WindowWidth
        } else if i == 4 {
            LaunchField::WindowHeight
        } else if i == 5 {
            LaunchField::QuickPlayMode
        } else if i == 6 {
            LaunchField::QuickPlayTarget
        } else if i == 7 {
            LaunchField::GameArgs
        } else if i == 8 {
            LaunchField::EnvironmentVariables
        } else if i == 9 {
            LaunchField::JavaArgs
        } else if i == 10 {
            LaunchField::PreLaunchCommand
        } else if i == 11 {
            LaunchField::CommandWrapper
        } else if i == 12 {
            LaunchField::PostExitCommand
        } else if i == 13 {
            LaunchField::NativesPath
        } else if i == 14 {
            LaunchField::GlfwPath
        } else if i == 15 {
            LaunchField::OpenalPath
        } else if i == 16 {
            LaunchField::UseDefaultJvmArgs
        } else if i == 17 {
            LaunchField::UseOptimizedJvmArgs
        } else if i == 18 {
            LaunchField::SkipJvmValidation
        } else if i == 19 {
            LaunchField::AllowAutoAgent
        } else if i == 20 {
            LaunchField::SkipIntegrityCheck
        } else if i == 21 {
            LaunchField::UseCustomNatives
        } else {
            LaunchField::SkipNativePatching
        }
    }
}

/// A value for one launch field.
#[derive(Clone, Debug, PartialEq, Eq)]
pub enum LaunchValue {
    Text(String),
    Number(u32),
    Flag(bool),
    Memory(MemoryMode),
    Window(WindowMode),
    QuickPlay(QuickPlayMode),
}

/// The abstract value of a `LaunchValue`.
pub enum LaunchValueView {
    Text(Seq<char>),
    Number(u32),
    Flag(bool),
    Memory(MemoryMode),
    Window(WindowMode),
    QuickPlay(QuickPlayMode),
}

impl View for LaunchValue {
    type V = LaunchValueView;

    open spec fn view(&self) -> LaunchValueView {
        match self {
            LaunchValue::Text(t) => LaunchValueView::Text(t@),
            LaunchValue::Number(n) => LaunchValueView::Number(*n),
            LaunchValue::Flag(b) => LaunchValueView::Flag(*b),
            LaunchValue::Memory(m) => LaunchValueView::Memory(*m),
            LaunchValue::Window(w) => LaunchValueView::Window(*w),
            LaunchValue::QuickPlay(q) => LaunchValueView::QuickPlay(*q),
        }
    }
}

impl LaunchValue {
    /// The text of a text value; empty for every other shape.
    pub fn as_text(&self) -> (r: &str)
        ensures
            r@ == match self@ {
                LaunchValueView::Text(t) => t,
                _ => Seq::<char>::empty(),
            },
    {
        match self {
            LaunchValue::Text(value) => value.as_str(),
            _ => {
                proof {
                    reveal_strlit("");
                }
                ""
            },
        }
    }

    /// The number of a numeric value; 0 for every other shape.
    pub fn as_number(&self) -> (r: u32)
        ensures
            r == match self@ {
                LaunchValueView::Number(n) => n,
                _ => 0,
            },
    {
        match self {
            LaunchValue::Number(value) => *value,
            _ => 0,
        }
    }

    /// Whether this is the flag `true`.
    pub fn as_flag(&self) -> (r: bool)
        ensures
            r == (self@ == LaunchValueView::Flag(true)),
    {
        match self {
            LaunchValue::Flag(value) => *value,
            _ => false,
        }
    }

    /// Whether both values are the same.
    pub fn same(&self, other: &LaunchValue) -> (r: bool)
        ensures
            r == (self@ == other@),
    {
        match (self, other) {
            (LaunchValue::Text(a), LaunchValue::Text(b)) => (*a) == (*b),
            (LaunchValue::Number(a), LaunchValue::Number(b)) => *a == *b,
            (LaunchValue::Flag(a), LaunchValue::Flag(b)) => *a == *b,
            (LaunchValue::Memory(a), LaunchValue::Memory(b)) => *a == *b,
            (LaunchValue::Window(a), LaunchValue::Window(b)) => *a == *b,
            (LaunchValue::QuickPlay(a), LaunchValue::QuickPlay(b)) => *a == *b,
            _ => false,
        }
    }

    /// A copy of this value.
    pub fn copied(&self) -> (r: LaunchValue)
        ensures
            r@ == self@,
    {
        match self {
            LaunchValue::Text(t) => LaunchValue::Text(t.clone()),
            LaunchValue::Number(n) => LaunchValue::Number(*n),
            LaunchValue::Flag(b) => LaunchValue::Flag(*b),
            LaunchValue::Memory(m) => LaunchValue::Memory(*m),
            LaunchValue::Window(w) => LaunchValue::Window(*w),
            LaunchValue::QuickPlay(q) => LaunchValue::QuickPlay(*q),
        }
    }
}

/// Global launch settings.
#[derive(Clone, Debug, PartialEq, Eq)]
pub struct LaunchSettings {
    pub memory_mode: MemoryMode,
    pub memory: u32,
    pub window_mode: WindowMode,
    pub window_width: u32,
    pub window_height: u32,
    pub quick_play_mode: QuickPlayMode,
    pub quick_play_target: String,
    pub game_args: String,
    pub environment_variables: String,
    pub java_args: String,
    pub use_default_jvm_args: bool,
    pub use_optimized_jvm_args: bool,
    pub skip_jvm_validation: bool,
    pub allow_auto_agent: bool,
    pub skip_integrity_check: bool,
    pub pre_launch_command: String,
    pub command_wrapper: String,
    pub post_exit_command: String,
    pub use_custom_natives: bool,
    pub natives_path: String,
    pub skip_native_patching: bool,
    pub glfw_path: String,
    pub openal_path: String,
}

/// The abstract value of `LaunchSettings`.
pub struct LaunchSettingsView {
    pub memory_mode: MemoryMode,
    pub memory: u32,
    pub window_mode: WindowMode,
    pub window_width: u32,
    pub window_height: u32,
    pub quick_play_mode: QuickPlayMode,
    pub quick_play_target: Seq<char>,
    pub game_args: Seq<char>,
    pub environment_variables: Seq<char>,
    pub java_args: Seq<char>,
    pub use_default_jvm_args: bool,
    pub use_optimized_jvm_args: bool,
    pub skip_jvm_validation: bool,
    pub allow_auto_agent: bool,
    pub skip_integrity_check: bool,
    pub pre_launch_command: Seq<char>,
    pub command_wrapper: Seq<char>,
    pub post_exit_command: Seq<char>,
    pub use_custom_natives: bool,
    pub natives_path: Seq<char>,
    pub skip_native_patching: bool,
    pub glfw_path: Seq<char>,
    pub openal_path: Seq<char>,
}

impl View for LaunchSettings {
    type V = LaunchSettingsView;

    open spec fn view(&self) -> LaunchSettingsView {
        LaunchSettingsView {
            memory_mode: self.memory_mode,
            memory: self.memory,
            window_mode: self.window_mode,
            window_width: self.window_width,
            window_height: self.window_height,
            quick_play_mode: self.quick_play_mode,
            quick_play_target: self.quick_play_target@,
            game_args: self.game_args@,
            environment_variables: self.environment_variables@,
            java_args: self.java_args@,
            use_default_jvm_args: self.use_default_jvm_args,
            use_optimized_jvm_args: self.use_optimized_jvm_args,
            skip_jvm_validation: self.skip_jvm_validation,
            allow_auto_agent: self.allow_auto_agent,
            skip_integrity_check: self.skip_integrity_check,
            pre_launch_command: self.pre_launch_command@,
            command_wrapper: self.command_wrapper@,
            post_exit_command: self.post_exit_command@,
            use_custom_natives: self.use_custom_natives,
            natives_path: self.natives_path@,
            skip_native_patching: self.skip_native_patching,
            glfw_path: self.glfw_path@,
            openal_path: self.openal_path@,
        }
    }
}

/// The value a field currently holds.
pub open spec fn settings_get(s: LaunchSettingsView, field: LaunchField) -> LaunchValueView {
    match field {
        LaunchField::Memory => LaunchValueView::Number(s.memory),
        LaunchField::MemoryMode => LaunchValueView::Memory(s.memory_mode),
        LaunchField::WindowMode => LaunchValueView::Window(s.window_mode),
        LaunchField::WindowWidth => LaunchValueView::Number(s.window_width),
        LaunchField::WindowHeight => LaunchValueView::Number(s.window_height),
        LaunchField::QuickPlayMode => LaunchValueView::QuickPlay(s.quick_play_mode),
        LaunchField::QuickPlayTarget => LaunchValueView::Text(s.quick_play_target),
        LaunchField::GameArgs => LaunchValueView::Text(s.game_args),
        LaunchField::EnvironmentVariables => LaunchValueView::Text(s.environment_variables),
        LaunchField::JavaArgs => LaunchValueView::Text(s.java_args),
        LaunchField::PreLaunchCommand => LaunchValueView::Text(s.pre_launch_command),
        LaunchField::CommandWrapper => LaunchValueView::Text(s.command_wrapper),
        LaunchField::PostExitCommand => LaunchValueView::Text(s.post_exit_command),
        LaunchField::NativesPath => LaunchValueView::Text(s.natives_path),
        LaunchField::GlfwPath => LaunchValueView::Text(s.glfw_path),
        LaunchField::OpenalPath => LaunchValueView::Text(s.openal_path),
        LaunchField::UseDefaultJvmArgs => LaunchValueView::Flag(s.use_default_jvm_args),
        LaunchField::UseOptimizedJvmArgs => LaunchValueView::Flag(s.use_optimized_jvm_args),
        LaunchField::SkipJvmValidation => LaunchValueView::Flag(s.skip_jvm_validation),
        LaunchField::AllowAutoAgent => LaunchValueView::Flag(s.allow_auto_agent),
        LaunchField::SkipIntegrityCheck => LaunchValueView::Flag(s.skip_integrity_check),
        LaunchField::UseCustomNatives => LaunchValueView::Flag(s.use_custom_natives),
        LaunchField::SkipNativePatching => LaunchValueView::Flag(s.skip_native_patching),
    }
}

/// Whether `value` has the shape that `field` holds.
pub open spec fn fits(field: LaunchField, value: LaunchValueView) -> bool {
    match (field, value) {
        (LaunchField::Memory, LaunchValueView::Number(_)) => true,
        (LaunchField::MemoryMode, LaunchValueView::Memory(_)) => true,
        (LaunchField::WindowMode, LaunchValueView::Window(_)) => true,
        (LaunchField::WindowWidth, LaunchValueView::Number(_)) => true,
        (LaunchField::WindowHeight, LaunchValueView::Number(_)) => true,
        (LaunchField::QuickPlayMode, LaunchValueView::QuickPlay(_)) => true,
        (LaunchField::QuickPlayTarget, LaunchValueView::Text(_)) => true,
        (LaunchField::GameArgs, LaunchValueView::Text(_)) => true,
        (LaunchField::EnvironmentVariables, LaunchValueView::Text(_)) => true,
        (LaunchField::JavaArgs, LaunchValueView::Text(_)) => true,
        (LaunchField::PreLaunchCommand, LaunchValueView::Text(_)) => true,
        (LaunchField::CommandWrapper, LaunchValueView::Text(_)) => true,
        (LaunchField::PostExitCommand, LaunchValueView::Text(_)) => true,
        (LaunchField::NativesPath, LaunchValueView::Text(_)) => true,
        (LaunchField::GlfwPath, LaunchValueView::Text(_)) => true,
        (LaunchField::OpenalPath, LaunchValueView::Text(_)) => true,
        (LaunchField::UseDefaultJvmArgs, LaunchValueView::Flag(_)) => true,
        (LaunchField::UseOptimizedJvmArgs, LaunchValueView::Flag(_)) => true,
        (LaunchField::SkipJvmValidation, LaunchValueView::Flag(_)) => true,
        (LaunchField::AllowAutoAgent, LaunchValueView::Flag(_)) => true,
        (LaunchField::SkipIntegrityCheck, LaunchValueView::Flag(_)) => true,
        (LaunchField::UseCustomNatives, LaunchValueView::Flag(_)) => true,
        (LaunchField::SkipNativePatching, LaunchValueView::Flag(_)) => true,
        _ => false,
    }
}

/// The settings after `set(field, value)`: a value of the wrong shape is ignored.
pub open spec fn settings_set(s: LaunchSettingsView, field: LaunchField, value: LaunchValueView) -> LaunchSettingsView {
    match field {
        LaunchField::Memory => match value { LaunchValueView::Number(v) => LaunchSettingsView { memory: v, ..s }, _ => s },
        LaunchField::MemoryMode => match value { LaunchValueView::Memory(v) => LaunchSettingsView { memory_mode: v, ..s }, _ => s },
        LaunchField::WindowMode => match value { LaunchValueView::Window(v) => LaunchSettingsView { window_mode: v, ..s }, _ => s },
        LaunchField::WindowWidth => match value { LaunchValueView::Number(v) => LaunchSettingsView { window_width: v, ..s }, _ => s },
        LaunchField::WindowHeight => match value { LaunchValueView::Number(v) => LaunchSettingsView { window_height: v, ..s }, _ => s },
        LaunchField::QuickPlayMode => match value { LaunchValueView::QuickPlay(v) => LaunchSettingsView { quick_play_mode: v, ..s }, _ => s },
        LaunchField::QuickPlayTarget => match value { LaunchValueView::Text(v) => LaunchSettingsView { quick_play_target: v, ..s }, _ => s },
        LaunchField::GameArgs => match value { LaunchValueView::Text(v) => LaunchSettingsView { game_args: v, ..s }, _ => s },
        LaunchField::EnvironmentVariables => match value { LaunchValueView::Text(v) => LaunchSettingsView { environment_variables: v, ..s }, _ => s },
        LaunchField::JavaArgs => match value { LaunchValueView::Text(v) => LaunchSettingsView { java_args: v, ..s }, _ => s },
        LaunchField::PreLaunchCommand => match value { LaunchValueView::Text(v) => LaunchSettingsView { pre_launch_command: v, ..s }, _ => s },
        LaunchField::CommandWrapper => match value { LaunchValueView::Text(v) => LaunchSettingsView { command_wrapper: v, ..s }, _ => s },
        LaunchField::PostExitCommand => match value { LaunchValueView::Text(v) => LaunchSettingsView { post_exit_command: v, ..s }, _ => s },
        LaunchField::NativesPath => match value { LaunchValueView::Text(v) => LaunchSettingsView { natives_path: v, ..s }, _ => s },
        LaunchField::GlfwPath => match value { LaunchValueView::Text(v) => LaunchSettingsView { glfw_path: v, ..s }, _ => s },
        LaunchField::OpenalPath => match value { LaunchValueView::Text(v) => LaunchSettingsView { openal_path: v, ..s }, _ => s },
        LaunchField::UseDefaultJvmArgs => match value { LaunchValueView::Flag(v) => LaunchSettingsView { use_default_jvm_args: v, ..s }, _ => s },
        LaunchField::UseOptimizedJvmArgs => match value { LaunchValueView::Flag(v) => LaunchSettingsView { use_optimized_jvm_args: v, ..s }, _ => s },
        LaunchField::SkipJvmValidation => match value { LaunchValueView::Flag(v) => LaunchSettingsView { skip_jvm_validation: v, ..s }, _ => s },
        LaunchField::AllowAutoAgent => match value { LaunchValueView::Flag(v) => LaunchSettingsView { allow_auto_agent: v, ..s }, _ => s },
        LaunchField::SkipIntegrityCheck => match value { LaunchValueView::Flag(v) => LaunchSettingsView { skip_integrity_check: v, ..s }, _ => s },
        LaunchField::UseCustomNatives => match value { LaunchValueView::Flag(v) => LaunchSettingsView { use_custom_natives: v, ..s }, _ => s },
        LaunchField::SkipNativePatching => match value { LaunchValueView::Flag(v) => LaunchSettingsView { skip_native_patching: v, ..s }, _ => s },
    }
}

/// The global defaults.
pub open spec fn default_launch_settings() -> LaunchSettingsView {
    LaunchSettingsView {
        memory_mode: MemoryMode::Manual,
        memory: 4,
        window_mode: WindowMode::Windowed,
        window_width: 1280,
        window_height: 720,
        quick_play_mode: QuickPlayMode::Off,
        quick_play_target: Seq::<char>::empty(),
        game_args: Seq::<char>::empty(),
        environment_variables: Seq::<char>::empty(),
        java_args: "-XX:+UseG1GC -XX:MaxGCPauseMillis=150"@,
        use_default_jvm_args: true,
        use_optimized_jvm_args: true,
        skip_jvm_validation: false,
        allow_auto_agent: false,
        skip_integrity_check: false,
        pre_launch_command: Seq::<char>::empty(),
        command_wrapper: Seq::<char>::empty(),
        post_exit_command: Seq::<char>::empty(),
        use_custom_natives: false,
        natives_path: Seq::<char>::empty(),
        skip_native_patching: false,
        glfw_path: Seq::<char>::empty(),
        openal_path: Seq::<char>::empty(),
    }
}

impl Default for LaunchSettings {
    fn default() -> (r: Self)
        ensures
            r@ == default_launch_settings(),
    {
        LaunchSettings {
            memory_mode: MemoryMode::Manual,
            memory: 4,
            window_mode: WindowMode::Windowed,
            window_width: 1280,
            window_height: 720,
            quick_play_mode: QuickPlayMode::Off,
            quick_play_target: String::new(),
            game_args: String::new(),
            environment_variables: String::new(),
            java_args: "-XX:+UseG1GC -XX:MaxGCPauseMillis=150".to_owned(),
            use_default_jvm_args: true,
            use_optimized_jvm_args: true,
            skip_jvm_validation: false,
            allow_auto_agent: false,
            skip_integrity_check: false,
            pre_launch_command: String::new(),
            command_wrapper: String::new(),
            post_exit_command: String::new(),
            use_custom_natives: false,
            natives_path: String::new(),
            skip_native_patching: false,
            glfw_path: String::new(),
            openal_path: String::new(),
        }
    }
}

impl LaunchSettings {
    /// The value `field` currently holds.
    pub fn get(&self, field: LaunchField) -> (r: LaunchValue)
        ensures
            r@ == settings_get(self@, field),
    {
        match field {
            LaunchField::Memory => LaunchValue::Number(self.memory),
            LaunchField::MemoryMode => LaunchValue::Memory(self.memory_mode),
            LaunchField::WindowMode => LaunchValue::Window(self.window_mode),
            LaunchField::WindowWidth => LaunchValue::Number(self.window_width),
            LaunchField::WindowHeight => LaunchValue::Number(self.window_height),
            LaunchField::QuickPlayMode => LaunchValue::QuickPlay(self.quick_play_mode),
            LaunchField::QuickPlayTarget => LaunchValue::Text(self.quick_play_target.clone()),
            LaunchField::GameArgs => LaunchValue::Text(self.game_args.clone()),
            LaunchField::EnvironmentVariables => LaunchValue::Text(self.environment_variables.clone()),
            LaunchField::JavaArgs => LaunchValue::Text(self.java_args.clone()),
            LaunchField::PreLaunchCommand => LaunchValue::Text(self.pre_launch_command.clone()),
            LaunchField::CommandWrapper => LaunchValue::Text(self.command_wrapper.clone()),
            LaunchField::PostExitCommand => LaunchValue::Text(self.post_exit_command.clone()),
            LaunchField::NativesPath => LaunchValue::Text(self.natives_path.clone()),
            LaunchField::GlfwPath => LaunchValue::Text(self.glfw_path.clone()),
            LaunchField::OpenalPath => LaunchValue::Text(self.openal_path.clone()),
            LaunchField::UseDefaultJvmArgs => LaunchValue::Flag(self.use_default_jvm_args),
            LaunchField::UseOptimizedJvmArgs => LaunchValue::Flag(self.use_optimized_jvm_args),
            LaunchField::SkipJvmValidation => LaunchValue::Flag(self.skip_jvm_validation),
            LaunchField::AllowAutoAgent => LaunchValue::Flag(self.allow_auto_agent),
            LaunchField::SkipIntegrityCheck => LaunchValue::Flag(self.skip_integrity_check),
            LaunchField::UseCustomNatives => LaunchValue::Flag(self.use_custom_natives),
            LaunchField::SkipNativePatching => LaunchValue::Flag(self.skip_native_patching),
        }
    }

    /// Applies one field. Values of the wrong shape are ignored, so a caller
    /// cannot turn a window mode into a number.
    pub fn set(&mut self, field: LaunchField, value: LaunchValue)
        ensures
            final(self)@ == settings_set(old(self)@, field, value@),
    {
        match value {
            LaunchValue::Text(v) => self.set_text(field, v),
            LaunchValue::Number(v) => self.set_number(field, v),
            LaunchValue::Flag(v) => self.set_bool(field, v),
            LaunchValue::Memory(v) => {
                if field == LaunchField::MemoryMode {
                    self.memory_mode = v;
                }
            },
            LaunchValue::Window(v) => {
                if field == LaunchField::WindowMode {
                    self.window_mode = v;
                }
            },
            LaunchValue::QuickPlay(v) => {
                if field == LaunchField::QuickPlayMode {
                    self.quick_play_mode = v;
                }
            },
        }
    }


    fn set_text(&mut self, field: LaunchField, v: String)
        ensures
            final(self)@ == settings_set(old(self)@, field, LaunchValueView::Text(v@)),
    {
        match field {
            LaunchField::QuickPlayTarget => self.quick_play_target = v,
            LaunchField::GameArgs => self.game_args = v,
            LaunchField::EnvironmentVariables => self.environment_variables = v,
            LaunchField::JavaArgs => self.java_args = v,
            LaunchField::PreLaunchCommand => self.pre_launch_command = v,
            LaunchField::CommandWrapper => self.command_wrapper = v,
            LaunchField::PostExitCommand => self.post_exit_command = v,
            LaunchField::NativesPath => self.natives_path = v,
            LaunchField::GlfwPath => self.glfw_path = v,
            LaunchField::OpenalPath => self.openal_path = v,
            _ => {},
        }
    }

    fn set_number(&mut self, field: LaunchField, v: u32)
        ensures
            final(self)@ == settings_set(old(self)@, field, LaunchValueView::Number(v)),
    {
        match field {
            LaunchField::Memory => self.memory = v,
            LaunchField::WindowWidth => self.window_width = v,
            LaunchField::WindowHeight => self.window_height = v,
            _ => {},
        }
    }

    fn set_bool(&mut self, field: LaunchField, v: bool)
        ensures
            final(self)@ == settings_set(old(self)@, field, LaunchValueView::Flag(v)),
    {
        match field {
            LaunchField::UseDefaultJvmArgs => self.use_default_jvm_args = v,
            LaunchField::UseOptimizedJvmArgs => self.use_optimized_jvm_args = v,
            LaunchField::SkipJvmValidation => self.skip_jvm_validation = v,
            LaunchField::AllowAutoAgent => self.allow_auto_agent = v,
            LaunchField::SkipIntegrityCheck => self.skip_integrity_check = v,
            LaunchField::UseCustomNatives => self.use_custom_natives = v,
            LaunchField::SkipNativePatching => self.skip_native_patching = v,
            _ => {},
        }
    }

    /// Whether both hold the same settings.
    pub fn same(&self, other: &LaunchSettings) -> (r: bool)
        ensures
            r == (self@ == other@),
    {
        self.memory_mode == other.memory_mode
            && self.memory == other.memory
            && self.window_mode == other.window_mode
            && self.window_width == other.window_width
            && self.window_height == other.window_height
            && self.quick_play_mode == other.quick_play_mode
            && self.quick_play_target == other.quick_play_target
            && self.game_args == other.game_args
            && self.environment_variables == other.environment_variables
            && self.java_args == other.java_args
            && self.use_default_jvm_args == other.use_default_jvm_args
            && self.use_optimized_jvm_args == other.use_optimized_jvm_args
            && self.skip_jvm_validation == other.skip_jvm_validation
            && self.allow_auto_agent == other.allow_auto_agent
            && self.skip_integrity_check == other.skip_integrity_check
            && self.pre_launch_command == other.pre_launch_command
            && self.command_wrapper == other.command_wrapper
            && self.post_exit_command == other.post_exit_command
            && self.use_custom_natives == other.use_custom_natives
            && self.natives_path == other.natives_path
            && self.skip_native_patching == other.skip_native_patching
            && self.glfw_path == other.glfw_path
            && self.openal_path == other.openal_path
    }

    /// A copy of these settings.
    pub fn copied(&self) -> (r: LaunchSettings)
        ensures
            r@ == self@,
    {
        LaunchSettings {
            memory_mode: self.memory_mode,
            memory: self.memory,
            window_mode: self.window_mode,
            window_width: self.window_width,
            window_height: self.window_height,
            quick_play_mode: self.quick_play_mode,
            quick_play_target: self.quick_play_target.clone(),
            game_args: self.game_args.clone(),
            environment_variables: self.environment_variables.clone(),
            java_args: self.java_args.clone(),
            use_default_jvm_args: self.use_default_jvm_args,
            use_optimized_jvm_args: self.use_optimized_jvm_args,
            skip_jvm_validation: self.skip_jvm_validation,
            allow_auto_agent: self.allow_auto_agent,
            skip_integrity_check: self.skip_integrity_check,
            pre_launch_command: self.pre_launch_command.clone(),
            command_wrapper: self.command_wrapper.clone(),
            post_exit_command: self.post_exit_command.clone(),
            use_custom_natives: self.use_custom_natives,
            natives_path: self.natives_path.clone(),
            skip_native_patching: self.skip_native_patching,
            glfw_path: self.glfw_path.clone(),
            openal_path: self.openal_path.clone(),
        }
    }
}

/// Setting a field to a value of its shape and reading it back gives that value.
pub proof fn law_settings_get_after_set(s: LaunchSettingsView, field: LaunchField, value: LaunchValueView)
    requires
        fits(field, value),
    ensures
        settings_get(settings_set(s, field, value), field) == value,
{
}

/// Setting a field never changes any other field.
pub proof fn law_settings_set_is_local(
    s: LaunchSettingsView,
    field: LaunchField,
    other: LaunchField,
    value: LaunchValueView,
)
    requires
        field != other,
    ensures
        settings_get(settings_set(s, field, value), other) == settings_get(s, other),
{
}

/// A value of the wrong shape leaves the settings unchanged.
pub proof fn law_settings_set_ignores_wrong_shape(s: LaunchSettingsView, field: LaunchField, value: LaunchValueView)
    requires
        !fits(field, value),
    ensures
        settings_set(s, field, value) == s,
{
}

/// Writing back the value a field holds changes nothing.
pub proof fn law_settings_set_own_value(s: LaunchSettingsView, field: LaunchField)
    ensures
        settings_set(s, field, settings_get(s, field)) == s,
{
}

/// Per-instance overrides of the global launch settings: at most one value per
/// field.
#[derive(Clone, Debug, Default, PartialEq, Eq)]
pub struct LaunchOverrides {
    slots: Vec<Option<LaunchValue>>,
}

pub open spec fn slot_view(slot: Option<LaunchValue>) -> Option<LaunchValueView> {
    match slot {
        Some(v) => Some(v@),
        None => None,
    }
}

/// The value in a slot list for `field`, if any.
pub open spec fn slot_value(slots: Seq<Option<LaunchValue>>, field: LaunchField) -> Option<LaunchValueView> {
    if field_index(field) < slots.len() {
        slot_view(slots[field_index(field)])
    } else {
        None
    }
}

impl View for LaunchOverrides {
    type V = Map<LaunchField, LaunchValueView>;

    closed spec fn view(&self) -> Map<LaunchField, LaunchValueView> {
        Map::new(
            |f: LaunchField| slot_value(self.slots@, f) is Some,
            |f: LaunchField| slot_value(self.slots@, f)->0,
        )
    }
}

/// The keys of the overridden fields, in field order.
pub open spec fn override_keys(m: Map<LaunchField, LaunchValueView>) -> Seq<Seq<char>> {
    all_fields().filter(overridden_in(m)).map_values(key_of())
}

pub open spec fn overridden_in(m: Map<LaunchField, LaunchValueView>) -> spec_fn(LaunchField) -> bool {
    |f: LaunchField| m.contains_key(f)
}

pub open spec fn key_of() -> spec_fn(LaunchField) -> Seq<char> {
    |f: LaunchField| field_key(f)
}

pub open spec fn str_view() -> spec_fn(&'static str) -> Seq<char> {
    |k: &'static str| k@
}

/// `base` with the overrides of the first `n` fields (in field order) applied.
pub open spec fn resolved_upto(m: Map<LaunchField, LaunchValueView>, base: LaunchSettingsView, n: int) -> LaunchSettingsView
    decreases n,
{
    if n <= 0 {
        base
    } else {
        let acc = resolved_upto(m, base, n - 1);
        let f = field_at(n - 1);
        if m.contains_key(f) {
            settings_set(acc, f, m[f])
        } else {
            acc
        }
    }
}

/// Global settings with every override applied on top.
pub open spec fn resolved(m: Map<LaunchField, LaunchValueView>, base: LaunchSettingsView) -> LaunchSettingsView {
    resolved_upto(m, base, FIELD_COUNT as int)
}

impl LaunchOverrides {
    /// No overrides.
    pub fn new() -> (r: Self)
        ensures
            r@ == Map::<LaunchField, LaunchValueView>::empty(),
    {
        let r = LaunchOverrides { slots: Vec::new() };
        assert(r@ =~= Map::<LaunchField, LaunchValueView>::empty());
        r
    }

    pub fn is_overridden(&self, field: LaunchField) -> (r: bool)
        ensures
            r == self@.contains_key(field),
    {
        let i = field.index();
        i < self.slots.len() && self.slots[i].is_some()
    }

    pub fn get(&self, field: LaunchField) -> (r: Option<&LaunchValue>)
        ensures
            r matches Some(v) ==> self@.contains_key(field) && v@ == self@[field],
            r is None ==> !self@.contains_key(field),
    {
        let i = field.index();
        if i < self.slots.len() {
            match &self.slots[i] {
                Some(v) => Some(v),
                None => None,
            }
        } else {
            None
        }
    }

    /// Stores `value` for `field`; returns `true` when the stored value actually
    /// changed.
    pub fn set(&mut self, field: LaunchField, value: LaunchValue) -> (r: bool)
        ensures
            final(self)@ == old(self)@.insert(field, value@),
            r == !(old(self)@.contains_key(field) && old(self)@[field] == value@),
    {
        let i = field.index();
        if i < self.slots.len() {
            let unchanged = match &self.slots[i] {
                Some(current) => current.same(&value),
                None => false,
            };
            if unchanged {
                assert(self@ =~= old(self)@.insert(field, value@));
                return false;
            }
        }
        while self.slots.len() <= i
            invariant
                i == field_index(field),
                self@ == old(self)@,
                old(self).slots.len() <= i ==> forall|j: int|
                    old(self).slots.len() <= j < self.slots.len() ==> self.slots@[j] is None,
                old(self).slots.len() > i ==> self.slots@ == old(self).slots@,
                self.slots.len() >= old(self).slots.len(),
                forall|j: int| 0 <= j < old(self).slots.len() ==> self.slots@[j] == old(self).slots@[j],
            decreases i + 1 - self.slots.len(),
        {
            self.slots.push(None);
            assert(self@ =~= old(self)@) by {
                assert forall|f: LaunchField| #[trigger] slot_value(self.slots@, f) == slot_value(old(self).slots@, f) by {
                    lemma_field_index(f);
                }
            }
        }
        proof {
            lemma_field_index(field);
        }
        self.slots.set(i, Some(value));
        assert(self@ =~= old(self)@.insert(field, value@)) by {
            assert forall|f: LaunchField| #![auto] self@.contains_key(f) == old(self)@.insert(field, value@).contains_key(f) by {
                lemma_field_index(f);
                if f != field {
                    assert(field_index(f) != field_index(field)) by {
                        lemma_field_index(field);
                    }
                }
            }
            assert forall|f: LaunchField| #![auto] self@.contains_key(f) implies self@[f] == old(self)@.insert(field, value@)[f] by {
                lemma_field_index(f);
                if f != field {
                    assert(field_index(f) != field_index(field)) by {
                        lemma_field_index(field);
                    }
                }
            }
        }
        true
    }

    /// Removes the override of `field`; returns whether there was one.
    pub fn clear(&mut self, field: LaunchField) -> (r: bool)
        ensures
            final(self)@ == old(self)@.remove(field),
            r == old(self)@.contains_key(field),
    {
        let i = field.index();
        if i < self.slots.len() && self.slots[i].is_some() {
            self.slots.set(i, None);
            assert(self@ =~= old(self)@.remove(field)) by {
                assert forall|f: LaunchField| #![auto] self@.contains_key(f) == old(self)@.remove(field).contains_key(f) by {
                    lemma_field_index(f);
                    lemma_field_index(field);
                }
                assert forall|f: LaunchField| #![auto] self@.contains_key(f) implies self@[f] == old(self)@.remove(field)[f] by {
                    lemma_field_index(f);
                    lemma_field_index(field);
                }
            }
            true
        } else {
            assert(self@ =~= old(self)@.remove(field));
            false
        }
    }

    /// The override keys, in field order; this is what a crash report shows as
    /// the overridden launch settings.
    pub fn keys(&self) -> (r: Vec<&'static str>)
        ensures
            r@.map_values(str_view()) == override_keys(self@),
    {
        let mut r: Vec<&'static str> = Vec::new();
        let mut i: usize = 0;
        let ghost pred = overridden_in(self@);
        while i < FIELD_COUNT
            invariant
                i <= FIELD_COUNT,
                pred == overridden_in(self@),
                r@.map_values(str_view()) == all_fields().take(i as int).filter(pred).map_values(key_of()),
            decreases FIELD_COUNT - i,
        {
            let f = LaunchField::at(i);
            let ghost t0 = all_fields().take(i as int);
            let ghost t1 = all_fields().take(i + 1);
            let ghost before = r@;
            proof {
                lemma_field_at(i as int);
                assert(t1.drop_last() =~= t0);
                assert(t1.last() == f);
                reveal(Seq::filter);
                assert(t1.filter(pred) == (if pred(f) {
                    t0.filter(pred).push(f)
                } else {
                    t0.filter(pred)
                }));
            }
            if self.is_overridden(f) {
                let k = f.key();
                r.push(k);
                assert(r@.map_values(str_view()) =~= before.map_values(str_view()).push(k@));
                assert(t0.filter(pred).push(f).map_values(key_of()) =~= t0.filter(pred).map_values(key_of()).push(field_key(f)));
            }
            i += 1;
        }
        assert(all_fields().take(FIELD_COUNT as int) =~= all_fields());
        r
    }

    /// Whether no field is overridden.
    pub fn is_empty(&self) -> (r: bool)
        ensures
            r == (self@ == Map::<LaunchField, LaunchValueView>::empty()),
    {
        let mut i: usize = 0;
        while i < self.slots.len() && i < FIELD_COUNT
            invariant
                i <= self.slots.len(),
                i <= FIELD_COUNT,
                forall|j: int| 0 <= j < i ==> self.slots@[j] is None,
            decreases self.slots.len() - i,
        {
            if self.slots[i].is_some() {
                proof {
                    lemma_field_at(i as int);
                    assert(self@.contains_key(field_at(i as int)));
                    assert(!self@.dom().contains(field_at(i as int)) ==> false);
                }
                return false;
            }
            i += 1;
        }
        assert(self@ =~= Map::<LaunchField, LaunchValueView>::empty()) by {
            assert forall|f: LaunchField| !#[trigger] self@.contains_key(f) by {
                lemma_field_index(f);
            }
        }
        true
    }

    /// Global defaults with this instance's overrides applied on top.
    pub fn resolve(&self, base: &LaunchSettings) -> (r: LaunchSettings)
        ensures
            r@ == resolved(self@, base@),
    {
        let mut resolved = base.copied();
        let mut i: usize = 0;
        while i < FIELD_COUNT
            invariant
                i <= FIELD_COUNT,
                resolved@ == resolved_upto(self@, base@, i as int),
            decreases FIELD_COUNT - i,
        {
            let f = LaunchField::at(i);
            proof {
                lemma_field_at(i as int);
            }
            match self.get(f) {
                Some(v) => resolved.set(f, v.copied()),
                None => {},
            }
            i += 1;
        }
        resolved
    }

    /// Whether both hold the same overrides.
    pub fn same(&self, other: &LaunchOverrides) -> (r: bool)
        ensures
            r == (self@ == other@),
    {
        let mut i: usize = 0;
        while i < FIELD_COUNT
            invariant
                i <= FIELD_COUNT,
                forall|j: int| 0 <= j < i ==> slot_value(self.slots@, #[trigger] field_at(j)) == slot_value(other.slots@, field_at(j)),
            decreases FIELD_COUNT - i,
        {
            let f = LaunchField::at(i);
            proof {
                lemma_field_at(i as int);
            }
            let equal = match (self.get(f), other.get(f)) {
                (Some(a), Some(b)) => a.same(b),
                (None, None) => true,
                _ => false,
            };
            if !equal {
                proof {
                    if self@ == other@ {
                        assert(self@.contains_key(f) == other@.contains_key(f));
                    }
                }
                return false;
            }
            i += 1;
        }
        assert(self@ =~= other@) by {
            assert forall|f: LaunchField| #![auto] self@.contains_key(f) == other@.contains_key(f) by {
                lemma_field_index(f);
                assert(slot_value(self.slots@, field_at(field_index(f))) == slot_value(other.slots@, field_at(field_index(f))));
            }
            assert forall|f: LaunchField| #![auto] self@.contains_key(f) implies self@[f] == other@[f] by {
                lemma_field_index(f);
                assert(slot_value(self.slots@, field_at(field_index(f))) == slot_value(other.slots@, field_at(field_index(f))));
            }
        }
        true
    }

    /// A copy of these overrides.
    pub fn copied(&self) -> (r: LaunchOverrides)
        ensures
            r@ == self@,
    {
        let mut slots: Vec<Option<LaunchValue>> = Vec::new();
        let mut i: usize = 0;
        while i < self.slots.len()
            invariant
                i <= self.slots.len(),
                slots.len() == i,
                forall|j: int| 0 <= j < i ==> #[trigger] slot_view(slots@[j]) == slot_view(self.slots@[j]),
            decreases self.slots.len() - i,
        {
            let item = match &self.slots[i] {
                Some(v) => Some(v.copied()),
                None => None,
            };
            slots.push(item);
            i += 1;
        }
        let r = LaunchOverrides { slots };
        assert(r@ =~= self@) by {
            assert forall|f: LaunchField| #[trigger] slot_value(r.slots@, f) == slot_value(self.slots@, f) by {
                lemma_field_index(f);
            }
        }
        r
    }
}

/// With no overrides, resolving gives the global settings back.
pub proof fn law_resolve_without_overrides(base: LaunchSettingsView)
    ensures
        resolved(Map::<LaunchField, LaunchValueView>::empty(), base) == base,
{
    lemma_resolved_upto_empty(base, FIELD_COUNT as int);
}

proof fn lemma_resolved_upto_empty(base: LaunchSettingsView, n: int)
    ensures
        resolved_upto(Map::<LaunchField, LaunchValueView>::empty(), base, n) == base,
    decreases n,
{
    if n > 0 {
        lemma_resolved_upto_empty(base, n - 1);
    }
}

proof fn lemma_resolved_upto_get(
    m: Map<LaunchField, LaunchValueView>,
    base: LaunchSettingsView,
    n: int,
    field: LaunchField,
)
    requires
        0 <= n <= FIELD_COUNT,
    ensures
        field_index(field) >= n ==> settings_get(resolved_upto(m, base, n), field) == settings_get(base, field),
        field_index(field) < n && m.contains_key(field) && fits(field, m[field])
            ==> settings_get(resolved_upto(m, base, n), field) == m[field],
        field_index(field) < n && !(m.contains_key(field) && fits(field, m[field]))
            ==> settings_get(resolved_upto(m, base, n), field) == settings_get(base, field),
    decreases n,
{
    lemma_field_index(field);
    if n > 0 {
        lemma_resolved_upto_get(m, base, n - 1, field);
        let acc = resolved_upto(m, base, n - 1);
        let f = field_at(n - 1);
        lemma_field_at(n - 1);
        if m.contains_key(f) {
            if f == field {
                if fits(field, m[field]) {
                    law_settings_get_after_set(acc, field, m[field]);
                } else {
                    law_settings_set_ignores_wrong_shape(acc, field, m[field]);
                }
            } else {
                law_settings_set_is_local(acc, f, field, m[f]);
            }
        }
    }
}

/// An instance sees its own override for a field (when the value has the
/// field's shape) and the global value for every other field.
pub proof fn law_resolve_reads_override_or_global(
    m: Map<LaunchField, LaunchValueView>,
    base: LaunchSettingsView,
    field: LaunchField,
)
    ensures
        settings_get(resolved(m, base), field) == if m.contains_key(field) && fits(field, m[field]) {
            m[field]
        } else {
            settings_get(base, field)
        },
{
    lemma_field_index(field);
    lemma_resolved_upto_get(m, base, FIELD_COUNT as int, field);
}

/// Storing a value and clearing it again leaves no override behind for that
/// field, and reading right after storing gives the stored value.
pub proof fn law_overrides_set_then_clear(m: Map<LaunchField, LaunchValueView>, field: LaunchField, value: LaunchValueView)
    ensures
        m.insert(field, value)[field] == value,
        !m.insert(field, value).remove(field).contains_key(field),
        m.insert(field, value).remove(field) == m.remove(field),
{
    assert(m.insert(field, value).remove(field) =~= m.remove(field));
}

/// The stages a launch moves through, in order.
#[derive(Clone, Copy, Debug, PartialEq, Eq, PartialOrd, Ord, Structural)]
pub enum LaunchPhase {
    Preparing,
    Resolving,
    DownloadingAssets,
    DownloadingLibraries,
    ExtractingNatives,
    Launching,
}

/// Launch progress is counted in hundredths of a percent: 0 to `PROGRESS_FULL`.
pub const PROGRESS_FULL: u32 = 10000;

/// The upper progress bound of each phase, in hundredths of a percent.
pub open spec fn phase_bound(phase: LaunchPhase) -> u32 {
    match phase {
        LaunchPhase::Preparing => 1000,
        LaunchPhase::Resolving => 2200,
        LaunchPhase::DownloadingAssets => 6200,
        LaunchPhase::DownloadingLibraries => 8400,
        LaunchPhase::ExtractingNatives => 9400,
        LaunchPhase::Launching => 10000,
    }
}

/// The phase a given progress falls into: the first whose bound lies above it.
pub open spec fn phase_for(progress: u32) -> LaunchPhase {
    if progress < 1000 {
        LaunchPhase::Preparing
    } else if progress < 2200 {
        LaunchPhase::Resolving
    } else if progress < 6200 {
        LaunchPhase::DownloadingAssets
    } else if progress < 8400 {
        LaunchPhase::DownloadingLibraries
    } else if progress < 9400 {
        LaunchPhase::ExtractingNatives
    } else {
        LaunchPhase::Launching
    }
}

impl LaunchPhase {
    pub const ALL: [LaunchPhase; 6] = [
        LaunchPhase::Preparing,
        LaunchPhase::Resolving,
        LaunchPhase::DownloadingAssets,
        LaunchPhase::DownloadingLibraries,
        LaunchPhase::ExtractingNatives,
        LaunchPhase::Launching,
    ];

    pub fn label(self) -> (r: &'static str)
        ensures
            r@ == match self {
                LaunchPhase::Preparing => "Preparing environment"@,
                LaunchPhase::Resolving => "Resolving versions"@,
                LaunchPhase::DownloadingAssets => "Downloading assets"@,
                LaunchPhase::DownloadingLibraries => "Downloading libraries"@,
                LaunchPhase::ExtractingNatives => "Extracting natives"@,
                LaunchPhase::Launching => "Launching game"@,
            },
    {
        match self {
            LaunchPhase::Preparing => "Preparing environment",
            LaunchPhase::Resolving => "Resolving versions",
            LaunchPhase::DownloadingAssets => "Downloading assets",
            LaunchPhase::DownloadingLibraries => "Downloading libraries",
            LaunchPhase::ExtractingNatives => "Extracting natives",
            LaunchPhase::Launching => "Launching game",
        }
    }

    /// Upper progress bound of the phase, in hundredths of a percent.
    pub fn upper_bound(self) -> (r: u32)
        ensures
            r == phase_bound(self),
    {
        match self {
            LaunchPhase::Preparing => 1000,
            LaunchPhase::Resolving => 2200,
            LaunchPhase::DownloadingAssets => 6200,
            LaunchPhase::DownloadingLibraries => 8400,
            LaunchPhase::ExtractingNatives => 9400,
            LaunchPhase::Launching => 10000,
        }
    }

    /// The phase a given progress (hundredths of a percent) falls into.
    pub fn for_progress(progress: u32) -> (r: LaunchPhase)
        ensures
            r == phase_for(progress),
    {
        let mut i: usize = 0;
        while i < 6
            invariant
                i <= 6,
                forall|j: int| 0 <= j < i ==> progress >= phase_bound(#[trigger] Self::ALL@[j]),
            decreases 6 - i,
        {
            let phase = Self::ALL[i];
            if progress < phase.upper_bound() {
                return phase;
            }
            i += 1;
        }
        LaunchPhase::Launching
    }
}

/// The phases partition the progress range, in order: every phase owns the
/// progress values from the previous phase's bound up to its own.
pub proof fn law_phase_for_progress(progress: u32, phase: LaunchPhase)
    ensures
        progress < phase_bound(phase) && (phase == LaunchPhase::Preparing || progress
            >= phase_bound(previous_phase(phase))) ==> phase_for(progress) == phase,
        progress >= PROGRESS_FULL ==> phase_for(progress) == LaunchPhase::Launching,
{
}

/// The phase before `phase` (Preparing has none and maps to itself).
pub open spec fn previous_phase(phase: LaunchPhase) -> LaunchPhase {
    match phase {
        LaunchPhase::Preparing => LaunchPhase::Preparing,
        LaunchPhase::Resolving => LaunchPhase::Preparing,
        LaunchPhase::DownloadingAssets => LaunchPhase::Resolving,
        LaunchPhase::DownloadingLibraries => LaunchPhase::DownloadingAssets,
        LaunchPhase::ExtractingNatives => LaunchPhase::DownloadingLibraries,
        LaunchPhase::Launching => LaunchPhase::ExtractingNatives,
    }
}

/// One in-flight launch. Several may run at once.
#[derive(Clone, Debug, PartialEq, Eq)]
pub struct LaunchJob {
    pub instance: InstanceRef,
    pub name: String,
    pub icon_seed: String,
    pub loader: Loader,
    /// Hundredths of a percent, 0 to `PROGRESS_FULL`.
    pub progress: u32,
    pub phase: LaunchPhase,
    pub error: Option<String>,
    pub cancellable: bool,
}

impl LaunchJob {
    pub fn new(instance: InstanceRef, name: &str, icon_seed: &str, loader: Loader) -> (r: Self)
        ensures
            r.instance == instance,
            r.name@ == name@,
            r.icon_seed@ == icon_seed@,
            r.loader == loader,
            r.progress == 0,
            r.phase == LaunchPhase::Preparing,
            r.error is None,
            r.cancellable,
    {
        LaunchJob {
            instance,
            name: name.to_owned(),
            icon_seed: icon_seed.to_owned(),
            loader,
            progress: 0,
            phase: LaunchPhase::Preparing,
            error: None,
            cancellable: true,
        }
    }
}

/// The abstract state of a launch store.
pub struct LaunchStoreView {
    pub jobs: Seq<LaunchJob>,
    pub revision: u64,
}

/// Selects the jobs of one instance.
pub open spec fn job_of(instance: RefView) -> spec_fn(LaunchJob) -> bool {
    |j: LaunchJob| j.instance@ == instance
}

/// Selects the jobs of every other instance.
pub open spec fn job_not_of(instance: RefView) -> spec_fn(LaunchJob) -> bool {
    |j: LaunchJob| j.instance@ != instance
}

/// High-frequency launch state: the in-flight jobs and a revision counter that
/// advances exactly when the jobs change.
#[derive(Default)]
pub struct LaunchStore {
    jobs: Vec<LaunchJob>,
    revision: u64,
}

impl View for LaunchStore {
    type V = LaunchStoreView;

    closed spec fn view(&self) -> LaunchStoreView {
        LaunchStoreView { jobs: self.jobs@, revision: self.revision }
    }
}

impl LaunchStore {
    pub fn new() -> (r: Self)
        ensures
            r@.jobs == Seq::<LaunchJob>::empty(),
            r@.revision == 0,
    {
        LaunchStore { jobs: Vec::new(), revision: 0 }
    }

    pub fn all(&self) -> (r: &[LaunchJob])
        ensures
            r@ == self@.jobs,
    {
        self.jobs.as_slice()
    }

    fn position(&self, instance: &InstanceRef) -> (r: Option<usize>)
        ensures
            r matches Some(k) ==> first_index(self@.jobs, job_of(instance@)) == Some(k as int),
            r is None ==> first_index(self@.jobs, job_of(instance@)) is None,
    {
        let ghost t = instance@;
        position_by(
            &self.jobs,
            |j: &LaunchJob| -> (b: bool) ensures b == (j.instance@ == t) { j.instance.same(instance) },
            Ghost(job_of(t)),
        )
    }

    /// The job of an instance, if it is launching.
    pub fn get(&self, instance: &InstanceRef) -> (r: Option<&LaunchJob>)
        ensures
            r matches Some(j) ==> first_index(self@.jobs, job_of(instance@)) matches Some(k)
                && *j == self@.jobs[k],
            r is None ==> first_index(self@.jobs, job_of(instance@)) is None,
    {
        proof {
            lemma_first_index(self@.jobs, job_of(instance@));
        }
        match self.position(instance) {
            Some(k) => Some(&self.jobs[k]),
            None => None,
        }
    }

    pub fn is_launching(&self, instance: &InstanceRef) -> (r: bool)
        ensures
            r == (first_index(self@.jobs, job_of(instance@)) is Some),
    {
        self.position(instance).is_some()
    }

    pub fn is_empty(&self) -> (r: bool)
        ensures
            r == (self@.jobs.len() == 0),
    {
        self.jobs.is_empty()
    }

    /// Starting an instance that is already launching is a no-op.
    pub fn start(&mut self, job: LaunchJob) -> (r: bool)
        requires
            old(self)@.revision < u64::MAX,
        ensures
            r == (first_index(old(self)@.jobs, job_of(job.instance@)) is None),
            r ==> final(self)@ == (LaunchStoreView {
                jobs: old(self)@.jobs.push(job),
                revision: (old(self)@.revision + 1) as u64,
            }),
            !r ==> final(self)@ == old(self)@,
    {
        if self.is_launching(&job.instance) {
            return false;
        }
        self.jobs.push(job);
        self.revision += 1;
        true
    }

    /// Moves the job of `instance` to `phase` and `progress`; returns `false`
    /// when there is no such job or it already stands there.
    pub fn update(&mut self, instance: &InstanceRef, phase: LaunchPhase, progress: u32) -> (r: bool)
        requires
            old(self)@.revision < u64::MAX,
        ensures
            match first_index(old(self)@.jobs, job_of(instance@)) {
                None => !r && final(self)@ == old(self)@,
                Some(k) => {
                    let job = old(self)@.jobs[k];
                    if job.phase == phase && job.progress == progress {
                        !r && final(self)@ == old(self)@
                    } else {
                        r && final(self)@ == (LaunchStoreView {
                            jobs: old(self)@.jobs.update(k, LaunchJob { phase, progress, ..job }),
                            revision: (old(self)@.revision + 1) as u64,
                        })
                    }
                },
            },
    {
        proof {
            lemma_first_index(self@.jobs, job_of(instance@));
        }
        match self.position(instance) {
            None => false,
            Some(k) => {
                if self.jobs[k].phase == phase && self.jobs[k].progress == progress {
                    return false;
                }
                let job = &mut self.jobs[k];
                job.phase = phase;
                job.progress = progress;
                self.revision += 1;
                true
            },
        }
    }

    /// Marks the job of `instance` as failed with `message`; it can no longer
    /// be cancelled.
    pub fn fail(&mut self, instance: &InstanceRef, message: &str) -> (r: bool)
        requires
            old(self)@.revision < u64::MAX,
        ensures
            match first_index(old(self)@.jobs, job_of(instance@)) {
                None => !r && final(self)@ == old(self)@,
                Some(k) => {
                    let job = old(self)@.jobs[k];
                    if job.error matches Some(e) && e@ == message@ {
                        !r && final(self)@ == old(self)@
                    } else {
                        &&& r
                        &&& final(self)@.revision == old(self)@.revision + 1
                        &&& final(self)@.jobs.len() == old(self)@.jobs.len()
                        &&& forall|i: int| 0 <= i < old(self)@.jobs.len() && i != k ==> final(self)@.jobs[i] == old(self)@.jobs[i]
                        &&& final(self)@.jobs[k].error matches Some(e) && e@ == message@
                        &&& final(self)@.jobs[k] == LaunchJob {
                            error: final(self)@.jobs[k].error,
                            cancellable: false,
                            ..job
                        }
                    }
                },
            },
    {
        proof {
            lemma_first_index(self@.jobs, job_of(instance@));
        }
        match self.position(instance) {
            None => false,
            Some(k) => {
                let same = match &self.jobs[k].error {
                    Some(e) => str_eq(e.as_str(), message),
                    None => false,
                };
                if same {
                    return false;
                }
                let job = &mut self.jobs[k];
                job.error = Some(message.to_owned());
                job.cancellable = false;
                self.revision += 1;
                true
            },
        }
    }

    /// Drops every job of `instance`; returns whether there was one.
    pub fn finish(&mut self, instance: &InstanceRef) -> (r: bool)
        requires
            old(self)@.revision < u64::MAX,
        ensures
            r == (first_index(old(self)@.jobs, job_of(instance@)) is Some),
            final(self)@.jobs == old(self)@.jobs.filter(job_not_of(instance@)),
            final(self)@.revision == if r {
                old(self)@.revision + 1
            } else {
                old(self)@.revision as int
            },
    {
        proof {
            lemma_first_index(old(self)@.jobs, job_of(instance@));
        }
        let present = self.is_launching(instance);
        let ghost t = instance@;
        retain_by(
            &mut self.jobs,
            |j: &LaunchJob| -> (b: bool) ensures b == (j.instance@ != t) { !j.instance.same(instance) },
            Ghost(job_not_of(t)),
        );
        if present {
            self.revision += 1;
        } else {
            proof {
                assert(old(self)@.jobs.filter(job_not_of(t)) =~= old(self)@.jobs) by {
                    lemma_filter_keeps_all(old(self)@.jobs, job_not_of(t));
                }
            }
        }
        present
    }

    /// Drops every job of an instance that no longer exists.
    pub fn remove_instance(&mut self, instance: &InstanceRef) -> (r: bool)
        requires
            old(self)@.revision < u64::MAX,
        ensures
            r == (first_index(old(self)@.jobs, job_of(instance@)) is Some),
            final(self)@.jobs == old(self)@.jobs.filter(job_not_of(instance@)),
            final(self)@.revision == if r {
                old(self)@.revision + 1
            } else {
                old(self)@.revision as int
            },
    {
        self.finish(instance)
    }

    pub fn revision(&self) -> (r: u64)
        ensures
            r == self@.revision,
    {
        self.revision
    }
}

impl DeepView for MemoryMode {
    type V = MemoryMode;

    open spec fn deep_view(&self) -> MemoryMode {
        *self
    }
}

impl PlainData for MemoryMode {
    fn same(&self, other: &Self) -> (r: bool) {
        *self == *other
    }

    fn copied(&self) -> (r: Self) {
        *self
    }
}
impl DeepView for WindowMode {
    type V = WindowMode;

    open spec fn deep_view(&self) -> WindowMode {
        *self
    }
}

impl PlainData for WindowMode {
    fn same(&self, other: &Self) -> (r: bool) {
        *self == *other
    }

    fn copied(&self) -> (r: Self) {
        *self
    }
}
impl DeepView for QuickPlayMode {
    type V = QuickPlayMode;

    open spec fn deep_view(&self) -> QuickPlayMode {
        *self
    }
}

impl PlainData for QuickPlayMode {
    fn same(&self, other: &Self) -> (r: bool) {
        *self == *other
    }

    fn copied(&self) -> (r: Self) {
        *self
    }
}
impl DeepView for LaunchPhase {
    type V = LaunchPhase;

    open spec fn deep_view(&self) -> LaunchPhase {
        *self
    }
}

impl PlainData for LaunchPhase {
    fn same(&self, other: &Self) -> (r: bool) {
        *self == *other
    }

    fn copied(&self) -> (r: Self) {
        *self
    }
}
impl DeepView for LaunchValue {
    type V = LaunchValueView;

    open spec fn deep_view(&self) -> LaunchValueView {
        self@
    }
}

impl PlainData for LaunchValue {
    fn same(&self, other: &Self) -> (r: bool) {
        LaunchValue::same(self, other)
    }

    fn copied(&self) -> (r: Self) {
        LaunchValue::copied(self)
    }
}
impl DeepView for LaunchSettings {
    type V = LaunchSettingsView;

    open spec fn deep_view(&self) -> LaunchSettingsView {
        self@
    }
}

impl PlainData for LaunchSettings {
    fn same(&self, other: &Self) -> (r: bool) {
        LaunchSettings::same(self, other)
    }

    fn copied(&self) -> (r: Self) {
        LaunchSettings::copied(self)
    }
}
impl DeepView for LaunchOverrides {
    type V = Map<LaunchField, LaunchValueView>;

    open spec fn deep_view(&self) -> Map<LaunchField, LaunchValueView> {
        self@
    }
}

impl PlainData for LaunchOverrides {
    fn same(&self, other: &Self) -> (r: bool) {
        LaunchOverrides::same(self, other)
    }

    fn copied(&self) -> (r: Self) {
        LaunchOverrides::copied(self)
    }
}

} // verus!
