//! Icon assets, most of which are from Lucide Icons <https://lucide.dev/>.
use vstd::prelude::*;

use crate::text::{push_str, str_eq, string_of};

verus! {

/// The launcher's icons, named as their files are.
#[derive(Debug, Clone, Copy, PartialEq, Eq, Structural)]
pub enum PhaIcon {
    ArrowLeft,
    ArrowRight,
    ChevronDown,
    ChevronRight,
    Copy,
    EllipsisVertical,
    Flame,
    Folder,
    FolderOpen,
    Layers,
    Palette,
    Play,
    PlayFilled,
    Package,
    Plus,
    Search,
    Settings,
    Star,
    TriangleAlert,
    Trash2,
    WindowClose,
    WindowMaximize,
    WindowMinimize,
    WindowRestore,
    Box,
    Cpu,
    Ellipsis,
    FileDown,
    FileText,
    Globe,
    Info,
    KeyRound,
    Monitor,
    Puzzle,
    RefreshCw,
    ScrollText,
    Send,
    Server,
    Sparkles,
    Square,
    StarFilled,
    Upload,
    Users,
}

impl PhaIcon {
    /// Every icon, in declaration order.
    pub const ALL: [PhaIcon; 43] = [
        PhaIcon::ArrowLeft,
        PhaIcon::ArrowRight,
        PhaIcon::ChevronDown,
        PhaIcon::ChevronRight,
        PhaIcon::Copy,
        PhaIcon::EllipsisVertical,
        PhaIcon::Flame,
        PhaIcon::Folder,
        PhaIcon::FolderOpen,
        PhaIcon::Layers,
        PhaIcon::Palette,
        PhaIcon::Play,
        PhaIcon::PlayFilled,
        PhaIcon::Package,
        PhaIcon::Plus,
        PhaIcon::Search,
        PhaIcon::Settings,
        PhaIcon::Star,
        PhaIcon::TriangleAlert,
        PhaIcon::Trash2,
        PhaIcon::WindowClose,
        PhaIcon::WindowMaximize,
        PhaIcon::WindowMinimize,
        PhaIcon::WindowRestore,
        PhaIcon::Box,
        PhaIcon::Cpu,
        PhaIcon::Ellipsis,
        PhaIcon::FileDown,
        PhaIcon::FileText,
        PhaIcon::Globe,
        PhaIcon::Info,
        PhaIcon::KeyRound,
        PhaIcon::Monitor,
        PhaIcon::Puzzle,
        PhaIcon::RefreshCw,
        PhaIcon::ScrollText,
        PhaIcon::Send,
        PhaIcon::Server,
        PhaIcon::Sparkles,
        PhaIcon::Square,
        PhaIcon::StarFilled,
        PhaIcon::Upload,
        PhaIcon::Users,
    ];
}

/// The kebab-case name of an icon, as its file is named.
pub open spec fn icon_name(icon: PhaIcon) -> Seq<char> {
    match icon {
        PhaIcon::ArrowLeft => "arrow-left"@,
        PhaIcon::ArrowRight => "arrow-right"@,
        PhaIcon::ChevronDown => "chevron-down"@,
        PhaIcon::ChevronRight => "chevron-right"@,
        PhaIcon::Copy => "copy"@,
        PhaIcon::EllipsisVertical => "ellipsis-vertical"@,
        PhaIcon::Flame => "flame"@,
        PhaIcon::Folder => "folder"@,
        PhaIcon::FolderOpen => "folder-open"@,
        PhaIcon::Layers => "layers"@,
        PhaIcon::Palette => "palette"@,
        PhaIcon::Play => "play"@,
        PhaIcon::PlayFilled => "play-filled"@,
        PhaIcon::Package => "package"@,
        PhaIcon::Plus => "plus"@,
        PhaIcon::Search => "search"@,
        PhaIcon::Settings => "settings"@,
        PhaIcon::Star => "star"@,
        PhaIcon::TriangleAlert => "triangle-alert"@,
        PhaIcon::Trash2 => "trash-2"@,
        PhaIcon::WindowClose => "window-close"@,
        PhaIcon::WindowMaximize => "window-maximize"@,
        PhaIcon::WindowMinimize => "window-minimize"@,
        PhaIcon::WindowRestore => "window-restore"@,
        PhaIcon::Box => "box"@,
        PhaIcon::Cpu => "cpu"@,
        PhaIcon::Ellipsis => "ellipsis"@,
        PhaIcon::FileDown => "file-down"@,
        PhaIcon::FileText => "file-text"@,
        PhaIcon::Globe => "globe"@,
        PhaIcon::Info => "info"@,
        PhaIcon::KeyRound => "key-round"@,
        PhaIcon::Monitor => "monitor"@,
        PhaIcon::Puzzle => "puzzle"@,
        PhaIcon::RefreshCw => "refresh-cw"@,
        PhaIcon::ScrollText => "scroll-text"@,
        PhaIcon::Send => "send"@,
        PhaIcon::Server => "server"@,
        PhaIcon::Sparkles => "sparkles"@,
        PhaIcon::Square => "square"@,
        PhaIcon::StarFilled => "star-filled"@,
        PhaIcon::Upload => "upload"@,
        PhaIcon::Users => "users"@,
    }
}

/// The icon a name stands for: the first icon with that name.
pub open spec fn icon_named(name: Seq<char>) -> Option<PhaIcon> {
    if name == "arrow-left"@ {
        Some(PhaIcon::ArrowLeft)
    } else if name == "arrow-right"@ {
        Some(PhaIcon::ArrowRight)
    } else if name == "chevron-down"@ {
        Some(PhaIcon::ChevronDown)
    } else if name == "chevron-right"@ {
        Some(PhaIcon::ChevronRight)
    } else if name == "copy"@ {
        Some(PhaIcon::Copy)
    } else if name == "ellipsis-vertical"@ {
        Some(PhaIcon::EllipsisVertical)
    } else if name == "flame"@ {
        Some(PhaIcon::Flame)
    } else if name == "folder"@ {
        Some(PhaIcon::Folder)
    } else if name == "folder-open"@ {
        Some(PhaIcon::FolderOpen)
    } else if name == "layers"@ {
        Some(PhaIcon::Layers)
    } else if name == "palette"@ {
        Some(PhaIcon::Palette)
    } else if name == "play"@ {
        Some(PhaIcon::Play)
    } else if name == "play-filled"@ {
        Some(PhaIcon::PlayFilled)
    } else if name == "package"@ {
        Some(PhaIcon::Package)
    } else if name == "plus"@ {
        Some(PhaIcon::Plus)
    } else if name == "search"@ {
        Some(PhaIcon::Search)
    } else if name == "settings"@ {
        Some(PhaIcon::Settings)
    } else if name == "star"@ {
        Some(PhaIcon::Star)
    } else if name == "triangle-alert"@ {
        Some(PhaIcon::TriangleAlert)
    } else if name == "trash-2"@ {
        Some(PhaIcon::Trash2)
    } else if name == "window-close"@ {
        Some(PhaIcon::WindowClose)
    } else if name == "window-maximize"@ {
        Some(PhaIcon::WindowMaximize)
    } else if name == "window-minimize"@ {
        Some(PhaIcon::WindowMinimize)
    } else if name == "window-restore"@ {
        Some(PhaIcon::WindowRestore)
    } else if name == "box"@ {
        Some(PhaIcon::Box)
    } else if name == "cpu"@ {
        Some(PhaIcon::Cpu)
    } else if name == "ellipsis"@ {
        Some(PhaIcon::Ellipsis)
    } else if name == "file-down"@ {
        Some(PhaIcon::FileDown)
    } else if name == "file-text"@ {
        Some(PhaIcon::FileText)
    } else if name == "globe"@ {
        Some(PhaIcon::Globe)
    } else if name == "info"@ {
        Some(PhaIcon::Info)
    } else if name == "key-round"@ {
        Some(PhaIcon::KeyRound)
    } else if name == "monitor"@ {
        Some(PhaIcon::Monitor)
    } else if name == "puzzle"@ {
        Some(PhaIcon::Puzzle)
    } else if name == "refresh-cw"@ {
        Some(PhaIcon::RefreshCw)
    } else if name == "scroll-text"@ {
        Some(PhaIcon::ScrollText)
    } else if name == "send"@ {
        Some(PhaIcon::Send)
    } else if name == "server"@ {
        Some(PhaIcon::Server)
    } else if name == "sparkles"@ {
        Some(PhaIcon::Sparkles)
    } else if name == "square"@ {
        Some(PhaIcon::Square)
    } else if name == "star-filled"@ {
        Some(PhaIcon::StarFilled)
    } else if name == "upload"@ {
        Some(PhaIcon::Upload)
    } else if name == "users"@ {
        Some(PhaIcon::Users)
    } else {
        None
    }
}

impl PhaIcon {
    /// The icon's name (its `Display` form).
    pub fn name(self) -> (r: &'static str)
        ensures
            r@ == icon_name(self),
    {
        match self {
            PhaIcon::ArrowLeft => "arrow-left",
            PhaIcon::ArrowRight => "arrow-right",
            PhaIcon::ChevronDown => "chevron-down",
            PhaIcon::ChevronRight => "chevron-right",
            PhaIcon::Copy => "copy",
            PhaIcon::EllipsisVertical => "ellipsis-vertical",
            PhaIcon::Flame => "flame",
            PhaIcon::Folder => "folder",
            PhaIcon::FolderOpen => "folder-open",
            PhaIcon::Layers => "layers",
            PhaIcon::Palette => "palette",
            PhaIcon::Play => "play",
            PhaIcon::PlayFilled => "play-filled",
            PhaIcon::Package => "package",
            PhaIcon::Plus => "plus",
            PhaIcon::Search => "search",
            PhaIcon::Settings => "settings",
            PhaIcon::Star => "star",
            PhaIcon::TriangleAlert => "triangle-alert",
            PhaIcon::Trash2 => "trash-2",
            PhaIcon::WindowClose => "window-close",
            PhaIcon::WindowMaximize => "window-maximize",
            PhaIcon::WindowMinimize => "window-minimize",
            PhaIcon::WindowRestore => "window-restore",
            PhaIcon::Box => "box",
            PhaIcon::Cpu => "cpu",
            PhaIcon::Ellipsis => "ellipsis",
            PhaIcon::FileDown => "file-down",
            PhaIcon::FileText => "file-text",
            PhaIcon::Globe => "globe",
            PhaIcon::Info => "info",
            PhaIcon::KeyRound => "key-round",
            PhaIcon::Monitor => "monitor",
            PhaIcon::Puzzle => "puzzle",
            PhaIcon::RefreshCw => "refresh-cw",
            PhaIcon::ScrollText => "scroll-text",
            PhaIcon::Send => "send",
            PhaIcon::Server => "server",
            PhaIcon::Sparkles => "sparkles",
            PhaIcon::Square => "square",
            PhaIcon::StarFilled => "star-filled",
            PhaIcon::Upload => "upload",
            PhaIcon::Users => "users",
        }
    }

    /// The icon with the given name (its `FromStr` form).
    pub fn from_name(name: &str) -> (r: Option<PhaIcon>)
        ensures
            r == icon_named(name@),
    {
        if str_eq(name, "arrow-left") {
            Some(PhaIcon::ArrowLeft)
        } else if str_eq(name, "arrow-right") {
            Some(PhaIcon::ArrowRight)
        } else if str_eq(name, "chevron-down") {
            Some(PhaIcon::ChevronDown)
        } else if str_eq(name, "chevron-right") {
            Some(PhaIcon::ChevronRight)
        } else if str_eq(name, "copy") {
            Some(PhaIcon::Copy)
        } else if str_eq(name, "ellipsis-vertical") {
            Some(PhaIcon::EllipsisVertical)
        } else if str_eq(name, "flame") {
            Some(PhaIcon::Flame)
        } else if str_eq(name, "folder") {
            Some(PhaIcon::Folder)
        } else if str_eq(name, "folder-open") {
            Some(PhaIcon::FolderOpen)
        } else if str_eq(name, "layers") {
            Some(PhaIcon::Layers)
        } else if str_eq(name, "palette") {
            Some(PhaIcon::Palette)
        } else if str_eq(name, "play") {
            Some(PhaIcon::Play)
        } else if str_eq(name, "play-filled") {
            Some(PhaIcon::PlayFilled)
        } else if str_eq(name, "package") {
            Some(PhaIcon::Package)
        } else if str_eq(name, "plus") {
            Some(PhaIcon::Plus)
        } else if str_eq(name, "search") {
            Some(PhaIcon::Search)
        } else if str_eq(name, "settings") {
            Some(PhaIcon::Settings)
        } else if str_eq(name, "star") {
            Some(PhaIcon::Star)
        } else if str_eq(name, "triangle-alert") {
            Some(PhaIcon::TriangleAlert)
        } else if str_eq(name, "trash-2") {
            Some(PhaIcon::Trash2)
        } else if str_eq(name, "window-close") {
            Some(PhaIcon::WindowClose)
        } else if str_eq(name, "window-maximize") {
            Some(PhaIcon::WindowMaximize)
        } else if str_eq(name, "window-minimize") {
            Some(PhaIcon::WindowMinimize)
        } else if str_eq(name, "window-restore") {
            Some(PhaIcon::WindowRestore)
        } else if str_eq(name, "box") {
            Some(PhaIcon::Box)
        } else if str_eq(name, "cpu") {
            Some(PhaIcon::Cpu)
        } else if str_eq(name, "ellipsis") {
            Some(PhaIcon::Ellipsis)
        } else if str_eq(name, "file-down") {
            Some(PhaIcon::FileDown)
        } else if str_eq(name, "file-text") {
            Some(PhaIcon::FileText)
        } else if str_eq(name, "globe") {
            Some(PhaIcon::Globe)
        } else if str_eq(name, "info") {
            Some(PhaIcon::Info)
        } else if str_eq(name, "key-round") {
            Some(PhaIcon::KeyRound)
        } else if str_eq(name, "monitor") {
            Some(PhaIcon::Monitor)
        } else if str_eq(name, "puzzle") {
            Some(PhaIcon::Puzzle)
        } else if str_eq(name, "refresh-cw") {
            Some(PhaIcon::RefreshCw)
        } else if str_eq(name, "scroll-text") {
            Some(PhaIcon::ScrollText)
        } else if str_eq(name, "send") {
            Some(PhaIcon::Send)
        } else if str_eq(name, "server") {
            Some(PhaIcon::Server)
        } else if str_eq(name, "sparkles") {
            Some(PhaIcon::Sparkles)
        } else if str_eq(name, "square") {
            Some(PhaIcon::Square)
        } else if str_eq(name, "star-filled") {
            Some(PhaIcon::StarFilled)
        } else if str_eq(name, "upload") {
            Some(PhaIcon::Upload)
        } else if str_eq(name, "users") {
            Some(PhaIcon::Users)
        } else {
            None
        }
    }

    /// The asset path of the icon's SVG: `icons/<name>.svg`.
    pub fn asset_path(self) -> (r: String)
        ensures
            r@ == "icons/"@ + icon_name(self) + ".svg"@,
    {
        let mut out: Vec<char> = Vec::new();
        push_str(&mut out, "icons/");
        push_str(&mut out, self.name());
        push_str(&mut out, ".svg");
        string_of(&out)
    }
}

proof fn lemma_named_arrowleft()
    ensures
        icon_named(icon_name(PhaIcon::ArrowLeft)) == Some(PhaIcon::ArrowLeft),
{
    reveal_strlit("arrow-left");
    assert("arrow-left"@.len() == 10);
}

proof fn lemma_named_arrowright()
    ensures
        icon_named(icon_name(PhaIcon::ArrowRight)) == Some(PhaIcon::ArrowRight),
{
    reveal_strlit("arrow-right");
    assert("arrow-right"@.len() == 11);
    reveal_strlit("arrow-left");
    assert("arrow-left"@.len() == 10);
    assert("arrow-right"@ != "arrow-left"@);
}

proof fn lemma_named_chevrondown()
    ensures
        icon_named(icon_name(PhaIcon::ChevronDown)) == Some(PhaIcon::ChevronDown),
{
    reveal_strlit("chevron-down");
    assert("chevron-down"@.len() == 12);
    reveal_strlit("arrow-left");
    assert("arrow-left"@.len() == 10);
    assert("chevron-down"@ != "arrow-left"@);
    reveal_strlit("arrow-right");
    assert("arrow-right"@.len() == 11);
    assert("chevron-down"@ != "arrow-right"@);
}

proof fn lemma_named_chevronright()
    ensures
        icon_named(icon_name(PhaIcon::ChevronRight)) == Some(PhaIcon::ChevronRight),
{
    reveal_strlit("chevron-right");
    assert("chevron-right"@.len() == 13);
    reveal_strlit("arrow-left");
    assert("arrow-left"@.len() == 10);
    assert("chevron-right"@ != "arrow-left"@);
    reveal_strlit("arrow-right");
    assert("arrow-right"@.len() == 11);
    assert("chevron-right"@ != "arrow-right"@);
    reveal_strlit("chevron-down");
    assert("chevron-down"@.len() == 12);
    assert("chevron-right"@ != "chevron-down"@);
}

proof fn lemma_named_copy()
    ensures
        icon_named(icon_name(PhaIcon::Copy)) == Some(PhaIcon::Copy),
{
    reveal_strlit("copy");
    assert("copy"@.len() == 4);
    reveal_strlit("arrow-left");
    assert("arrow-left"@.len() == 10);
    assert("copy"@ != "arrow-left"@);
    reveal_strlit("arrow-right");
    assert("arrow-right"@.len() == 11);
    assert("copy"@ != "arrow-right"@);
    reveal_strlit("chevron-down");
    assert("chevron-down"@.len() == 12);
    assert("copy"@ != "chevron-down"@);
    reveal_strlit("chevron-right");
    assert("chevron-right"@.len() == 13);
    assert("copy"@ != "chevron-right"@);
}

proof fn lemma_named_ellipsisvertical()
    ensures
        icon_named(icon_name(PhaIcon::EllipsisVertical)) == Some(PhaIcon::EllipsisVertical),
{
    reveal_strlit("ellipsis-vertical");
    assert("ellipsis-vertical"@.len() == 17);
    reveal_strlit("arrow-left");
    assert("arrow-left"@.len() == 10);
    assert("ellipsis-vertical"@ != "arrow-left"@);
    reveal_strlit("arrow-right");
    assert("arrow-right"@.len() == 11);
    assert("ellipsis-vertical"@ != "arrow-right"@);
    reveal_strlit("chevron-down");
    assert("chevron-down"@.len() == 12);
    assert("ellipsis-vertical"@ != "chevron-down"@);
    reveal_strlit("chevron-right");
    assert("chevron-right"@.len() == 13);
    assert("ellipsis-vertical"@ != "chevron-right"@);
    reveal_strlit("copy");
    assert("copy"@.len() == 4);
    assert("ellipsis-vertical"@ != "copy"@);
}

proof fn lemma_named_flame()
    ensures
        icon_named(icon_name(PhaIcon::Flame)) == Some(PhaIcon::Flame),
{
    reveal_strlit("flame");
    assert("flame"@.len() == 5);
    reveal_strlit("arrow-left");
    assert("arrow-left"@.len() == 10);
    assert("flame"@ != "arrow-left"@);
    reveal_strlit("arrow-right");
    assert("arrow-right"@.len() == 11);
    assert("flame"@ != "arrow-right"@);
    reveal_strlit("chevron-down");
    assert("chevron-down"@.len() == 12);
    assert("flame"@ != "chevron-down"@);
    reveal_strlit("chevron-right");
    assert("chevron-right"@.len() == 13);
    assert("flame"@ != "chevron-right"@);
    reveal_strlit("copy");
    assert("copy"@.len() == 4);
    assert("flame"@ != "copy"@);
    reveal_strlit("ellipsis-vertical");
    assert("ellipsis-vertical"@.len() == 17);
    assert("flame"@ != "ellipsis-vertical"@);
}

proof fn lemma_named_folder()
    ensures
        icon_named(icon_name(PhaIcon::Folder)) == Some(PhaIcon::Folder),
{
    reveal_strlit("folder");
    assert("folder"@.len() == 6);
    reveal_strlit("arrow-left");
    assert("arrow-left"@.len() == 10);
    assert("folder"@ != "arrow-left"@);
    reveal_strlit("arrow-right");
    assert("arrow-right"@.len() == 11);
    assert("folder"@ != "arrow-right"@);
    reveal_strlit("chevron-down");
    assert("chevron-down"@.len() == 12);
    assert("folder"@ != "chevron-down"@);
    reveal_strlit("chevron-right");
    assert("chevron-right"@.len() == 13);
    assert("folder"@ != "chevron-right"@);
    reveal_strlit("copy");
    assert("copy"@.len() == 4);
    assert("folder"@ != "copy"@);
    reveal_strlit("ellipsis-vertical");
    assert("ellipsis-vertical"@.len() == 17);
    assert("folder"@ != "ellipsis-vertical"@);
    reveal_strlit("flame");
    assert("flame"@.len() == 5);
    assert("folder"@ != "flame"@);
}

proof fn lemma_named_folderopen()
    ensures
        icon_named(icon_name(PhaIcon::FolderOpen)) == Some(PhaIcon::FolderOpen),
{
    reveal_strlit("folder-open");
    assert("folder-open"@.len() == 11);
    reveal_strlit("arrow-left");
    assert("arrow-left"@.len() == 10);
    assert("folder-open"@ != "arrow-left"@);
    reveal_strlit("arrow-right");
    assert("arrow-right"@[0] == 'a' && "folder-open"@[0] == 'f');
    assert("folder-open"@ != "arrow-right"@);
    reveal_strlit("chevron-down");
    assert("chevron-down"@.len() == 12);
    assert("folder-open"@ != "chevron-down"@);
    reveal_strlit("chevron-right");
    assert("chevron-right"@.len() == 13);
    assert("folder-open"@ != "chevron-right"@);
    reveal_strlit("copy");
    assert("copy"@.len() == 4);
    assert("folder-open"@ != "copy"@);
    reveal_strlit("ellipsis-vertical");
    assert("ellipsis-vertical"@.len() == 17);
    assert("folder-open"@ != "ellipsis-vertical"@);
    reveal_strlit("flame");
    assert("flame"@.len() == 5);
    assert("folder-open"@ != "flame"@);
    reveal_strlit("folder");
    assert("folder"@.len() == 6);
    assert("folder-open"@ != "folder"@);
}

proof fn lemma_named_layers()
    ensures
        icon_named(icon_name(PhaIcon::Layers)) == Some(PhaIcon::Layers),
{
    reveal_strlit("layers");
    assert("layers"@.len() == 6);
    reveal_strlit("arrow-left");
    assert("arrow-left"@.len() == 10);
    assert("layers"@ != "arrow-left"@);
    reveal_strlit("arrow-right");
    assert("arrow-right"@.len() == 11);
    assert("layers"@ != "arrow-right"@);
    reveal_strlit("chevron-down");
    assert("chevron-down"@.len() == 12);
    assert("layers"@ != "chevron-down"@);
    reveal_strlit("chevron-right");
    assert("chevron-right"@.len() == 13);
    assert("layers"@ != "chevron-right"@);
    reveal_strlit("copy");
    assert("copy"@.len() == 4);
    assert("layers"@ != "copy"@);
    reveal_strlit("ellipsis-vertical");
    assert("ellipsis-vertical"@.len() == 17);
    assert("layers"@ != "ellipsis-vertical"@);
    reveal_strlit("flame");
    assert("flame"@.len() == 5);
    assert("layers"@ != "flame"@);
    reveal_strlit("folder");
    assert("folder"@[0] == 'f' && "layers"@[0] == 'l');
    assert("layers"@ != "folder"@);
    reveal_strlit("folder-open");
    assert("folder-open"@.len() == 11);
    assert("layers"@ != "folder-open"@);
}

proof fn lemma_named_palette()
    ensures
        icon_named(icon_name(PhaIcon::Palette)) == Some(PhaIcon::Palette),
{
    reveal_strlit("palette");
    assert("palette"@.len() == 7);
    reveal_strlit("arrow-left");
    assert("arrow-left"@.len() == 10);
    assert("palette"@ != "arrow-left"@);
    reveal_strlit("arrow-right");
    assert("arrow-right"@.len() == 11);
    assert("palette"@ != "arrow-right"@);
    reveal_strlit("chevron-down");
    assert("chevron-down"@.len() == 12);
    assert("palette"@ != "chevron-down"@);
    reveal_strlit("chevron-right");
    assert("chevron-right"@.len() == 13);
    assert("palette"@ != "chevron-right"@);
    reveal_strlit("copy");
    assert("copy"@.len() == 4);
    assert("palette"@ != "copy"@);
    reveal_strlit("ellipsis-vertical");
    assert("ellipsis-vertical"@.len() == 17);
    assert("palette"@ != "ellipsis-vertical"@);
    reveal_strlit("flame");
    assert("flame"@.len() == 5);
    assert("palette"@ != "flame"@);
    reveal_strlit("folder");
    assert("folder"@.len() == 6);
    assert("palette"@ != "folder"@);
    reveal_strlit("folder-open");
    assert("folder-open"@.len() == 11);
    assert("palette"@ != "folder-open"@);
    reveal_strlit("layers");
    assert("layers"@.len() == 6);
    assert("palette"@ != "layers"@);
}

proof fn lemma_named_play()
    ensures
        icon_named(icon_name(PhaIcon::Play)) == Some(PhaIcon::Play),
{
    reveal_strlit("play");
    assert("play"@.len() == 4);
    reveal_strlit("arrow-left");
    assert("arrow-left"@.len() == 10);
    assert("play"@ != "arrow-left"@);
    reveal_strlit("arrow-right");
    assert("arrow-right"@.len() == 11);
    assert("play"@ != "arrow-right"@);
    reveal_strlit("chevron-down");
    assert("chevron-down"@.len() == 12);
    assert("play"@ != "chevron-down"@);
    reveal_strlit("chevron-right");
    assert("chevron-right"@.len() == 13);
    assert("play"@ != "chevron-right"@);
    reveal_strlit("copy");
    assert("copy"@[0] == 'c' && "play"@[0] == 'p');
    assert("play"@ != "copy"@);
    reveal_strlit("ellipsis-vertical");
    assert("ellipsis-vertical"@.len() == 17);
    assert("play"@ != "ellipsis-vertical"@);
    reveal_strlit("flame");
    assert("flame"@.len() == 5);
    assert("play"@ != "flame"@);
    reveal_strlit("folder");
    assert("folder"@.len() == 6);
    assert("play"@ != "folder"@);
    reveal_strlit("folder-open");
    assert("folder-open"@.len() == 11);
    assert("play"@ != "folder-open"@);
    reveal_strlit("layers");
    assert("layers"@.len() == 6);
    assert("play"@ != "layers"@);
    reveal_strlit("palette");
    assert("palette"@.len() == 7);
    assert("play"@ != "palette"@);
}

proof fn lemma_named_playfilled()
    ensures
        icon_named(icon_name(PhaIcon::PlayFilled)) == Some(PhaIcon::PlayFilled),
{
    reveal_strlit("play-filled");
    assert("play-filled"@.len() == 11);
    reveal_strlit("arrow-left");
    assert("arrow-left"@.len() == 10);
    assert("play-filled"@ != "arrow-left"@);
    reveal_strlit("arrow-right");
    assert("arrow-right"@[0] == 'a' && "play-filled"@[0] == 'p');
    assert("play-filled"@ != "arrow-right"@);
    reveal_strlit("chevron-down");
    assert("chevron-down"@.len() == 12);
    assert("play-filled"@ != "chevron-down"@);
    reveal_strlit("chevron-right");
    assert("chevron-right"@.len() == 13);
    assert("play-filled"@ != "chevron-right"@);
    reveal_strlit("copy");
    assert("copy"@.len() == 4);
    assert("play-filled"@ != "copy"@);
    reveal_strlit("ellipsis-vertical");
    assert("ellipsis-vertical"@.len() == 17);
    assert("play-filled"@ != "ellipsis-vertical"@);
    reveal_strlit("flame");
    assert("flame"@.len() == 5);
    assert("play-filled"@ != "flame"@);
    reveal_strlit("folder");
    assert("folder"@.len() == 6);
    assert("play-filled"@ != "folder"@);
    reveal_strlit("folder-open");
    assert("folder-open"@[0] == 'f' && "play-filled"@[0] == 'p');
    assert("play-filled"@ != "folder-open"@);
    reveal_strlit("layers");
    assert("layers"@.len() == 6);
    assert("play-filled"@ != "layers"@);
    reveal_strlit("palette");
    assert("palette"@.len() == 7);
    assert("play-filled"@ != "palette"@);
    reveal_strlit("play");
    assert("play"@.len() == 4);
    assert("play-filled"@ != "play"@);
}

proof fn lemma_named_package()
    ensures
        icon_named(icon_name(PhaIcon::Package)) == Some(PhaIcon::Package),
{
    reveal_strlit("package");
    assert("package"@.len() == 7);
    reveal_strlit("arrow-left");
    assert("arrow-left"@.len() == 10);
    assert("package"@ != "arrow-left"@);
    reveal_strlit("arrow-right");
    assert("arrow-right"@.len() == 11);
    assert("package"@ != "arrow-right"@);
    reveal_strlit("chevron-down");
    assert("chevron-down"@.len() == 12);
    assert("package"@ != "chevron-down"@);
    reveal_strlit("chevron-right");
    assert("chevron-right"@.len() == 13);
    assert("package"@ != "chevron-right"@);
    reveal_strlit("copy");
    assert("copy"@.len() == 4);
    assert("package"@ != "copy"@);
    reveal_strlit("ellipsis-vertical");
    assert("ellipsis-vertical"@.len() == 17);
    assert("package"@ != "ellipsis-vertical"@);
    reveal_strlit("flame");
    assert("flame"@.len() == 5);
    assert("package"@ != "flame"@);
    reveal_strlit("folder");
    assert("folder"@.len() == 6);
    assert("package"@ != "folder"@);
    reveal_strlit("folder-open");
    assert("folder-open"@.len() == 11);
    assert("package"@ != "folder-open"@);
    reveal_strlit("layers");
    assert("layers"@.len() == 6);
    assert("package"@ != "layers"@);
    reveal_strlit("palette");
    assert("palette"@[2] == 'l' && "package"@[2] == 'c');
    assert("package"@ != "palette"@);
    reveal_strlit("play");
    assert("play"@.len() == 4);
    assert("package"@ != "play"@);
    reveal_strlit("play-filled");
    assert("play-filled"@.len() == 11);
    assert("package"@ != "play-filled"@);
}

proof fn lemma_named_plus()
    ensures
        icon_named(icon_name(PhaIcon::Plus)) == Some(PhaIcon::Plus),
{
    reveal_strlit("plus");
    assert("plus"@.len() == 4);
    reveal_strlit("arrow-left");
    assert("arrow-left"@.len() == 10);
    assert("plus"@ != "arrow-left"@);
    reveal_strlit("arrow-right");
    assert("arrow-right"@.len() == 11);
    assert("plus"@ != "arrow-right"@);
    reveal_strlit("chevron-down");
    assert("chevron-down"@.len() == 12);
    assert("plus"@ != "chevron-down"@);
    reveal_strlit("chevron-right");
    assert("chevron-right"@.len() == 13);
    assert("plus"@ != "chevron-right"@);
    reveal_strlit("copy");
    assert("copy"@[0] == 'c' && "plus"@[0] == 'p');
    assert("plus"@ != "copy"@);
    reveal_strlit("ellipsis-vertical");
    assert("ellipsis-vertical"@.len() == 17);
    assert("plus"@ != "ellipsis-vertical"@);
    reveal_strlit("flame");
    assert("flame"@.len() == 5);
    assert("plus"@ != "flame"@);
    reveal_strlit("folder");
    assert("folder"@.len() == 6);
    assert("plus"@ != "folder"@);
    reveal_strlit("folder-open");
    assert("folder-open"@.len() == 11);
    assert("plus"@ != "folder-open"@);
    reveal_strlit("layers");
    assert("layers"@.len() == 6);
    assert("plus"@ != "layers"@);
    reveal_strlit("palette");
    assert("palette"@.len() == 7);
    assert("plus"@ != "palette"@);
    reveal_strlit("play");
    assert("play"@[2] == 'a' && "plus"@[2] == 'u');
    assert("plus"@ != "play"@);
    reveal_strlit("play-filled");
    assert("play-filled"@.len() == 11);
    assert("plus"@ != "play-filled"@);
    reveal_strlit("package");
    assert("package"@.len() == 7);
    assert("plus"@ != "package"@);
}

proof fn lemma_named_search()
    ensures
        icon_named(icon_name(PhaIcon::Search)) == Some(PhaIcon::Search),
{
    reveal_strlit("search");
    assert("search"@.len() == 6);
    reveal_strlit("arrow-left");
    assert("arrow-left"@.len() == 10);
    assert("search"@ != "arrow-left"@);
    reveal_strlit("arrow-right");
    assert("arrow-right"@.len() == 11);
    assert("search"@ != "arrow-right"@);
    reveal_strlit("chevron-down");
    assert("chevron-down"@.len() == 12);
    assert("search"@ != "chevron-down"@);
    reveal_strlit("chevron-right");
    assert("chevron-right"@.len() == 13);
    assert("search"@ != "chevron-right"@);
    reveal_strlit("copy");
    assert("copy"@.len() == 4);
    assert("search"@ != "copy"@);
    reveal_strlit("ellipsis-vertical");
    assert("ellipsis-vertical"@.len() == 17);
    assert("search"@ != "ellipsis-vertical"@);
    reveal_strlit("flame");
    assert("flame"@.len() == 5);
    assert("search"@ != "flame"@);
    reveal_strlit("folder");
    assert("folder"@[0] == 'f' && "search"@[0] == 's');
    assert("search"@ != "folder"@);
    reveal_strlit("folder-open");
    assert("folder-open"@.len() == 11);
    assert("search"@ != "folder-open"@);
    reveal_strlit("layers");
    assert("layers"@[0] == 'l' && "search"@[0] == 's');
    assert("search"@ != "layers"@);
    reveal_strlit("palette");
    assert("palette"@.len() == 7);
    assert("search"@ != "palette"@);
    reveal_strlit("play");
    assert("play"@.len() == 4);
    assert("search"@ != "play"@);
    reveal_strlit("play-filled");
    assert("play-filled"@.len() == 11);
    assert("search"@ != "play-filled"@);
    reveal_strlit("package");
    assert("package"@.len() == 7);
    assert("search"@ != "package"@);
    reveal_strlit("plus");
    assert("plus"@.len() == 4);
    assert("search"@ != "plus"@);
}

proof fn lemma_named_settings()
    ensures
        icon_named(icon_name(PhaIcon::Settings)) == Some(PhaIcon::Settings),
{
    reveal_strlit("settings");
    assert("settings"@.len() == 8);
    reveal_strlit("arrow-left");
    assert("arrow-left"@.len() == 10);
    assert("settings"@ != "arrow-left"@);
    reveal_strlit("arrow-right");
    assert("arrow-right"@.len() == 11);
    assert("settings"@ != "arrow-right"@);
    reveal_strlit("chevron-down");
    assert("chevron-down"@.len() == 12);
    assert("settings"@ != "chevron-down"@);
    reveal_strlit("chevron-right");
    assert("chevron-right"@.len() == 13);
    assert("settings"@ != "chevron-right"@);
    reveal_strlit("copy");
    assert("copy"@.len() == 4);
    assert("settings"@ != "copy"@);
    reveal_strlit("ellipsis-vertical");
    assert("ellipsis-vertical"@.len() == 17);
    assert("settings"@ != "ellipsis-vertical"@);
    reveal_strlit("flame");
    assert("flame"@.len() == 5);
    assert("settings"@ != "flame"@);
    reveal_strlit("folder");
    assert("folder"@.len() == 6);
    assert("settings"@ != "folder"@);
    reveal_strlit("folder-open");
    assert("folder-open"@.len() == 11);
    assert("settings"@ != "folder-open"@);
    reveal_strlit("layers");
    assert("layers"@.len() == 6);
    assert("settings"@ != "layers"@);
    reveal_strlit("palette");
    assert("palette"@.len() == 7);
    assert("settings"@ != "palette"@);
    reveal_strlit("play");
    assert("play"@.len() == 4);
    assert("settings"@ != "play"@);
    reveal_strlit("play-filled");
    assert("play-filled"@.len() == 11);
    assert("settings"@ != "play-filled"@);
    reveal_strlit("package");
    assert("package"@.len() == 7);
    assert("settings"@ != "package"@);
    reveal_strlit("plus");
    assert("plus"@.len() == 4);
    assert("settings"@ != "plus"@);
    reveal_strlit("search");
    assert("search"@.len() == 6);
    assert("settings"@ != "search"@);
}

proof fn lemma_named_star()
    ensures
        icon_named(icon_name(PhaIcon::Star)) == Some(PhaIcon::Star),
{
    reveal_strlit("star");
    assert("star"@.len() == 4);
    reveal_strlit("arrow-left");
    assert("arrow-left"@.len() == 10);
    assert("star"@ != "arrow-left"@);
    reveal_strlit("arrow-right");
    assert("arrow-right"@.len() == 11);
    assert("star"@ != "arrow-right"@);
    reveal_strlit("chevron-down");
    assert("chevron-down"@.len() == 12);
    assert("star"@ != "chevron-down"@);
    reveal_strlit("chevron-right");
    assert("chevron-right"@.len() == 13);
    assert("star"@ != "chevron-right"@);
    reveal_strlit("copy");
    assert("copy"@[0] == 'c' && "star"@[0] == 's');
    assert("star"@ != "copy"@);
    reveal_strlit("ellipsis-vertical");
    assert("ellipsis-vertical"@.len() == 17);
    assert("star"@ != "ellipsis-vertical"@);
    reveal_strlit("flame");
    assert("flame"@.len() == 5);
    assert("star"@ != "flame"@);
    reveal_strlit("folder");
    assert("folder"@.len() == 6);
    assert("star"@ != "folder"@);
    reveal_strlit("folder-open");
    assert("folder-open"@.len() == 11);
    assert("star"@ != "folder-open"@);
    reveal_strlit("layers");
    assert("layers"@.len() == 6);
    assert("star"@ != "layers"@);
    reveal_strlit("palette");
    assert("palette"@.len() == 7);
    assert("star"@ != "palette"@);
    reveal_strlit("play");
    assert("play"@[0] == 'p' && "star"@[0] == 's');
    assert("star"@ != "play"@);
    reveal_strlit("play-filled");
    assert("play-filled"@.len() == 11);
    assert("star"@ != "play-filled"@);
    reveal_strlit("package");
    assert("package"@.len() == 7);
    assert("star"@ != "package"@);
    reveal_strlit("plus");
    assert("plus"@[0] == 'p' && "star"@[0] == 's');
    assert("star"@ != "plus"@);
    reveal_strlit("search");
    assert("search"@.len() == 6);
    assert("star"@ != "search"@);
    reveal_strlit("settings");
    assert("settings"@.len() == 8);
    assert("star"@ != "settings"@);
}

proof fn lemma_named_trianglealert()
    ensures
        icon_named(icon_name(PhaIcon::TriangleAlert)) == Some(PhaIcon::TriangleAlert),
{
    reveal_strlit("triangle-alert");
    assert("triangle-alert"@.len() == 14);
    reveal_strlit("arrow-left");
    assert("arrow-left"@.len() == 10);
    assert("triangle-alert"@ != "arrow-left"@);
    reveal_strlit("arrow-right");
    assert("arrow-right"@.len() == 11);
    assert("triangle-alert"@ != "arrow-right"@);
    reveal_strlit("chevron-down");
    assert("chevron-down"@.len() == 12);
    assert("triangle-alert"@ != "chevron-down"@);
    reveal_strlit("chevron-right");
    assert("chevron-right"@.len() == 13);
    assert("triangle-alert"@ != "chevron-right"@);
    reveal_strlit("copy");
    assert("copy"@.len() == 4);
    assert("triangle-alert"@ != "copy"@);
    reveal_strlit("ellipsis-vertical");
    assert("ellipsis-vertical"@.len() == 17);
    assert("triangle-alert"@ != "ellipsis-vertical"@);
    reveal_strlit("flame");
    assert("flame"@.len() == 5);
    assert("triangle-alert"@ != "flame"@);
    reveal_strlit("folder");
    assert("folder"@.len() == 6);
    assert("triangle-alert"@ != "folder"@);
    reveal_strlit("folder-open");
    assert("folder-open"@.len() == 11);
    assert("triangle-alert"@ != "folder-open"@);
    reveal_strlit("layers");
    assert("layers"@.len() == 6);
    assert("triangle-alert"@ != "layers"@);
    reveal_strlit("palette");
    assert("palette"@.len() == 7);
    assert("triangle-alert"@ != "palette"@);
    reveal_strlit("play");
    assert("play"@.len() == 4);
    assert("triangle-alert"@ != "play"@);
    reveal_strlit("play-filled");
    assert("play-filled"@.len() == 11);
    assert("triangle-alert"@ != "play-filled"@);
    reveal_strlit("package");
    assert("package"@.len() == 7);
    assert("triangle-alert"@ != "package"@);
    reveal_strlit("plus");
    assert("plus"@.len() == 4);
    assert("triangle-alert"@ != "plus"@);
    reveal_strlit("search");
    assert("search"@.len() == 6);
    assert("triangle-alert"@ != "search"@);
    reveal_strlit("settings");
    assert("settings"@.len() == 8);
    assert("triangle-alert"@ != "settings"@);
    reveal_strlit("star");
    assert("star"@.len() == 4);
    assert("triangle-alert"@ != "star"@);
}

proof fn lemma_named_trash2()
    ensures
        icon_named(icon_name(PhaIcon::Trash2)) == Some(PhaIcon::Trash2),
{
    reveal_strlit("trash-2");
    assert("trash-2"@.len() == 7);
    reveal_strlit("arrow-left");
    assert("arrow-left"@.len() == 10);
    assert("trash-2"@ != "arrow-left"@);
    reveal_strlit("arrow-right");
    assert("arrow-right"@.len() == 11);
    assert("trash-2"@ != "arrow-right"@);
    reveal_strlit("chevron-down");
    assert("chevron-down"@.len() == 12);
    assert("trash-2"@ != "chevron-down"@);
    reveal_strlit("chevron-right");
    assert("chevron-right"@.len() == 13);
    assert("trash-2"@ != "chevron-right"@);
    reveal_strlit("copy");
    assert("copy"@.len() == 4);
    assert("trash-2"@ != "copy"@);
    reveal_strlit("ellipsis-vertical");
    assert("ellipsis-vertical"@.len() == 17);
    assert("trash-2"@ != "ellipsis-vertical"@);
    reveal_strlit("flame");
    assert("flame"@.len() == 5);
    assert("trash-2"@ != "flame"@);
    reveal_strlit("folder");
    assert("folder"@.len() == 6);
    assert("trash-2"@ != "folder"@);
    reveal_strlit("folder-open");
    assert("folder-open"@.len() == 11);
    assert("trash-2"@ != "folder-open"@);
    reveal_strlit("layers");
    assert("layers"@.len() == 6);
    assert("trash-2"@ != "layers"@);
    reveal_strlit("palette");
    assert("palette"@[0] == 'p' && "trash-2"@[0] == 't');
    assert("trash-2"@ != "palette"@);
    reveal_strlit("play");
    assert("play"@.len() == 4);
    assert("trash-2"@ != "play"@);
    reveal_strlit("play-filled");
    assert("play-filled"@.len() == 11);
    assert("trash-2"@ != "play-filled"@);
    reveal_strlit("package");
    assert("package"@[0] == 'p' && "trash-2"@[0] == 't');
    assert("trash-2"@ != "package"@);
    reveal_strlit("plus");
    assert("plus"@.len() == 4);
    assert("trash-2"@ != "plus"@);
    reveal_strlit("search");
    assert("search"@.len() == 6);
    assert("trash-2"@ != "search"@);
    reveal_strlit("settings");
    assert("settings"@.len() == 8);
    assert("trash-2"@ != "settings"@);
    reveal_strlit("star");
    assert("star"@.len() == 4);
    assert("trash-2"@ != "star"@);
    reveal_strlit("triangle-alert");
    assert("triangle-alert"@.len() == 14);
    assert("trash-2"@ != "triangle-alert"@);
}

proof fn lemma_named_windowclose()
    ensures
        icon_named(icon_name(PhaIcon::WindowClose)) == Some(PhaIcon::WindowClose),
{
    reveal_strlit("window-close");
    assert("window-close"@.len() == 12);
    reveal_strlit("arrow-left");
    assert("arrow-left"@.len() == 10);
    assert("window-close"@ != "arrow-left"@);
    reveal_strlit("arrow-right");
    assert("arrow-right"@.len() == 11);
    assert("window-close"@ != "arrow-right"@);
    reveal_strlit("chevron-down");
    assert("chevron-down"@[0] == 'c' && "window-close"@[0] == 'w');
    assert("window-close"@ != "chevron-down"@);
    reveal_strlit("chevron-right");
    assert("chevron-right"@.len() == 13);
    assert("window-close"@ != "chevron-right"@);
    reveal_strlit("copy");
    assert("copy"@.len() == 4);
    assert("window-close"@ != "copy"@);
    reveal_strlit("ellipsis-vertical");
    assert("ellipsis-vertical"@.len() == 17);
    assert("window-close"@ != "ellipsis-vertical"@);
    reveal_strlit("flame");
    assert("flame"@.len() == 5);
    assert("window-close"@ != "flame"@);
    reveal_strlit("folder");
    assert("folder"@.len() == 6);
    assert("window-close"@ != "folder"@);
    reveal_strlit("folder-open");
    assert("folder-open"@.len() == 11);
    assert("window-close"@ != "folder-open"@);
    reveal_strlit("layers");
    assert("layers"@.len() == 6);
    assert("window-close"@ != "layers"@);
    reveal_strlit("palette");
    assert("palette"@.len() == 7);
    assert("window-close"@ != "palette"@);
    reveal_strlit("play");
    assert("play"@.len() == 4);
    assert("window-close"@ != "play"@);
    reveal_strlit("play-filled");
    assert("play-filled"@.len() == 11);
    assert("window-close"@ != "play-filled"@);
    reveal_strlit("package");
    assert("package"@.len() == 7);
    assert("window-close"@ != "package"@);
    reveal_strlit("plus");
    assert("plus"@.len() == 4);
    assert("window-close"@ != "plus"@);
    reveal_strlit("search");
    assert("search"@.len() == 6);
    assert("window-close"@ != "search"@);
    reveal_strlit("settings");
    assert("settings"@.len() == 8);
    assert("window-close"@ != "settings"@);
    reveal_strlit("star");
    assert("star"@.len() == 4);
    assert("window-close"@ != "star"@);
    reveal_strlit("triangle-alert");
    assert("triangle-alert"@.len() == 14);
    assert("window-close"@ != "triangle-alert"@);
    reveal_strlit("trash-2");
    assert("trash-2"@.len() == 7);
    assert("window-close"@ != "trash-2"@);
}

proof fn lemma_named_windowmaximize()
    ensures
        icon_named(icon_name(PhaIcon::WindowMaximize)) == Some(PhaIcon::WindowMaximize),
{
    reveal_strlit("window-maximize");
    assert("window-maximize"@.len() == 15);
    reveal_strlit("arrow-left");
    assert("arrow-left"@.len() == 10);
    assert("window-maximize"@ != "arrow-left"@);
    reveal_strlit("arrow-right");
    assert("arrow-right"@.len() == 11);
    assert("window-maximize"@ != "arrow-right"@);
    reveal_strlit("chevron-down");
    assert("chevron-down"@.len() == 12);
    assert("window-maximize"@ != "chevron-down"@);
    reveal_strlit("chevron-right");
    assert("chevron-right"@.len() == 13);
    assert("window-maximize"@ != "chevron-right"@);
    reveal_strlit("copy");
    assert("copy"@.len() == 4);
    assert("window-maximize"@ != "copy"@);
    reveal_strlit("ellipsis-vertical");
    assert("ellipsis-vertical"@.len() == 17);
    assert("window-maximize"@ != "ellipsis-vertical"@);
    reveal_strlit("flame");
    assert("flame"@.len() == 5);
    assert("window-maximize"@ != "flame"@);
    reveal_strlit("folder");
    assert("folder"@.len() == 6);
    assert("window-maximize"@ != "folder"@);
    reveal_strlit("folder-open");
    assert("folder-open"@.len() == 11);
    assert("window-maximize"@ != "folder-open"@);
    reveal_strlit("layers");
    assert("layers"@.len() == 6);
    assert("window-maximize"@ != "layers"@);
    reveal_strlit("palette");
    assert("palette"@.len() == 7);
    assert("window-maximize"@ != "palette"@);
    reveal_strlit("play");
    assert("play"@.len() == 4);
    assert("window-maximize"@ != "play"@);
    reveal_strlit("play-filled");
    assert("play-filled"@.len() == 11);
    assert("window-maximize"@ != "play-filled"@);
    reveal_strlit("package");
    assert("package"@.len() == 7);
    assert("window-maximize"@ != "package"@);
    reveal_strlit("plus");
    assert("plus"@.len() == 4);
    assert("window-maximize"@ != "plus"@);
    reveal_strlit("search");
    assert("search"@.len() == 6);
    assert("window-maximize"@ != "search"@);
    reveal_strlit("settings");
    assert("settings"@.len() == 8);
    assert("window-maximize"@ != "settings"@);
    reveal_strlit("star");
    assert("star"@.len() == 4);
    assert("window-maximize"@ != "star"@);
    reveal_strlit("triangle-alert");
    assert("triangle-alert"@.len() == 14);
    assert("window-maximize"@ != "triangle-alert"@);
    reveal_strlit("trash-2");
    assert("trash-2"@.len() == 7);
    assert("window-maximize"@ != "trash-2"@);
    reveal_strlit("window-close");
    assert("window-close"@.len() == 12);
    assert("window-maximize"@ != "window-close"@);
}

proof fn lemma_named_windowminimize()
    ensures
        icon_named(icon_name(PhaIcon::WindowMinimize)) == Some(PhaIcon::WindowMinimize),
{
    reveal_strlit("window-minimize");
    assert("window-minimize"@.len() == 15);
    reveal_strlit("arrow-left");
    assert("arrow-left"@.len() == 10);
    assert("window-minimize"@ != "arrow-left"@);
    reveal_strlit("arrow-right");
    assert("arrow-right"@.len() == 11);
    assert("window-minimize"@ != "arrow-right"@);
    reveal_strlit("chevron-down");
    assert("chevron-down"@.len() == 12);
    assert("window-minimize"@ != "chevron-down"@);
    reveal_strlit("chevron-right");
    assert("chevron-right"@.len() == 13);
    assert("window-minimize"@ != "chevron-right"@);
    reveal_strlit("copy");
    assert("copy"@.len() == 4);
    assert("window-minimize"@ != "copy"@);
    reveal_strlit("ellipsis-vertical");
    assert("ellipsis-vertical"@.len() == 17);
    assert("window-minimize"@ != "ellipsis-vertical"@);
    reveal_strlit("flame");
    assert("flame"@.len() == 5);
    assert("window-minimize"@ != "flame"@);
    reveal_strlit("folder");
    assert("folder"@.len() == 6);
    assert("window-minimize"@ != "folder"@);
    reveal_strlit("folder-open");
    assert("folder-open"@.len() == 11);
    assert("window-minimize"@ != "folder-open"@);
    reveal_strlit("layers");
    assert("layers"@.len() == 6);
    assert("window-minimize"@ != "layers"@);
    reveal_strlit("palette");
    assert("palette"@.len() == 7);
    assert("window-minimize"@ != "palette"@);
    reveal_strlit("play");
    assert("play"@.len() == 4);
    assert("window-minimize"@ != "play"@);
    reveal_strlit("play-filled");
    assert("play-filled"@.len() == 11);
    assert("window-minimize"@ != "play-filled"@);
    reveal_strlit("package");
    assert("package"@.len() == 7);
    assert("window-minimize"@ != "package"@);
    reveal_strlit("plus");
    assert("plus"@.len() == 4);
    assert("window-minimize"@ != "plus"@);
    reveal_strlit("search");
    assert("search"@.len() == 6);
    assert("window-minimize"@ != "search"@);
    reveal_strlit("settings");
    assert("settings"@.len() == 8);
    assert("window-minimize"@ != "settings"@);
    reveal_strlit("star");
    assert("star"@.len() == 4);
    assert("window-minimize"@ != "star"@);
    reveal_strlit("triangle-alert");
    assert("triangle-alert"@.len() == 14);
    assert("window-minimize"@ != "triangle-alert"@);
    reveal_strlit("trash-2");
    assert("trash-2"@.len() == 7);
    assert("window-minimize"@ != "trash-2"@);
    reveal_strlit("window-close");
    assert("window-close"@.len() == 12);
    assert("window-minimize"@ != "window-close"@);
    reveal_strlit("window-maximize");
    assert("window-maximize"@[8] == 'a' && "window-minimize"@[8] == 'i');
    assert("window-minimize"@ != "window-maximize"@);
}

proof fn lemma_named_windowrestore()
    ensures
        icon_named(icon_name(PhaIcon::WindowRestore)) == Some(PhaIcon::WindowRestore),
{
    reveal_strlit("window-restore");
    assert("window-restore"@.len() == 14);
    reveal_strlit("arrow-left");
    assert("arrow-left"@.len() == 10);
    assert("window-restore"@ != "arrow-left"@);
    reveal_strlit("arrow-right");
    assert("arrow-right"@.len() == 11);
    assert("window-restore"@ != "arrow-right"@);
    reveal_strlit("chevron-down");
    assert("chevron-down"@.len() == 12);
    assert("window-restore"@ != "chevron-down"@);
    reveal_strlit("chevron-right");
    assert("chevron-right"@.len() == 13);
    assert("window-restore"@ != "chevron-right"@);
    reveal_strlit("copy");
    assert("copy"@.len() == 4);
    assert("window-restore"@ != "copy"@);
    reveal_strlit("ellipsis-vertical");
    assert("ellipsis-vertical"@.len() == 17);
    assert("window-restore"@ != "ellipsis-vertical"@);
    reveal_strlit("flame");
    assert("flame"@.len() == 5);
    assert("window-restore"@ != "flame"@);
    reveal_strlit("folder");
    assert("folder"@.len() == 6);
    assert("window-restore"@ != "folder"@);
    reveal_strlit("folder-open");
    assert("folder-open"@.len() == 11);
    assert("window-restore"@ != "folder-open"@);
    reveal_strlit("layers");
    assert("layers"@.len() == 6);
    assert("window-restore"@ != "layers"@);
    reveal_strlit("palette");
    assert("palette"@.len() == 7);
    assert("window-restore"@ != "palette"@);
    reveal_strlit("play");
    assert("play"@.len() == 4);
    assert("window-restore"@ != "play"@);
    reveal_strlit("play-filled");
    assert("play-filled"@.len() == 11);
    assert("window-restore"@ != "play-filled"@);
    reveal_strlit("package");
    assert("package"@.len() == 7);
    assert("window-restore"@ != "package"@);
    reveal_strlit("plus");
    assert("plus"@.len() == 4);
    assert("window-restore"@ != "plus"@);
    reveal_strlit("search");
    assert("search"@.len() == 6);
    assert("window-restore"@ != "search"@);
    reveal_strlit("settings");
    assert("settings"@.len() == 8);
    assert("window-restore"@ != "settings"@);
    reveal_strlit("star");
    assert("star"@.len() == 4);
    assert("window-restore"@ != "star"@);
    reveal_strlit("triangle-alert");
    assert("triangle-alert"@[0] == 't' && "window-restore"@[0] == 'w');
    assert("window-restore"@ != "triangle-alert"@);
    reveal_strlit("trash-2");
    assert("trash-2"@.len() == 7);
    assert("window-restore"@ != "trash-2"@);
    reveal_strlit("window-close");
    assert("window-close"@.len() == 12);
    assert("window-restore"@ != "window-close"@);
    reveal_strlit("window-maximize");
    assert("window-maximize"@.len() == 15);
    assert("window-restore"@ != "window-maximize"@);
    reveal_strlit("window-minimize");
    assert("window-minimize"@.len() == 15);
    assert("window-restore"@ != "window-minimize"@);
}

proof fn lemma_named_box()
    ensures
        icon_named(icon_name(PhaIcon::Box)) == Some(PhaIcon::Box),
{
    reveal_strlit("box");
    assert("box"@.len() == 3);
    reveal_strlit("arrow-left");
    assert("arrow-left"@.len() == 10);
    assert("box"@ != "arrow-left"@);
    reveal_strlit("arrow-right");
    assert("arrow-right"@.len() == 11);
    assert("box"@ != "arrow-right"@);
    reveal_strlit("chevron-down");
    assert("chevron-down"@.len() == 12);
    assert("box"@ != "chevron-down"@);
    reveal_strlit("chevron-right");
    assert("chevron-right"@.len() == 13);
    assert("box"@ != "chevron-right"@);
    reveal_strlit("copy");
    assert("copy"@.len() == 4);
    assert("box"@ != "copy"@);
    reveal_strlit("ellipsis-vertical");
    assert("ellipsis-vertical"@.len() == 17);
    assert("box"@ != "ellipsis-vertical"@);
    reveal_strlit("flame");
    assert("flame"@.len() == 5);
    assert("box"@ != "flame"@);
    reveal_strlit("folder");
    assert("folder"@.len() == 6);
    assert("box"@ != "folder"@);
    reveal_strlit("folder-open");
    assert("folder-open"@.len() == 11);
    assert("box"@ != "folder-open"@);
    reveal_strlit("layers");
    assert("layers"@.len() == 6);
    assert("box"@ != "layers"@);
    reveal_strlit("palette");
    assert("palette"@.len() == 7);
    assert("box"@ != "palette"@);
    reveal_strlit("play");
    assert("play"@.len() == 4);
    assert("box"@ != "play"@);
    reveal_strlit("play-filled");
    assert("play-filled"@.len() == 11);
    assert("box"@ != "play-filled"@);
    reveal_strlit("package");
    assert("package"@.len() == 7);
    assert("box"@ != "package"@);
    reveal_strlit("plus");
    assert("plus"@.len() == 4);
    assert("box"@ != "plus"@);
    reveal_strlit("search");
    assert("search"@.len() == 6);
    assert("box"@ != "search"@);
    reveal_strlit("settings");
    assert("settings"@.len() == 8);
    assert("box"@ != "settings"@);
    reveal_strlit("star");
    assert("star"@.len() == 4);
    assert("box"@ != "star"@);
    reveal_strlit("triangle-alert");
    assert("triangle-alert"@.len() == 14);
    assert("box"@ != "triangle-alert"@);
    reveal_strlit("trash-2");
    assert("trash-2"@.len() == 7);
    assert("box"@ != "trash-2"@);
    reveal_strlit("window-close");
    assert("window-close"@.len() == 12);
    assert("box"@ != "window-close"@);
    reveal_strlit("window-maximize");
    assert("window-maximize"@.len() == 15);
    assert("box"@ != "window-maximize"@);
    reveal_strlit("window-minimize");
    assert("window-minimize"@.len() == 15);
    assert("box"@ != "window-minimize"@);
    reveal_strlit("window-restore");
    assert("window-restore"@.len() == 14);
    assert("box"@ != "window-restore"@);
}

proof fn lemma_named_cpu()
    ensures
        icon_named(icon_name(PhaIcon::Cpu)) == Some(PhaIcon::Cpu),
{
    reveal_strlit("cpu");
    assert("cpu"@.len() == 3);
    reveal_strlit("arrow-left");
    assert("arrow-left"@.len() == 10);
    assert("cpu"@ != "arrow-left"@);
    reveal_strlit("arrow-right");
    assert("arrow-right"@.len() == 11);
    assert("cpu"@ != "arrow-right"@);
    reveal_strlit("chevron-down");
    assert("chevron-down"@.len() == 12);
    assert("cpu"@ != "chevron-down"@);
    reveal_strlit("chevron-right");
    assert("chevron-right"@.len() == 13);
    assert("cpu"@ != "chevron-right"@);
    reveal_strlit("copy");
    assert("copy"@.len() == 4);
    assert("cpu"@ != "copy"@);
    reveal_strlit("ellipsis-vertical");
    assert("ellipsis-vertical"@.len() == 17);
    assert("cpu"@ != "ellipsis-vertical"@);
    reveal_strlit("flame");
    assert("flame"@.len() == 5);
    assert("cpu"@ != "flame"@);
    reveal_strlit("folder");
    assert("folder"@.len() == 6);
    assert("cpu"@ != "folder"@);
    reveal_strlit("folder-open");
    assert("folder-open"@.len() == 11);
    assert("cpu"@ != "folder-open"@);
    reveal_strlit("layers");
    assert("layers"@.len() == 6);
    assert("cpu"@ != "layers"@);
    reveal_strlit("palette");
    assert("palette"@.len() == 7);
    assert("cpu"@ != "palette"@);
    reveal_strlit("play");
    assert("play"@.len() == 4);
    assert("cpu"@ != "play"@);
    reveal_strlit("play-filled");
    assert("play-filled"@.len() == 11);
    assert("cpu"@ != "play-filled"@);
    reveal_strlit("package");
    assert("package"@.len() == 7);
    assert("cpu"@ != "package"@);
    reveal_strlit("plus");
    assert("plus"@.len() == 4);
    assert("cpu"@ != "plus"@);
    reveal_strlit("search");
    assert("search"@.len() == 6);
    assert("cpu"@ != "search"@);
    reveal_strlit("settings");
    assert("settings"@.len() == 8);
    assert("cpu"@ != "settings"@);
    reveal_strlit("star");
    assert("star"@.len() == 4);
    assert("cpu"@ != "star"@);
    reveal_strlit("triangle-alert");
    assert("triangle-alert"@.len() == 14);
    assert("cpu"@ != "triangle-alert"@);
    reveal_strlit("trash-2");
    assert("trash-2"@.len() == 7);
    assert("cpu"@ != "trash-2"@);
    reveal_strlit("window-close");
    assert("window-close"@.len() == 12);
    assert("cpu"@ != "window-close"@);
    reveal_strlit("window-maximize");
    assert("window-maximize"@.len() == 15);
    assert("cpu"@ != "window-maximize"@);
    reveal_strlit("window-minimize");
    assert("window-minimize"@.len() == 15);
    assert("cpu"@ != "window-minimize"@);
    reveal_strlit("window-restore");
    assert("window-restore"@.len() == 14);
    assert("cpu"@ != "window-restore"@);
    reveal_strlit("box");
    assert("box"@[0] == 'b' && "cpu"@[0] == 'c');
    assert("cpu"@ != "box"@);
}

proof fn lemma_named_ellipsis()
    ensures
        icon_named(icon_name(PhaIcon::Ellipsis)) == Some(PhaIcon::Ellipsis),
{
    reveal_strlit("ellipsis");
    assert("ellipsis"@.len() == 8);
    reveal_strlit("arrow-left");
    assert("arrow-left"@.len() == 10);
    assert("ellipsis"@ != "arrow-left"@);
    reveal_strlit("arrow-right");
    assert("arrow-right"@.len() == 11);
    assert("ellipsis"@ != "arrow-right"@);
    reveal_strlit("chevron-down");
    assert("chevron-down"@.len() == 12);
    assert("ellipsis"@ != "chevron-down"@);
    reveal_strlit("chevron-right");
    assert("chevron-right"@.len() == 13);
    assert("ellipsis"@ != "chevron-right"@);
    reveal_strlit("copy");
    assert("copy"@.len() == 4);
    assert("ellipsis"@ != "copy"@);
    reveal_strlit("ellipsis-vertical");
    assert("ellipsis-vertical"@.len() == 17);
    assert("ellipsis"@ != "ellipsis-vertical"@);
    reveal_strlit("flame");
    assert("flame"@.len() == 5);
    assert("ellipsis"@ != "flame"@);
    reveal_strlit("folder");
    assert("folder"@.len() == 6);
    assert("ellipsis"@ != "folder"@);
    reveal_strlit("folder-open");
    assert("folder-open"@.len() == 11);
    assert("ellipsis"@ != "folder-open"@);
    reveal_strlit("layers");
    assert("layers"@.len() == 6);
    assert("ellipsis"@ != "layers"@);
    reveal_strlit("palette");
    assert("palette"@.len() == 7);
    assert("ellipsis"@ != "palette"@);
    reveal_strlit("play");
    assert("play"@.len() == 4);
    assert("ellipsis"@ != "play"@);
    reveal_strlit("play-filled");
    assert("play-filled"@.len() == 11);
    assert("ellipsis"@ != "play-filled"@);
    reveal_strlit("package");
    assert("package"@.len() == 7);
    assert("ellipsis"@ != "package"@);
    reveal_strlit("plus");
    assert("plus"@.len() == 4);
    assert("ellipsis"@ != "plus"@);
    reveal_strlit("search");
    assert("search"@.len() == 6);
    assert("ellipsis"@ != "search"@);
    reveal_strlit("settings");
    assert("settings"@[0] == 's' && "ellipsis"@[0] == 'e');
    assert("ellipsis"@ != "settings"@);
    reveal_strlit("star");
    assert("star"@.len() == 4);
    assert("ellipsis"@ != "star"@);
    reveal_strlit("triangle-alert");
    assert("triangle-alert"@.len() == 14);
    assert("ellipsis"@ != "triangle-alert"@);
    reveal_strlit("trash-2");
    assert("trash-2"@.len() == 7);
    assert("ellipsis"@ != "trash-2"@);
    reveal_strlit("window-close");
    assert("window-close"@.len() == 12);
    assert("ellipsis"@ != "window-close"@);
    reveal_strlit("window-maximize");
    assert("window-maximize"@.len() == 15);
    assert("ellipsis"@ != "window-maximize"@);
    reveal_strlit("window-minimize");
    assert("window-minimize"@.len() == 15);
    assert("ellipsis"@ != "window-minimize"@);
    reveal_strlit("window-restore");
    assert("window-restore"@.len() == 14);
    assert("ellipsis"@ != "window-restore"@);
    reveal_strlit("box");
    assert("box"@.len() == 3);
    assert("ellipsis"@ != "box"@);
    reveal_strlit("cpu");
    assert("cpu"@.len() == 3);
    assert("ellipsis"@ != "cpu"@);
}

proof fn lemma_named_filedown()
    ensures
        icon_named(icon_name(PhaIcon::FileDown)) == Some(PhaIcon::FileDown),
{
    reveal_strlit("file-down");
    assert("file-down"@.len() == 9);
    reveal_strlit("arrow-left");
    assert("arrow-left"@.len() == 10);
    assert("file-down"@ != "arrow-left"@);
    reveal_strlit("arrow-right");
    assert("arrow-right"@.len() == 11);
    assert("file-down"@ != "arrow-right"@);
    reveal_strlit("chevron-down");
    assert("chevron-down"@.len() == 12);
    assert("file-down"@ != "chevron-down"@);
    reveal_strlit("chevron-right");
    assert("chevron-right"@.len() == 13);
    assert("file-down"@ != "chevron-right"@);
    reveal_strlit("copy");
    assert("copy"@.len() == 4);
    assert("file-down"@ != "copy"@);
    reveal_strlit("ellipsis-vertical");
    assert("ellipsis-vertical"@.len() == 17);
    assert("file-down"@ != "ellipsis-vertical"@);
    reveal_strlit("flame");
    assert("flame"@.len() == 5);
    assert("file-down"@ != "flame"@);
    reveal_strlit("folder");
    assert("folder"@.len() == 6);
    assert("file-down"@ != "folder"@);
    reveal_strlit("folder-open");
    assert("folder-open"@.len() == 11);
    assert("file-down"@ != "folder-open"@);
    reveal_strlit("layers");
    assert("layers"@.len() == 6);
    assert("file-down"@ != "layers"@);
    reveal_strlit("palette");
    assert("palette"@.len() == 7);
    assert("file-down"@ != "palette"@);
    reveal_strlit("play");
    assert("play"@.len() == 4);
    assert("file-down"@ != "play"@);
    reveal_strlit("play-filled");
    assert("play-filled"@.len() == 11);
    assert("file-down"@ != "play-filled"@);
    reveal_strlit("package");
    assert("package"@.len() == 7);
    assert("file-down"@ != "package"@);
    reveal_strlit("plus");
    assert("plus"@.len() == 4);
    assert("file-down"@ != "plus"@);
    reveal_strlit("search");
    assert("search"@.len() == 6);
    assert("file-down"@ != "search"@);
    reveal_strlit("settings");
    assert("settings"@.len() == 8);
    assert("file-down"@ != "settings"@);
    reveal_strlit("star");
    assert("star"@.len() == 4);
    assert("file-down"@ != "star"@);
    reveal_strlit("triangle-alert");
    assert("triangle-alert"@.len() == 14);
    assert("file-down"@ != "triangle-alert"@);
    reveal_strlit("trash-2");
    assert("trash-2"@.len() == 7);
    assert("file-down"@ != "trash-2"@);
    reveal_strlit("window-close");
    assert("window-close"@.len() == 12);
    assert("file-down"@ != "window-close"@);
    reveal_strlit("window-maximize");
    assert("window-maximize"@.len() == 15);
    assert("file-down"@ != "window-maximize"@);
    reveal_strlit("window-minimize");
    assert("window-minimize"@.len() == 15);
    assert("file-down"@ != "window-minimize"@);
    reveal_strlit("window-restore");
    assert("window-restore"@.len() == 14);
    assert("file-down"@ != "window-restore"@);
    reveal_strlit("box");
    assert("box"@.len() == 3);
    assert("file-down"@ != "box"@);
    reveal_strlit("cpu");
    assert("cpu"@.len() == 3);
    assert("file-down"@ != "cpu"@);
    reveal_strlit("ellipsis");
    assert("ellipsis"@.len() == 8);
    assert("file-down"@ != "ellipsis"@);
}

proof fn lemma_named_filetext()
    ensures
        icon_named(icon_name(PhaIcon::FileText)) == Some(PhaIcon::FileText),
{
    reveal_strlit("file-text");
    assert("file-text"@.len() == 9);
    reveal_strlit("arrow-left");
    assert("arrow-left"@.len() == 10);
    assert("file-text"@ != "arrow-left"@);
    reveal_strlit("arrow-right");
    assert("arrow-right"@.len() == 11);
    assert("file-text"@ != "arrow-right"@);
    reveal_strlit("chevron-down");
    assert("chevron-down"@.len() == 12);
    assert("file-text"@ != "chevron-down"@);
    reveal_strlit("chevron-right");
    assert("chevron-right"@.len() == 13);
    assert("file-text"@ != "chevron-right"@);
    reveal_strlit("copy");
    assert("copy"@.len() == 4);
    assert("file-text"@ != "copy"@);
    reveal_strlit("ellipsis-vertical");
    assert("ellipsis-vertical"@.len() == 17);
    assert("file-text"@ != "ellipsis-vertical"@);
    reveal_strlit("flame");
    assert("flame"@.len() == 5);
    assert("file-text"@ != "flame"@);
    reveal_strlit("folder");
    assert("folder"@.len() == 6);
    assert("file-text"@ != "folder"@);
    reveal_strlit("folder-open");
    assert("folder-open"@.len() == 11);
    assert("file-text"@ != "folder-open"@);
    reveal_strlit("layers");
    assert("layers"@.len() == 6);
    assert("file-text"@ != "layers"@);
    reveal_strlit("palette");
    assert("palette"@.len() == 7);
    assert("file-text"@ != "palette"@);
    reveal_strlit("play");
    assert("play"@.len() == 4);
    assert("file-text"@ != "play"@);
    reveal_strlit("play-filled");
    assert("play-filled"@.len() == 11);
    assert("file-text"@ != "play-filled"@);
    reveal_strlit("package");
    assert("package"@.len() == 7);
    assert("file-text"@ != "package"@);
    reveal_strlit("plus");
    assert("plus"@.len() == 4);
    assert("file-text"@ != "plus"@);
    reveal_strlit("search");
    assert("search"@.len() == 6);
    assert("file-text"@ != "search"@);
    reveal_strlit("settings");
    assert("settings"@.len() == 8);
    assert("file-text"@ != "settings"@);
    reveal_strlit("star");
    assert("star"@.len() == 4);
    assert("file-text"@ != "star"@);
    reveal_strlit("triangle-alert");
    assert("triangle-alert"@.len() == 14);
    assert("file-text"@ != "triangle-alert"@);
    reveal_strlit("trash-2");
    assert("trash-2"@.len() == 7);
    assert("file-text"@ != "trash-2"@);
    reveal_strlit("window-close");
    assert("window-close"@.len() == 12);
    assert("file-text"@ != "window-close"@);
    reveal_strlit("window-maximize");
    assert("window-maximize"@.len() == 15);
    assert("file-text"@ != "window-maximize"@);
    reveal_strlit("window-minimize");
    assert("window-minimize"@.len() == 15);
    assert("file-text"@ != "window-minimize"@);
    reveal_strlit("window-restore");
    assert("window-restore"@.len() == 14);
    assert("file-text"@ != "window-restore"@);
    reveal_strlit("box");
    assert("box"@.len() == 3);
    assert("file-text"@ != "box"@);
    reveal_strlit("cpu");
    assert("cpu"@.len() == 3);
    assert("file-text"@ != "cpu"@);
    reveal_strlit("ellipsis");
    assert("ellipsis"@.len() == 8);
    assert("file-text"@ != "ellipsis"@);
    reveal_strlit("file-down");
    assert("file-down"@[5] == 'd' && "file-text"@[5] == 't');
    assert("file-text"@ != "file-down"@);
}

proof fn lemma_named_globe()
    ensures
        icon_named(icon_name(PhaIcon::Globe)) == Some(PhaIcon::Globe),
{
    reveal_strlit("globe");
    assert("globe"@.len() == 5);
    reveal_strlit("arrow-left");
    assert("arrow-left"@.len() == 10);
    assert("globe"@ != "arrow-left"@);
    reveal_strlit("arrow-right");
    assert("arrow-right"@.len() == 11);
    assert("globe"@ != "arrow-right"@);
    reveal_strlit("chevron-down");
    assert("chevron-down"@.len() == 12);
    assert("globe"@ != "chevron-down"@);
    reveal_strlit("chevron-right");
    assert("chevron-right"@.len() == 13);
    assert("globe"@ != "chevron-right"@);
    reveal_strlit("copy");
    assert("copy"@.len() == 4);
    assert("globe"@ != "copy"@);
    reveal_strlit("ellipsis-vertical");
    assert("ellipsis-vertical"@.len() == 17);
    assert("globe"@ != "ellipsis-vertical"@);
    reveal_strlit("flame");
    assert("flame"@[0] == 'f' && "globe"@[0] == 'g');
    assert("globe"@ != "flame"@);
    reveal_strlit("folder");
    assert("folder"@.len() == 6);
    assert("globe"@ != "folder"@);
    reveal_strlit("folder-open");
    assert("folder-open"@.len() == 11);
    assert("globe"@ != "folder-open"@);
    reveal_strlit("layers");
    assert("layers"@.len() == 6);
    assert("globe"@ != "layers"@);
    reveal_strlit("palette");
    assert("palette"@.len() == 7);
    assert("globe"@ != "palette"@);
    reveal_strlit("play");
    assert("play"@.len() == 4);
    assert("globe"@ != "play"@);
    reveal_strlit("play-filled");
    assert("play-filled"@.len() == 11);
    assert("globe"@ != "play-filled"@);
    reveal_strlit("package");
    assert("package"@.len() == 7);
    assert("globe"@ != "package"@);
    reveal_strlit("plus");
    assert("plus"@.len() == 4);
    assert("globe"@ != "plus"@);
    reveal_strlit("search");
    assert("search"@.len() == 6);
    assert("globe"@ != "search"@);
    reveal_strlit("settings");
    assert("settings"@.len() == 8);
    assert("globe"@ != "settings"@);
    reveal_strlit("star");
    assert("star"@.len() == 4);
    assert("globe"@ != "star"@);
    reveal_strlit("triangle-alert");
    assert("triangle-alert"@.len() == 14);
    assert("globe"@ != "triangle-alert"@);
    reveal_strlit("trash-2");
    assert("trash-2"@.len() == 7);
    assert("globe"@ != "trash-2"@);
    reveal_strlit("window-close");
    assert("window-close"@.len() == 12);
    assert("globe"@ != "window-close"@);
    reveal_strlit("window-maximize");
    assert("window-maximize"@.len() == 15);
    assert("globe"@ != "window-maximize"@);
    reveal_strlit("window-minimize");
    assert("window-minimize"@.len() == 15);
    assert("globe"@ != "window-minimize"@);
    reveal_strlit("window-restore");
    assert("window-restore"@.len() == 14);
    assert("globe"@ != "window-restore"@);
    reveal_strlit("box");
    assert("box"@.len() == 3);
    assert("globe"@ != "box"@);
    reveal_strlit("cpu");
    assert("cpu"@.len() == 3);
    assert("globe"@ != "cpu"@);
    reveal_strlit("ellipsis");
    assert("ellipsis"@.len() == 8);
    assert("globe"@ != "ellipsis"@);
    reveal_strlit("file-down");
    assert("file-down"@.len() == 9);
    assert("globe"@ != "file-down"@);
    reveal_strlit("file-text");
    assert("file-text"@.len() == 9);
    assert("globe"@ != "file-text"@);
}

proof fn lemma_named_info()
    ensures
        icon_named(icon_name(PhaIcon::Info)) == Some(PhaIcon::Info),
{
    reveal_strlit("info");
    assert("info"@.len() == 4);
    reveal_strlit("arrow-left");
    assert("arrow-left"@.len() == 10);
    assert("info"@ != "arrow-left"@);
    reveal_strlit("arrow-right");
    assert("arrow-right"@.len() == 11);
    assert("info"@ != "arrow-right"@);
    reveal_strlit("chevron-down");
    assert("chevron-down"@.len() == 12);
    assert("info"@ != "chevron-down"@);
    reveal_strlit("chevron-right");
    assert("chevron-right"@.len() == 13);
    assert("info"@ != "chevron-right"@);
    reveal_strlit("copy");
    assert("copy"@[0] == 'c' && "info"@[0] == 'i');
    assert("info"@ != "copy"@);
    reveal_strlit("ellipsis-vertical");
    assert("ellipsis-vertical"@.len() == 17);
    assert("info"@ != "ellipsis-vertical"@);
    reveal_strlit("flame");
    assert("flame"@.len() == 5);
    assert("info"@ != "flame"@);
    reveal_strlit("folder");
    assert("folder"@.len() == 6);
    assert("info"@ != "folder"@);
    reveal_strlit("folder-open");
    assert("folder-open"@.len() == 11);
    assert("info"@ != "folder-open"@);
    reveal_strlit("layers");
    assert("layers"@.len() == 6);
    assert("info"@ != "layers"@);
    reveal_strlit("palette");
    assert("palette"@.len() == 7);
    assert("info"@ != "palette"@);
    reveal_strlit("play");
    assert("play"@[0] == 'p' && "info"@[0] == 'i');
    assert("info"@ != "play"@);
    reveal_strlit("play-filled");
    assert("play-filled"@.len() == 11);
    assert("info"@ != "play-filled"@);
    reveal_strlit("package");
    assert("package"@.len() == 7);
    assert("info"@ != "package"@);
    reveal_strlit("plus");
    assert("plus"@[0] == 'p' && "info"@[0] == 'i');
    assert("info"@ != "plus"@);
    reveal_strlit("search");
    assert("search"@.len() == 6);
    assert("info"@ != "search"@);
    reveal_strlit("settings");
    assert("settings"@.len() == 8);
    assert("info"@ != "settings"@);
    reveal_strlit("star");
    assert("star"@[0] == 's' && "info"@[0] == 'i');
    assert("info"@ != "star"@);
    reveal_strlit("triangle-alert");
    assert("triangle-alert"@.len() == 14);
    assert("info"@ != "triangle-alert"@);
    reveal_strlit("trash-2");
    assert("trash-2"@.len() == 7);
    assert("info"@ != "trash-2"@);
    reveal_strlit("window-close");
    assert("window-close"@.len() == 12);
    assert("info"@ != "window-close"@);
    reveal_strlit("window-maximize");
    assert("window-maximize"@.len() == 15);
    assert("info"@ != "window-maximize"@);
    reveal_strlit("window-minimize");
    assert("window-minimize"@.len() == 15);
    assert("info"@ != "window-minimize"@);
    reveal_strlit("window-restore");
    assert("window-restore"@.len() == 14);
    assert("info"@ != "window-restore"@);
    reveal_strlit("box");
    assert("box"@.len() == 3);
    assert("info"@ != "box"@);
    reveal_strlit("cpu");
    assert("cpu"@.len() == 3);
    assert("info"@ != "cpu"@);
    reveal_strlit("ellipsis");
    assert("ellipsis"@.len() == 8);
    assert("info"@ != "ellipsis"@);
    reveal_strlit("file-down");
    assert("file-down"@.len() == 9);
    assert("info"@ != "file-down"@);
    reveal_strlit("file-text");
    assert("file-text"@.len() == 9);
    assert("info"@ != "file-text"@);
    reveal_strlit("globe");
    assert("globe"@.len() == 5);
    assert("info"@ != "globe"@);
}

proof fn lemma_named_keyround()
    ensures
        icon_named(icon_name(PhaIcon::KeyRound)) == Some(PhaIcon::KeyRound),
{
    reveal_strlit("key-round");
    assert("key-round"@.len() == 9);
    reveal_strlit("arrow-left");
    assert("arrow-left"@.len() == 10);
    assert("key-round"@ != "arrow-left"@);
    reveal_strlit("arrow-right");
    assert("arrow-right"@.len() == 11);
    assert("key-round"@ != "arrow-right"@);
    reveal_strlit("chevron-down");
    assert("chevron-down"@.len() == 12);
    assert("key-round"@ != "chevron-down"@);
    reveal_strlit("chevron-right");
    assert("chevron-right"@.len() == 13);
    assert("key-round"@ != "chevron-right"@);
    reveal_strlit("copy");
    assert("copy"@.len() == 4);
    assert("key-round"@ != "copy"@);
    reveal_strlit("ellipsis-vertical");
    assert("ellipsis-vertical"@.len() == 17);
    assert("key-round"@ != "ellipsis-vertical"@);
    reveal_strlit("flame");
    assert("flame"@.len() == 5);
    assert("key-round"@ != "flame"@);
    reveal_strlit("folder");
    assert("folder"@.len() == 6);
    assert("key-round"@ != "folder"@);
    reveal_strlit("folder-open");
    assert("folder-open"@.len() == 11);
    assert("key-round"@ != "folder-open"@);
    reveal_strlit("layers");
    assert("layers"@.len() == 6);
    assert("key-round"@ != "layers"@);
    reveal_strlit("palette");
    assert("palette"@.len() == 7);
    assert("key-round"@ != "palette"@);
    reveal_strlit("play");
    assert("play"@.len() == 4);
    assert("key-round"@ != "play"@);
    reveal_strlit("play-filled");
    assert("play-filled"@.len() == 11);
    assert("key-round"@ != "play-filled"@);
    reveal_strlit("package");
    assert("package"@.len() == 7);
    assert("key-round"@ != "package"@);
    reveal_strlit("plus");
    assert("plus"@.len() == 4);
    assert("key-round"@ != "plus"@);
    reveal_strlit("search");
    assert("search"@.len() == 6);
    assert("key-round"@ != "search"@);
    reveal_strlit("settings");
    assert("settings"@.len() == 8);
    assert("key-round"@ != "settings"@);
    reveal_strlit("star");
    assert("star"@.len() == 4);
    assert("key-round"@ != "star"@);
    reveal_strlit("triangle-alert");
    assert("triangle-alert"@.len() == 14);
    assert("key-round"@ != "triangle-alert"@);
    reveal_strlit("trash-2");
    assert("trash-2"@.len() == 7);
    assert("key-round"@ != "trash-2"@);
    reveal_strlit("window-close");
    assert("window-close"@.len() == 12);
    assert("key-round"@ != "window-close"@);
    reveal_strlit("window-maximize");
    assert("window-maximize"@.len() == 15);
    assert("key-round"@ != "window-maximize"@);
    reveal_strlit("window-minimize");
    assert("window-minimize"@.len() == 15);
    assert("key-round"@ != "window-minimize"@);
    reveal_strlit("window-restore");
    assert("window-restore"@.len() == 14);
    assert("key-round"@ != "window-restore"@);
    reveal_strlit("box");
    assert("box"@.len() == 3);
    assert("key-round"@ != "box"@);
    reveal_strlit("cpu");
    assert("cpu"@.len() == 3);
    assert("key-round"@ != "cpu"@);
    reveal_strlit("ellipsis");
    assert("ellipsis"@.len() == 8);
    assert("key-round"@ != "ellipsis"@);
    reveal_strlit("file-down");
    assert("file-down"@[0] == 'f' && "key-round"@[0] == 'k');
    assert("key-round"@ != "file-down"@);
    reveal_strlit("file-text");
    assert("file-text"@[0] == 'f' && "key-round"@[0] == 'k');
    assert("key-round"@ != "file-text"@);
    reveal_strlit("globe");
    assert("globe"@.len() == 5);
    assert("key-round"@ != "globe"@);
    reveal_strlit("info");
    assert("info"@.len() == 4);
    assert("key-round"@ != "info"@);
}

proof fn lemma_named_monitor()
    ensures
        icon_named(icon_name(PhaIcon::Monitor)) == Some(PhaIcon::Monitor),
{
    reveal_strlit("monitor");
    assert("monitor"@.len() == 7);
    reveal_strlit("arrow-left");
    assert("arrow-left"@.len() == 10);
    assert("monitor"@ != "arrow-left"@);
    reveal_strlit("arrow-right");
    assert("arrow-right"@.len() == 11);
    assert("monitor"@ != "arrow-right"@);
    reveal_strlit("chevron-down");
    assert("chevron-down"@.len() == 12);
    assert("monitor"@ != "chevron-down"@);
    reveal_strlit("chevron-right");
    assert("chevron-right"@.len() == 13);
    assert("monitor"@ != "chevron-right"@);
    reveal_strlit("copy");
    assert("copy"@.len() == 4);
    assert("monitor"@ != "copy"@);
    reveal_strlit("ellipsis-vertical");
    assert("ellipsis-vertical"@.len() == 17);
    assert("monitor"@ != "ellipsis-vertical"@);
    reveal_strlit("flame");
    assert("flame"@.len() == 5);
    assert("monitor"@ != "flame"@);
    reveal_strlit("folder");
    assert("folder"@.len() == 6);
    assert("monitor"@ != "folder"@);
    reveal_strlit("folder-open");
    assert("folder-open"@.len() == 11);
    assert("monitor"@ != "folder-open"@);
    reveal_strlit("layers");
    assert("layers"@.len() == 6);
    assert("monitor"@ != "layers"@);
    reveal_strlit("palette");
    assert("palette"@[0] == 'p' && "monitor"@[0] == 'm');
    assert("monitor"@ != "palette"@);
    reveal_strlit("play");
    assert("play"@.len() == 4);
    assert("monitor"@ != "play"@);
    reveal_strlit("play-filled");
    assert("play-filled"@.len() == 11);
    assert("monitor"@ != "play-filled"@);
    reveal_strlit("package");
    assert("package"@[0] == 'p' && "monitor"@[0] == 'm');
    assert("monitor"@ != "package"@);
    reveal_strlit("plus");
    assert("plus"@.len() == 4);
    assert("monitor"@ != "plus"@);
    reveal_strlit("search");
    assert("search"@.len() == 6);
    assert("monitor"@ != "search"@);
    reveal_strlit("settings");
    assert("settings"@.len() == 8);
    assert("monitor"@ != "settings"@);
    reveal_strlit("star");
    assert("star"@.len() == 4);
    assert("monitor"@ != "star"@);
    reveal_strlit("triangle-alert");
    assert("triangle-alert"@.len() == 14);
    assert("monitor"@ != "triangle-alert"@);
    reveal_strlit("trash-2");
    assert("trash-2"@[0] == 't' && "monitor"@[0] == 'm');
    assert("monitor"@ != "trash-2"@);
    reveal_strlit("window-close");
    assert("window-close"@.len() == 12);
    assert("monitor"@ != "window-close"@);
    reveal_strlit("window-maximize");
    assert("window-maximize"@.len() == 15);
    assert("monitor"@ != "window-maximize"@);
    reveal_strlit("window-minimize");
    assert("window-minimize"@.len() == 15);
    assert("monitor"@ != "window-minimize"@);
    reveal_strlit("window-restore");
    assert("window-restore"@.len() == 14);
    assert("monitor"@ != "window-restore"@);
    reveal_strlit("box");
    assert("box"@.len() == 3);
    assert("monitor"@ != "box"@);
    reveal_strlit("cpu");
    assert("cpu"@.len() == 3);
    assert("monitor"@ != "cpu"@);
    reveal_strlit("ellipsis");
    assert("ellipsis"@.len() == 8);
    assert("monitor"@ != "ellipsis"@);
    reveal_strlit("file-down");
    assert("file-down"@.len() == 9);
    assert("monitor"@ != "file-down"@);
    reveal_strlit("file-text");
    assert("file-text"@.len() == 9);
    assert("monitor"@ != "file-text"@);
    reveal_strlit("globe");
    assert("globe"@.len() == 5);
    assert("monitor"@ != "globe"@);
    reveal_strlit("info");
    assert("info"@.len() == 4);
    assert("monitor"@ != "info"@);
    reveal_strlit("key-round");
    assert("key-round"@.len() == 9);
    assert("monitor"@ != "key-round"@);
}

proof fn lemma_named_puzzle()
    ensures
        icon_named(icon_name(PhaIcon::Puzzle)) == Some(PhaIcon::Puzzle),
{
    reveal_strlit("puzzle");
    assert("puzzle"@.len() == 6);
    reveal_strlit("arrow-left");
    assert("arrow-left"@.len() == 10);
    assert("puzzle"@ != "arrow-left"@);
    reveal_strlit("arrow-right");
    assert("arrow-right"@.len() == 11);
    assert("puzzle"@ != "arrow-right"@);
    reveal_strlit("chevron-down");
    assert("chevron-down"@.len() == 12);
    assert("puzzle"@ != "chevron-down"@);
    reveal_strlit("chevron-right");
    assert("chevron-right"@.len() == 13);
    assert("puzzle"@ != "chevron-right"@);
    reveal_strlit("copy");
    assert("copy"@.len() == 4);
    assert("puzzle"@ != "copy"@);
    reveal_strlit("ellipsis-vertical");
    assert("ellipsis-vertical"@.len() == 17);
    assert("puzzle"@ != "ellipsis-vertical"@);
    reveal_strlit("flame");
    assert("flame"@.len() == 5);
    assert("puzzle"@ != "flame"@);
    reveal_strlit("folder");
    assert("folder"@[0] == 'f' && "puzzle"@[0] == 'p');
    assert("puzzle"@ != "folder"@);
    reveal_strlit("folder-open");
    assert("folder-open"@.len() == 11);
    assert("puzzle"@ != "folder-open"@);
    reveal_strlit("layers");
    assert("layers"@[0] == 'l' && "puzzle"@[0] == 'p');
    assert("puzzle"@ != "layers"@);
    reveal_strlit("palette");
    assert("palette"@.len() == 7);
    assert("puzzle"@ != "palette"@);
    reveal_strlit("play");
    assert("play"@.len() == 4);
    assert("puzzle"@ != "play"@);
    reveal_strlit("play-filled");
    assert("play-filled"@.len() == 11);
    assert("puzzle"@ != "play-filled"@);
    reveal_strlit("package");
    assert("package"@.len() == 7);
    assert("puzzle"@ != "package"@);
    reveal_strlit("plus");
    assert("plus"@.len() == 4);
    assert("puzzle"@ != "plus"@);
    reveal_strlit("search");
    assert("search"@[0] == 's' && "puzzle"@[0] == 'p');
    assert("puzzle"@ != "search"@);
    reveal_strlit("settings");
    assert("settings"@.len() == 8);
    assert("puzzle"@ != "settings"@);
    reveal_strlit("star");
    assert("star"@.len() == 4);
    assert("puzzle"@ != "star"@);
    reveal_strlit("triangle-alert");
    assert("triangle-alert"@.len() == 14);
    assert("puzzle"@ != "triangle-alert"@);
    reveal_strlit("trash-2");
    assert("trash-2"@.len() == 7);
    assert("puzzle"@ != "trash-2"@);
    reveal_strlit("window-close");
    assert("window-close"@.len() == 12);
    assert("puzzle"@ != "window-close"@);
    reveal_strlit("window-maximize");
    assert("window-maximize"@.len() == 15);
    assert("puzzle"@ != "window-maximize"@);
    reveal_strlit("window-minimize");
    assert("window-minimize"@.len() == 15);
    assert("puzzle"@ != "window-minimize"@);
    reveal_strlit("window-restore");
    assert("window-restore"@.len() == 14);
    assert("puzzle"@ != "window-restore"@);
    reveal_strlit("box");
    assert("box"@.len() == 3);
    assert("puzzle"@ != "box"@);
    reveal_strlit("cpu");
    assert("cpu"@.len() == 3);
    assert("puzzle"@ != "cpu"@);
    reveal_strlit("ellipsis");
    assert("ellipsis"@.len() == 8);
    assert("puzzle"@ != "ellipsis"@);
    reveal_strlit("file-down");
    assert("file-down"@.len() == 9);
    assert("puzzle"@ != "file-down"@);
    reveal_strlit("file-text");
    assert("file-text"@.len() == 9);
    assert("puzzle"@ != "file-text"@);
    reveal_strlit("globe");
    assert("globe"@.len() == 5);
    assert("puzzle"@ != "globe"@);
    reveal_strlit("info");
    assert("info"@.len() == 4);
    assert("puzzle"@ != "info"@);
    reveal_strlit("key-round");
    assert("key-round"@.len() == 9);
    assert("puzzle"@ != "key-round"@);
    reveal_strlit("monitor");
    assert("monitor"@.len() == 7);
    assert("puzzle"@ != "monitor"@);
}

proof fn lemma_named_refreshcw()
    ensures
        icon_named(icon_name(PhaIcon::RefreshCw)) == Some(PhaIcon::RefreshCw),
{
    reveal_strlit("refresh-cw");
    assert("refresh-cw"@.len() == 10);
    reveal_strlit("arrow-left");
    assert("arrow-left"@[0] == 'a' && "refresh-cw"@[0] == 'r');
    assert("refresh-cw"@ != "arrow-left"@);
    reveal_strlit("arrow-right");
    assert("arrow-right"@.len() == 11);
    assert("refresh-cw"@ != "arrow-right"@);
    reveal_strlit("chevron-down");
    assert("chevron-down"@.len() == 12);
    assert("refresh-cw"@ != "chevron-down"@);
    reveal_strlit("chevron-right");
    assert("chevron-right"@.len() == 13);
    assert("refresh-cw"@ != "chevron-right"@);
    reveal_strlit("copy");
    assert("copy"@.len() == 4);
    assert("refresh-cw"@ != "copy"@);
    reveal_strlit("ellipsis-vertical");
    assert("ellipsis-vertical"@.len() == 17);
    assert("refresh-cw"@ != "ellipsis-vertical"@);
    reveal_strlit("flame");
    assert("flame"@.len() == 5);
    assert("refresh-cw"@ != "flame"@);
    reveal_strlit("folder");
    assert("folder"@.len() == 6);
    assert("refresh-cw"@ != "folder"@);
    reveal_strlit("folder-open");
    assert("folder-open"@.len() == 11);
    assert("refresh-cw"@ != "folder-open"@);
    reveal_strlit("layers");
    assert("layers"@.len() == 6);
    assert("refresh-cw"@ != "layers"@);
    reveal_strlit("palette");
    assert("palette"@.len() == 7);
    assert("refresh-cw"@ != "palette"@);
    reveal_strlit("play");
    assert("play"@.len() == 4);
    assert("refresh-cw"@ != "play"@);
    reveal_strlit("play-filled");
    assert("play-filled"@.len() == 11);
    assert("refresh-cw"@ != "play-filled"@);
    reveal_strlit("package");
    assert("package"@.len() == 7);
    assert("refresh-cw"@ != "package"@);
    reveal_strlit("plus");
    assert("plus"@.len() == 4);
    assert("refresh-cw"@ != "plus"@);
    reveal_strlit("search");
    assert("search"@.len() == 6);
    assert("refresh-cw"@ != "search"@);
    reveal_strlit("settings");
    assert("settings"@.len() == 8);
    assert("refresh-cw"@ != "settings"@);
    reveal_strlit("star");
    assert("star"@.len() == 4);
    assert("refresh-cw"@ != "star"@);
    reveal_strlit("triangle-alert");
    assert("triangle-alert"@.len() == 14);
    assert("refresh-cw"@ != "triangle-alert"@);
    reveal_strlit("trash-2");
    assert("trash-2"@.len() == 7);
    assert("refresh-cw"@ != "trash-2"@);
    reveal_strlit("window-close");
    assert("window-close"@.len() == 12);
    assert("refresh-cw"@ != "window-close"@);
    reveal_strlit("window-maximize");
    assert("window-maximize"@.len() == 15);
    assert("refresh-cw"@ != "window-maximize"@);
    reveal_strlit("window-minimize");
    assert("window-minimize"@.len() == 15);
    assert("refresh-cw"@ != "window-minimize"@);
    reveal_strlit("window-restore");
    assert("window-restore"@.len() == 14);
    assert("refresh-cw"@ != "window-restore"@);
    reveal_strlit("box");
    assert("box"@.len() == 3);
    assert("refresh-cw"@ != "box"@);
    reveal_strlit("cpu");
    assert("cpu"@.len() == 3);
    assert("refresh-cw"@ != "cpu"@);
    reveal_strlit("ellipsis");
    assert("ellipsis"@.len() == 8);
    assert("refresh-cw"@ != "ellipsis"@);
    reveal_strlit("file-down");
    assert("file-down"@.len() == 9);
    assert("refresh-cw"@ != "file-down"@);
    reveal_strlit("file-text");
    assert("file-text"@.len() == 9);
    assert("refresh-cw"@ != "file-text"@);
    reveal_strlit("globe");
    assert("globe"@.len() == 5);
    assert("refresh-cw"@ != "globe"@);
    reveal_strlit("info");
    assert("info"@.len() == 4);
    assert("refresh-cw"@ != "info"@);
    reveal_strlit("key-round");
    assert("key-round"@.len() == 9);
    assert("refresh-cw"@ != "key-round"@);
    reveal_strlit("monitor");
    assert("monitor"@.len() == 7);
    assert("refresh-cw"@ != "monitor"@);
    reveal_strlit("puzzle");
    assert("puzzle"@.len() == 6);
    assert("refresh-cw"@ != "puzzle"@);
}

proof fn lemma_named_scrolltext()
    ensures
        icon_named(icon_name(PhaIcon::ScrollText)) == Some(PhaIcon::ScrollText),
{
    reveal_strlit("scroll-text");
    assert("scroll-text"@.len() == 11);
    reveal_strlit("arrow-left");
    assert("arrow-left"@.len() == 10);
    assert("scroll-text"@ != "arrow-left"@);
    reveal_strlit("arrow-right");
    assert("arrow-right"@[0] == 'a' && "scroll-text"@[0] == 's');
    assert("scroll-text"@ != "arrow-right"@);
    reveal_strlit("chevron-down");
    assert("chevron-down"@.len() == 12);
    assert("scroll-text"@ != "chevron-down"@);
    reveal_strlit("chevron-right");
    assert("chevron-right"@.len() == 13);
    assert("scroll-text"@ != "chevron-right"@);
    reveal_strlit("copy");
    assert("copy"@.len() == 4);
    assert("scroll-text"@ != "copy"@);
    reveal_strlit("ellipsis-vertical");
    assert("ellipsis-vertical"@.len() == 17);
    assert("scroll-text"@ != "ellipsis-vertical"@);
    reveal_strlit("flame");
    assert("flame"@.len() == 5);
    assert("scroll-text"@ != "flame"@);
    reveal_strlit("folder");
    assert("folder"@.len() == 6);
    assert("scroll-text"@ != "folder"@);
    reveal_strlit("folder-open");
    assert("folder-open"@[0] == 'f' && "scroll-text"@[0] == 's');
    assert("scroll-text"@ != "folder-open"@);
    reveal_strlit("layers");
    assert("layers"@.len() == 6);
    assert("scroll-text"@ != "layers"@);
    reveal_strlit("palette");
    assert("palette"@.len() == 7);
    assert("scroll-text"@ != "palette"@);
    reveal_strlit("play");
    assert("play"@.len() == 4);
    assert("scroll-text"@ != "play"@);
    reveal_strlit("play-filled");
    assert("play-filled"@[0] == 'p' && "scroll-text"@[0] == 's');
    assert("scroll-text"@ != "play-filled"@);
    reveal_strlit("package");
    assert("package"@.len() == 7);
    assert("scroll-text"@ != "package"@);
    reveal_strlit("plus");
    assert("plus"@.len() == 4);
    assert("scroll-text"@ != "plus"@);
    reveal_strlit("search");
    assert("search"@.len() == 6);
    assert("scroll-text"@ != "search"@);
    reveal_strlit("settings");
    assert("settings"@.len() == 8);
    assert("scroll-text"@ != "settings"@);
    reveal_strlit("star");
    assert("star"@.len() == 4);
    assert("scroll-text"@ != "star"@);
    reveal_strlit("triangle-alert");
    assert("triangle-alert"@.len() == 14);
    assert("scroll-text"@ != "triangle-alert"@);
    reveal_strlit("trash-2");
    assert("trash-2"@.len() == 7);
    assert("scroll-text"@ != "trash-2"@);
    reveal_strlit("window-close");
    assert("window-close"@.len() == 12);
    assert("scroll-text"@ != "window-close"@);
    reveal_strlit("window-maximize");
    assert("window-maximize"@.len() == 15);
    assert("scroll-text"@ != "window-maximize"@);
    reveal_strlit("window-minimize");
    assert("window-minimize"@.len() == 15);
    assert("scroll-text"@ != "window-minimize"@);
    reveal_strlit("window-restore");
    assert("window-restore"@.len() == 14);
    assert("scroll-text"@ != "window-restore"@);
    reveal_strlit("box");
    assert("box"@.len() == 3);
    assert("scroll-text"@ != "box"@);
    reveal_strlit("cpu");
    assert("cpu"@.len() == 3);
    assert("scroll-text"@ != "cpu"@);
    reveal_strlit("ellipsis");
    assert("ellipsis"@.len() == 8);
    assert("scroll-text"@ != "ellipsis"@);
    reveal_strlit("file-down");
    assert("file-down"@.len() == 9);
    assert("scroll-text"@ != "file-down"@);
    reveal_strlit("file-text");
    assert("file-text"@.len() == 9);
    assert("scroll-text"@ != "file-text"@);
    reveal_strlit("globe");
    assert("globe"@.len() == 5);
    assert("scroll-text"@ != "globe"@);
    reveal_strlit("info");
    assert("info"@.len() == 4);
    assert("scroll-text"@ != "info"@);
    reveal_strlit("key-round");
    assert("key-round"@.len() == 9);
    assert("scroll-text"@ != "key-round"@);
    reveal_strlit("monitor");
    assert("monitor"@.len() == 7);
    assert("scroll-text"@ != "monitor"@);
    reveal_strlit("puzzle");
    assert("puzzle"@.len() == 6);
    assert("scroll-text"@ != "puzzle"@);
    reveal_strlit("refresh-cw");
    assert("refresh-cw"@.len() == 10);
    assert("scroll-text"@ != "refresh-cw"@);
}

proof fn lemma_named_send()
    ensures
        icon_named(icon_name(PhaIcon::Send)) == Some(PhaIcon::Send),
{
    reveal_strlit("send");
    assert("send"@.len() == 4);
    reveal_strlit("arrow-left");
    assert("arrow-left"@.len() == 10);
    assert("send"@ != "arrow-left"@);
    reveal_strlit("arrow-right");
    assert("arrow-right"@.len() == 11);
    assert("send"@ != "arrow-right"@);
    reveal_strlit("chevron-down");
    assert("chevron-down"@.len() == 12);
    assert("send"@ != "chevron-down"@);
    reveal_strlit("chevron-right");
    assert("chevron-right"@.len() == 13);
    assert("send"@ != "chevron-right"@);
    reveal_strlit("copy");
    assert("copy"@[0] == 'c' && "send"@[0] == 's');
    assert("send"@ != "copy"@);
    reveal_strlit("ellipsis-vertical");
    assert("ellipsis-vertical"@.len() == 17);
    assert("send"@ != "ellipsis-vertical"@);
    reveal_strlit("flame");
    assert("flame"@.len() == 5);
    assert("send"@ != "flame"@);
    reveal_strlit("folder");
    assert("folder"@.len() == 6);
    assert("send"@ != "folder"@);
    reveal_strlit("folder-open");
    assert("folder-open"@.len() == 11);
    assert("send"@ != "folder-open"@);
    reveal_strlit("layers");
    assert("layers"@.len() == 6);
    assert("send"@ != "layers"@);
    reveal_strlit("palette");
    assert("palette"@.len() == 7);
    assert("send"@ != "palette"@);
    reveal_strlit("play");
    assert("play"@[0] == 'p' && "send"@[0] == 's');
    assert("send"@ != "play"@);
    reveal_strlit("play-filled");
    assert("play-filled"@.len() == 11);
    assert("send"@ != "play-filled"@);
    reveal_strlit("package");
    assert("package"@.len() == 7);
    assert("send"@ != "package"@);
    reveal_strlit("plus");
    assert("plus"@[0] == 'p' && "send"@[0] == 's');
    assert("send"@ != "plus"@);
    reveal_strlit("search");
    assert("search"@.len() == 6);
    assert("send"@ != "search"@);
    reveal_strlit("settings");
    assert("settings"@.len() == 8);
    assert("send"@ != "settings"@);
    reveal_strlit("star");
    assert("star"@[1] == 't' && "send"@[1] == 'e');
    assert("send"@ != "star"@);
    reveal_strlit("triangle-alert");
    assert("triangle-alert"@.len() == 14);
    assert("send"@ != "triangle-alert"@);
    reveal_strlit("trash-2");
    assert("trash-2"@.len() == 7);
    assert("send"@ != "trash-2"@);
    reveal_strlit("window-close");
    assert("window-close"@.len() == 12);
    assert("send"@ != "window-close"@);
    reveal_strlit("window-maximize");
    assert("window-maximize"@.len() == 15);
    assert("send"@ != "window-maximize"@);
    reveal_strlit("window-minimize");
    assert("window-minimize"@.len() == 15);
    assert("send"@ != "window-minimize"@);
    reveal_strlit("window-restore");
    assert("window-restore"@.len() == 14);
    assert("send"@ != "window-restore"@);
    reveal_strlit("box");
    assert("box"@.len() == 3);
    assert("send"@ != "box"@);
    reveal_strlit("cpu");
    assert("cpu"@.len() == 3);
    assert("send"@ != "cpu"@);
    reveal_strlit("ellipsis");
    assert("ellipsis"@.len() == 8);
    assert("send"@ != "ellipsis"@);
    reveal_strlit("file-down");
    assert("file-down"@.len() == 9);
    assert("send"@ != "file-down"@);
    reveal_strlit("file-text");
    assert("file-text"@.len() == 9);
    assert("send"@ != "file-text"@);
    reveal_strlit("globe");
    assert("globe"@.len() == 5);
    assert("send"@ != "globe"@);
    reveal_strlit("info");
    assert("info"@[0] == 'i' && "send"@[0] == 's');
    assert("send"@ != "info"@);
    reveal_strlit("key-round");
    assert("key-round"@.len() == 9);
    assert("send"@ != "key-round"@);
    reveal_strlit("monitor");
    assert("monitor"@.len() == 7);
    assert("send"@ != "monitor"@);
    reveal_strlit("puzzle");
    assert("puzzle"@.len() == 6);
    assert("send"@ != "puzzle"@);
    reveal_strlit("refresh-cw");
    assert("refresh-cw"@.len() == 10);
    assert("send"@ != "refresh-cw"@);
    reveal_strlit("scroll-text");
    assert("scroll-text"@.len() == 11);
    assert("send"@ != "scroll-text"@);
}

proof fn lemma_named_server()
    ensures
        icon_named(icon_name(PhaIcon::Server)) == Some(PhaIcon::Server),
{
    reveal_strlit("server");
    assert("server"@.len() == 6);
    reveal_strlit("arrow-left");
    assert("arrow-left"@.len() == 10);
    assert("server"@ != "arrow-left"@);
    reveal_strlit("arrow-right");
    assert("arrow-right"@.len() == 11);
    assert("server"@ != "arrow-right"@);
    reveal_strlit("chevron-down");
    assert("chevron-down"@.len() == 12);
    assert("server"@ != "chevron-down"@);
    reveal_strlit("chevron-right");
    assert("chevron-right"@.len() == 13);
    assert("server"@ != "chevron-right"@);
    reveal_strlit("copy");
    assert("copy"@.len() == 4);
    assert("server"@ != "copy"@);
    reveal_strlit("ellipsis-vertical");
    assert("ellipsis-vertical"@.len() == 17);
    assert("server"@ != "ellipsis-vertical"@);
    reveal_strlit("flame");
    assert("flame"@.len() == 5);
    assert("server"@ != "flame"@);
    reveal_strlit("folder");
    assert("folder"@[0] == 'f' && "server"@[0] == 's');
    assert("server"@ != "folder"@);
    reveal_strlit("folder-open");
    assert("folder-open"@.len() == 11);
    assert("server"@ != "folder-open"@);
    reveal_strlit("layers");
    assert("layers"@[0] == 'l' && "server"@[0] == 's');
    assert("server"@ != "layers"@);
    reveal_strlit("palette");
    assert("palette"@.len() == 7);
    assert("server"@ != "palette"@);
    reveal_strlit("play");
    assert("play"@.len() == 4);
    assert("server"@ != "play"@);
    reveal_strlit("play-filled");
    assert("play-filled"@.len() == 11);
    assert("server"@ != "play-filled"@);
    reveal_strlit("package");
    assert("package"@.len() == 7);
    assert("server"@ != "package"@);
    reveal_strlit("plus");
    assert("plus"@.len() == 4);
    assert("server"@ != "plus"@);
    reveal_strlit("search");
    assert("search"@[2] == 'a' && "server"@[2] == 'r');
    assert("server"@ != "search"@);
    reveal_strlit("settings");
    assert("settings"@.len() == 8);
    assert("server"@ != "settings"@);
    reveal_strlit("star");
    assert("star"@.len() == 4);
    assert("server"@ != "star"@);
    reveal_strlit("triangle-alert");
    assert("triangle-alert"@.len() == 14);
    assert("server"@ != "triangle-alert"@);
    reveal_strlit("trash-2");
    assert("trash-2"@.len() == 7);
    assert("server"@ != "trash-2"@);
    reveal_strlit("window-close");
    assert("window-close"@.len() == 12);
    assert("server"@ != "window-close"@);
    reveal_strlit("window-maximize");
    assert("window-maximize"@.len() == 15);
    assert("server"@ != "window-maximize"@);
    reveal_strlit("window-minimize");
    assert("window-minimize"@.len() == 15);
    assert("server"@ != "window-minimize"@);
    reveal_strlit("window-restore");
    assert("window-restore"@.len() == 14);
    assert("server"@ != "window-restore"@);
    reveal_strlit("box");
    assert("box"@.len() == 3);
    assert("server"@ != "box"@);
    reveal_strlit("cpu");
    assert("cpu"@.len() == 3);
    assert("server"@ != "cpu"@);
    reveal_strlit("ellipsis");
    assert("ellipsis"@.len() == 8);
    assert("server"@ != "ellipsis"@);
    reveal_strlit("file-down");
    assert("file-down"@.len() == 9);
    assert("server"@ != "file-down"@);
    reveal_strlit("file-text");
    assert("file-text"@.len() == 9);
    assert("server"@ != "file-text"@);
    reveal_strlit("globe");
    assert("globe"@.len() == 5);
    assert("server"@ != "globe"@);
    reveal_strlit("info");
    assert("info"@.len() == 4);
    assert("server"@ != "info"@);
    reveal_strlit("key-round");
    assert("key-round"@.len() == 9);
    assert("server"@ != "key-round"@);
    reveal_strlit("monitor");
    assert("monitor"@.len() == 7);
    assert("server"@ != "monitor"@);
    reveal_strlit("puzzle");
    assert("puzzle"@[0] == 'p' && "server"@[0] == 's');
    assert("server"@ != "puzzle"@);
    reveal_strlit("refresh-cw");
    assert("refresh-cw"@.len() == 10);
    assert("server"@ != "refresh-cw"@);
    reveal_strlit("scroll-text");
    assert("scroll-text"@.len() == 11);
    assert("server"@ != "scroll-text"@);
    reveal_strlit("send");
    assert("send"@.len() == 4);
    assert("server"@ != "send"@);
}

proof fn lemma_named_sparkles()
    ensures
        icon_named(icon_name(PhaIcon::Sparkles)) == Some(PhaIcon::Sparkles),
{
    reveal_strlit("sparkles");
    assert("sparkles"@.len() == 8);
    reveal_strlit("arrow-left");
    assert("arrow-left"@.len() == 10);
    assert("sparkles"@ != "arrow-left"@);
    reveal_strlit("arrow-right");
    assert("arrow-right"@.len() == 11);
    assert("sparkles"@ != "arrow-right"@);
    reveal_strlit("chevron-down");
    assert("chevron-down"@.len() == 12);
    assert("sparkles"@ != "chevron-down"@);
    reveal_strlit("chevron-right");
    assert("chevron-right"@.len() == 13);
    assert("sparkles"@ != "chevron-right"@);
    reveal_strlit("copy");
    assert("copy"@.len() == 4);
    assert("sparkles"@ != "copy"@);
    reveal_strlit("ellipsis-vertical");
    assert("ellipsis-vertical"@.len() == 17);
    assert("sparkles"@ != "ellipsis-vertical"@);
    reveal_strlit("flame");
    assert("flame"@.len() == 5);
    assert("sparkles"@ != "flame"@);
    reveal_strlit("folder");
    assert("folder"@.len() == 6);
    assert("sparkles"@ != "folder"@);
    reveal_strlit("folder-open");
    assert("folder-open"@.len() == 11);
    assert("sparkles"@ != "folder-open"@);
    reveal_strlit("layers");
    assert("layers"@.len() == 6);
    assert("sparkles"@ != "layers"@);
    reveal_strlit("palette");
    assert("palette"@.len() == 7);
    assert("sparkles"@ != "palette"@);
    reveal_strlit("play");
    assert("play"@.len() == 4);
    assert("sparkles"@ != "play"@);
    reveal_strlit("play-filled");
    assert("play-filled"@.len() == 11);
    assert("sparkles"@ != "play-filled"@);
    reveal_strlit("package");
    assert("package"@.len() == 7);
    assert("sparkles"@ != "package"@);
    reveal_strlit("plus");
    assert("plus"@.len() == 4);
    assert("sparkles"@ != "plus"@);
    reveal_strlit("search");
    assert("search"@.len() == 6);
    assert("sparkles"@ != "search"@);
    reveal_strlit("settings");
    assert("settings"@[1] == 'e' && "sparkles"@[1] == 'p');
    assert("sparkles"@ != "settings"@);
    reveal_strlit("star");
    assert("star"@.len() == 4);
    assert("sparkles"@ != "star"@);
    reveal_strlit("triangle-alert");
    assert("triangle-alert"@.len() == 14);
    assert("sparkles"@ != "triangle-alert"@);
    reveal_strlit("trash-2");
    assert("trash-2"@.len() == 7);
    assert("sparkles"@ != "trash-2"@);
    reveal_strlit("window-close");
    assert("window-close"@.len() == 12);
    assert("sparkles"@ != "window-close"@);
    reveal_strlit("window-maximize");
    assert("window-maximize"@.len() == 15);
    assert("sparkles"@ != "window-maximize"@);
    reveal_strlit("window-minimize");
    assert("window-minimize"@.len() == 15);
    assert("sparkles"@ != "window-minimize"@);
    reveal_strlit("window-restore");
    assert("window-restore"@.len() == 14);
    assert("sparkles"@ != "window-restore"@);
    reveal_strlit("box");
    assert("box"@.len() == 3);
    assert("sparkles"@ != "box"@);
    reveal_strlit("cpu");
    assert("cpu"@.len() == 3);
    assert("sparkles"@ != "cpu"@);
    reveal_strlit("ellipsis");
    assert("ellipsis"@[0] == 'e' && "sparkles"@[0] == 's');
    assert("sparkles"@ != "ellipsis"@);
    reveal_strlit("file-down");
    assert("file-down"@.len() == 9);
    assert("sparkles"@ != "file-down"@);
    reveal_strlit("file-text");
    assert("file-text"@.len() == 9);
    assert("sparkles"@ != "file-text"@);
    reveal_strlit("globe");
    assert("globe"@.len() == 5);
    assert("sparkles"@ != "globe"@);
    reveal_strlit("info");
    assert("info"@.len() == 4);
    assert("sparkles"@ != "info"@);
    reveal_strlit("key-round");
    assert("key-round"@.len() == 9);
    assert("sparkles"@ != "key-round"@);
    reveal_strlit("monitor");
    assert("monitor"@.len() == 7);
    assert("sparkles"@ != "monitor"@);
    reveal_strlit("puzzle");
    assert("puzzle"@.len() == 6);
    assert("sparkles"@ != "puzzle"@);
    reveal_strlit("refresh-cw");
    assert("refresh-cw"@.len() == 10);
    assert("sparkles"@ != "refresh-cw"@);
    reveal_strlit("scroll-text");
    assert("scroll-text"@.len() == 11);
    assert("sparkles"@ != "scroll-text"@);
    reveal_strlit("send");
    assert("send"@.len() == 4);
    assert("sparkles"@ != "send"@);
    reveal_strlit("server");
    assert("server"@.len() == 6);
    assert("sparkles"@ != "server"@);
}

proof fn lemma_named_square()
    ensures
        icon_named(icon_name(PhaIcon::Square)) == Some(PhaIcon::Square),
{
    reveal_strlit("square");
    assert("square"@.len() == 6);
    reveal_strlit("arrow-left");
    assert("arrow-left"@.len() == 10);
    assert("square"@ != "arrow-left"@);
    reveal_strlit("arrow-right");
    assert("arrow-right"@.len() == 11);
    assert("square"@ != "arrow-right"@);
    reveal_strlit("chevron-down");
    assert("chevron-down"@.len() == 12);
    assert("square"@ != "chevron-down"@);
    reveal_strlit("chevron-right");
    assert("chevron-right"@.len() == 13);
    assert("square"@ != "chevron-right"@);
    reveal_strlit("copy");
    assert("copy"@.len() == 4);
    assert("square"@ != "copy"@);
    reveal_strlit("ellipsis-vertical");
    assert("ellipsis-vertical"@.len() == 17);
    assert("square"@ != "ellipsis-vertical"@);
    reveal_strlit("flame");
    assert("flame"@.len() == 5);
    assert("square"@ != "flame"@);
    reveal_strlit("folder");
    assert("folder"@[0] == 'f' && "square"@[0] == 's');
    assert("square"@ != "folder"@);
    reveal_strlit("folder-open");
    assert("folder-open"@.len() == 11);
    assert("square"@ != "folder-open"@);
    reveal_strlit("layers");
    assert("layers"@[0] == 'l' && "square"@[0] == 's');
    assert("square"@ != "layers"@);
    reveal_strlit("palette");
    assert("palette"@.len() == 7);
    assert("square"@ != "palette"@);
    reveal_strlit("play");
    assert("play"@.len() == 4);
    assert("square"@ != "play"@);
    reveal_strlit("play-filled");
    assert("play-filled"@.len() == 11);
    assert("square"@ != "play-filled"@);
    reveal_strlit("package");
    assert("package"@.len() == 7);
    assert("square"@ != "package"@);
    reveal_strlit("plus");
    assert("plus"@.len() == 4);
    assert("square"@ != "plus"@);
    reveal_strlit("search");
    assert("search"@[1] == 'e' && "square"@[1] == 'q');
    assert("square"@ != "search"@);
    reveal_strlit("settings");
    assert("settings"@.len() == 8);
    assert("square"@ != "settings"@);
    reveal_strlit("star");
    assert("star"@.len() == 4);
    assert("square"@ != "star"@);
    reveal_strlit("triangle-alert");
    assert("triangle-alert"@.len() == 14);
    assert("square"@ != "triangle-alert"@);
    reveal_strlit("trash-2");
    assert("trash-2"@.len() == 7);
    assert("square"@ != "trash-2"@);
    reveal_strlit("window-close");
    assert("window-close"@.len() == 12);
    assert("square"@ != "window-close"@);
    reveal_strlit("window-maximize");
    assert("window-maximize"@.len() == 15);
    assert("square"@ != "window-maximize"@);
    reveal_strlit("window-minimize");
    assert("window-minimize"@.len() == 15);
    assert("square"@ != "window-minimize"@);
    reveal_strlit("window-restore");
    assert("window-restore"@.len() == 14);
    assert("square"@ != "window-restore"@);
    reveal_strlit("box");
    assert("box"@.len() == 3);
    assert("square"@ != "box"@);
    reveal_strlit("cpu");
    assert("cpu"@.len() == 3);
    assert("square"@ != "cpu"@);
    reveal_strlit("ellipsis");
    assert("ellipsis"@.len() == 8);
    assert("square"@ != "ellipsis"@);
    reveal_strlit("file-down");
    assert("file-down"@.len() == 9);
    assert("square"@ != "file-down"@);
    reveal_strlit("file-text");
    assert("file-text"@.len() == 9);
    assert("square"@ != "file-text"@);
    reveal_strlit("globe");
    assert("globe"@.len() == 5);
    assert("square"@ != "globe"@);
    reveal_strlit("info");
    assert("info"@.len() == 4);
    assert("square"@ != "info"@);
    reveal_strlit("key-round");
    assert("key-round"@.len() == 9);
    assert("square"@ != "key-round"@);
    reveal_strlit("monitor");
    assert("monitor"@.len() == 7);
    assert("square"@ != "monitor"@);
    reveal_strlit("puzzle");
    assert("puzzle"@[0] == 'p' && "square"@[0] == 's');
    assert("square"@ != "puzzle"@);
    reveal_strlit("refresh-cw");
    assert("refresh-cw"@.len() == 10);
    assert("square"@ != "refresh-cw"@);
    reveal_strlit("scroll-text");
    assert("scroll-text"@.len() == 11);
    assert("square"@ != "scroll-text"@);
    reveal_strlit("send");
    assert("send"@.len() == 4);
    assert("square"@ != "send"@);
    reveal_strlit("server");
    assert("server"@[1] == 'e' && "square"@[1] == 'q');
    assert("square"@ != "server"@);
    reveal_strlit("sparkles");
    assert("sparkles"@.len() == 8);
    assert("square"@ != "sparkles"@);
}

proof fn lemma_named_starfilled()
    ensures
        icon_named(icon_name(PhaIcon::StarFilled)) == Some(PhaIcon::StarFilled),
{
    reveal_strlit("star-filled");
    assert("star-filled"@.len() == 11);
    reveal_strlit("arrow-left");
    assert("arrow-left"@.len() == 10);
    assert("star-filled"@ != "arrow-left"@);
    reveal_strlit("arrow-right");
    assert("arrow-right"@[0] == 'a' && "star-filled"@[0] == 's');
    assert("star-filled"@ != "arrow-right"@);
    reveal_strlit("chevron-down");
    assert("chevron-down"@.len() == 12);
    assert("star-filled"@ != "chevron-down"@);
    reveal_strlit("chevron-right");
    assert("chevron-right"@.len() == 13);
    assert("star-filled"@ != "chevron-right"@);
    reveal_strlit("copy");
    assert("copy"@.len() == 4);
    assert("star-filled"@ != "copy"@);
    reveal_strlit("ellipsis-vertical");
    assert("ellipsis-vertical"@.len() == 17);
    assert("star-filled"@ != "ellipsis-vertical"@);
    reveal_strlit("flame");
    assert("flame"@.len() == 5);
    assert("star-filled"@ != "flame"@);
    reveal_strlit("folder");
    assert("folder"@.len() == 6);
    assert("star-filled"@ != "folder"@);
    reveal_strlit("folder-open");
    assert("folder-open"@[0] == 'f' && "star-filled"@[0] == 's');
    assert("star-filled"@ != "folder-open"@);
    reveal_strlit("layers");
    assert("layers"@.len() == 6);
    assert("star-filled"@ != "layers"@);
    reveal_strlit("palette");
    assert("palette"@.len() == 7);
    assert("star-filled"@ != "palette"@);
    reveal_strlit("play");
    assert("play"@.len() == 4);
    assert("star-filled"@ != "play"@);
    reveal_strlit("play-filled");
    assert("play-filled"@[0] == 'p' && "star-filled"@[0] == 's');
    assert("star-filled"@ != "play-filled"@);
    reveal_strlit("package");
    assert("package"@.len() == 7);
    assert("star-filled"@ != "package"@);
    reveal_strlit("plus");
    assert("plus"@.len() == 4);
    assert("star-filled"@ != "plus"@);
    reveal_strlit("search");
    assert("search"@.len() == 6);
    assert("star-filled"@ != "search"@);
    reveal_strlit("settings");
    assert("settings"@.len() == 8);
    assert("star-filled"@ != "settings"@);
    reveal_strlit("star");
    assert("star"@.len() == 4);
    assert("star-filled"@ != "star"@);
    reveal_strlit("triangle-alert");
    assert("triangle-alert"@.len() == 14);
    assert("star-filled"@ != "triangle-alert"@);
    reveal_strlit("trash-2");
    assert("trash-2"@.len() == 7);
    assert("star-filled"@ != "trash-2"@);
    reveal_strlit("window-close");
    assert("window-close"@.len() == 12);
    assert("star-filled"@ != "window-close"@);
    reveal_strlit("window-maximize");
    assert("window-maximize"@.len() == 15);
    assert("star-filled"@ != "window-maximize"@);
    reveal_strlit("window-minimize");
    assert("window-minimize"@.len() == 15);
    assert("star-filled"@ != "window-minimize"@);
    reveal_strlit("window-restore");
    assert("window-restore"@.len() == 14);
    assert("star-filled"@ != "window-restore"@);
    reveal_strlit("box");
    assert("box"@.len() == 3);
    assert("star-filled"@ != "box"@);
    reveal_strlit("cpu");
    assert("cpu"@.len() == 3);
    assert("star-filled"@ != "cpu"@);
    reveal_strlit("ellipsis");
    assert("ellipsis"@.len() == 8);
    assert("star-filled"@ != "ellipsis"@);
    reveal_strlit("file-down");
    assert("file-down"@.len() == 9);
    assert("star-filled"@ != "file-down"@);
    reveal_strlit("file-text");
    assert("file-text"@.len() == 9);
    assert("star-filled"@ != "file-text"@);
    reveal_strlit("globe");
    assert("globe"@.len() == 5);
    assert("star-filled"@ != "globe"@);
    reveal_strlit("info");
    assert("info"@.len() == 4);
    assert("star-filled"@ != "info"@);
    reveal_strlit("key-round");
    assert("key-round"@.len() == 9);
    assert("star-filled"@ != "key-round"@);
    reveal_strlit("monitor");
    assert("monitor"@.len() == 7);
    assert("star-filled"@ != "monitor"@);
    reveal_strlit("puzzle");
    assert("puzzle"@.len() == 6);
    assert("star-filled"@ != "puzzle"@);
    reveal_strlit("refresh-cw");
    assert("refresh-cw"@.len() == 10);
    assert("star-filled"@ != "refresh-cw"@);
    reveal_strlit("scroll-text");
    assert("scroll-text"@[1] == 'c' && "star-filled"@[1] == 't');
    assert("star-filled"@ != "scroll-text"@);
    reveal_strlit("send");
    assert("send"@.len() == 4);
    assert("star-filled"@ != "send"@);
    reveal_strlit("server");
    assert("server"@.len() == 6);
    assert("star-filled"@ != "server"@);
    reveal_strlit("sparkles");
    assert("sparkles"@.len() == 8);
    assert("star-filled"@ != "sparkles"@);
    reveal_strlit("square");
    assert("square"@.len() == 6);
    assert("star-filled"@ != "square"@);
}

proof fn lemma_named_upload()
    ensures
        icon_named(icon_name(PhaIcon::Upload)) == Some(PhaIcon::Upload),
{
    reveal_strlit("upload");
    assert("upload"@.len() == 6);
    reveal_strlit("arrow-left");
    assert("arrow-left"@.len() == 10);
    assert("upload"@ != "arrow-left"@);
    reveal_strlit("arrow-right");
    assert("arrow-right"@.len() == 11);
    assert("upload"@ != "arrow-right"@);
    reveal_strlit("chevron-down");
    assert("chevron-down"@.len() == 12);
    assert("upload"@ != "chevron-down"@);
    reveal_strlit("chevron-right");
    assert("chevron-right"@.len() == 13);
    assert("upload"@ != "chevron-right"@);
    reveal_strlit("copy");
    assert("copy"@.len() == 4);
    assert("upload"@ != "copy"@);
    reveal_strlit("ellipsis-vertical");
    assert("ellipsis-vertical"@.len() == 17);
    assert("upload"@ != "ellipsis-vertical"@);
    reveal_strlit("flame");
    assert("flame"@.len() == 5);
    assert("upload"@ != "flame"@);
    reveal_strlit("folder");
    assert("folder"@[0] == 'f' && "upload"@[0] == 'u');
    assert("upload"@ != "folder"@);
    reveal_strlit("folder-open");
    assert("folder-open"@.len() == 11);
    assert("upload"@ != "folder-open"@);
    reveal_strlit("layers");
    assert("layers"@[0] == 'l' && "upload"@[0] == 'u');
    assert("upload"@ != "layers"@);
    reveal_strlit("palette");
    assert("palette"@.len() == 7);
    assert("upload"@ != "palette"@);
    reveal_strlit("play");
    assert("play"@.len() == 4);
    assert("upload"@ != "play"@);
    reveal_strlit("play-filled");
    assert("play-filled"@.len() == 11);
    assert("upload"@ != "play-filled"@);
    reveal_strlit("package");
    assert("package"@.len() == 7);
    assert("upload"@ != "package"@);
    reveal_strlit("plus");
    assert("plus"@.len() == 4);
    assert("upload"@ != "plus"@);
    reveal_strlit("search");
    assert("search"@[0] == 's' && "upload"@[0] == 'u');
    assert("upload"@ != "search"@);
    reveal_strlit("settings");
    assert("settings"@.len() == 8);
    assert("upload"@ != "settings"@);
    reveal_strlit("star");
    assert("star"@.len() == 4);
    assert("upload"@ != "star"@);
    reveal_strlit("triangle-alert");
    assert("triangle-alert"@.len() == 14);
    assert("upload"@ != "triangle-alert"@);
    reveal_strlit("trash-2");
    assert("trash-2"@.len() == 7);
    assert("upload"@ != "trash-2"@);
    reveal_strlit("window-close");
    assert("window-close"@.len() == 12);
    assert("upload"@ != "window-close"@);
    reveal_strlit("window-maximize");
    assert("window-maximize"@.len() == 15);
    assert("upload"@ != "window-maximize"@);
    reveal_strlit("window-minimize");
    assert("window-minimize"@.len() == 15);
    assert("upload"@ != "window-minimize"@);
    reveal_strlit("window-restore");
    assert("window-restore"@.len() == 14);
    assert("upload"@ != "window-restore"@);
    reveal_strlit("box");
    assert("box"@.len() == 3);
    assert("upload"@ != "box"@);
    reveal_strlit("cpu");
    assert("cpu"@.len() == 3);
    assert("upload"@ != "cpu"@);
    reveal_strlit("ellipsis");
    assert("ellipsis"@.len() == 8);
    assert("upload"@ != "ellipsis"@);
    reveal_strlit("file-down");
    assert("file-down"@.len() == 9);
    assert("upload"@ != "file-down"@);
    reveal_strlit("file-text");
    assert("file-text"@.len() == 9);
    assert("upload"@ != "file-text"@);
    reveal_strlit("globe");
    assert("globe"@.len() == 5);
    assert("upload"@ != "globe"@);
    reveal_strlit("info");
    assert("info"@.len() == 4);
    assert("upload"@ != "info"@);
    reveal_strlit("key-round");
    assert("key-round"@.len() == 9);
    assert("upload"@ != "key-round"@);
    reveal_strlit("monitor");
    assert("monitor"@.len() == 7);
    assert("upload"@ != "monitor"@);
    reveal_strlit("puzzle");
    assert("puzzle"@[0] == 'p' && "upload"@[0] == 'u');
    assert("upload"@ != "puzzle"@);
    reveal_strlit("refresh-cw");
    assert("refresh-cw"@.len() == 10);
    assert("upload"@ != "refresh-cw"@);
    reveal_strlit("scroll-text");
    assert("scroll-text"@.len() == 11);
    assert("upload"@ != "scroll-text"@);
    reveal_strlit("send");
    assert("send"@.len() == 4);
    assert("upload"@ != "send"@);
    reveal_strlit("server");
    assert("server"@[0] == 's' && "upload"@[0] == 'u');
    assert("upload"@ != "server"@);
    reveal_strlit("sparkles");
    assert("sparkles"@.len() == 8);
    assert("upload"@ != "sparkles"@);
    reveal_strlit("square");
    assert("square"@[0] == 's' && "upload"@[0] == 'u');
    assert("upload"@ != "square"@);
    reveal_strlit("star-filled");
    assert("star-filled"@.len() == 11);
    assert("upload"@ != "star-filled"@);
}

proof fn lemma_named_users()
    ensures
        icon_named(icon_name(PhaIcon::Users)) == Some(PhaIcon::Users),
{
    reveal_strlit("users");
    assert("users"@.len() == 5);
    reveal_strlit("arrow-left");
    assert("arrow-left"@.len() == 10);
    assert("users"@ != "arrow-left"@);
    reveal_strlit("arrow-right");
    assert("arrow-right"@.len() == 11);
    assert("users"@ != "arrow-right"@);
    reveal_strlit("chevron-down");
    assert("chevron-down"@.len() == 12);
    assert("users"@ != "chevron-down"@);
    reveal_strlit("chevron-right");
    assert("chevron-right"@.len() == 13);
    assert("users"@ != "chevron-right"@);
    reveal_strlit("copy");
    assert("copy"@.len() == 4);
    assert("users"@ != "copy"@);
    reveal_strlit("ellipsis-vertical");
    assert("ellipsis-vertical"@.len() == 17);
    assert("users"@ != "ellipsis-vertical"@);
    reveal_strlit("flame");
    assert("flame"@[0] == 'f' && "users"@[0] == 'u');
    assert("users"@ != "flame"@);
    reveal_strlit("folder");
    assert("folder"@.len() == 6);
    assert("users"@ != "folder"@);
    reveal_strlit("folder-open");
    assert("folder-open"@.len() == 11);
    assert("users"@ != "folder-open"@);
    reveal_strlit("layers");
    assert("layers"@.len() == 6);
    assert("users"@ != "layers"@);
    reveal_strlit("palette");
    assert("palette"@.len() == 7);
    assert("users"@ != "palette"@);
    reveal_strlit("play");
    assert("play"@.len() == 4);
    assert("users"@ != "play"@);
    reveal_strlit("play-filled");
    assert("play-filled"@.len() == 11);
    assert("users"@ != "play-filled"@);
    reveal_strlit("package");
    assert("package"@.len() == 7);
    assert("users"@ != "package"@);
    reveal_strlit("plus");
    assert("plus"@.len() == 4);
    assert("users"@ != "plus"@);
    reveal_strlit("search");
    assert("search"@.len() == 6);
    assert("users"@ != "search"@);
    reveal_strlit("settings");
    assert("settings"@.len() == 8);
    assert("users"@ != "settings"@);
    reveal_strlit("star");
    assert("star"@.len() == 4);
    assert("users"@ != "star"@);
    reveal_strlit("triangle-alert");
    assert("triangle-alert"@.len() == 14);
    assert("users"@ != "triangle-alert"@);
    reveal_strlit("trash-2");
    assert("trash-2"@.len() == 7);
    assert("users"@ != "trash-2"@);
    reveal_strlit("window-close");
    assert("window-close"@.len() == 12);
    assert("users"@ != "window-close"@);
    reveal_strlit("window-maximize");
    assert("window-maximize"@.len() == 15);
    assert("users"@ != "window-maximize"@);
    reveal_strlit("window-minimize");
    assert("window-minimize"@.len() == 15);
    assert("users"@ != "window-minimize"@);
    reveal_strlit("window-restore");
    assert("window-restore"@.len() == 14);
    assert("users"@ != "window-restore"@);
    reveal_strlit("box");
    assert("box"@.len() == 3);
    assert("users"@ != "box"@);
    reveal_strlit("cpu");
    assert("cpu"@.len() == 3);
    assert("users"@ != "cpu"@);
    reveal_strlit("ellipsis");
    assert("ellipsis"@.len() == 8);
    assert("users"@ != "ellipsis"@);
    reveal_strlit("file-down");
    assert("file-down"@.len() == 9);
    assert("users"@ != "file-down"@);
    reveal_strlit("file-text");
    assert("file-text"@.len() == 9);
    assert("users"@ != "file-text"@);
    reveal_strlit("globe");
    assert("globe"@[0] == 'g' && "users"@[0] == 'u');
    assert("users"@ != "globe"@);
    reveal_strlit("info");
    assert("info"@.len() == 4);
    assert("users"@ != "info"@);
    reveal_strlit("key-round");
    assert("key-round"@.len() == 9);
    assert("users"@ != "key-round"@);
    reveal_strlit("monitor");
    assert("monitor"@.len() == 7);
    assert("users"@ != "monitor"@);
    reveal_strlit("puzzle");
    assert("puzzle"@.len() == 6);
    assert("users"@ != "puzzle"@);
    reveal_strlit("refresh-cw");
    assert("refresh-cw"@.len() == 10);
    assert("users"@ != "refresh-cw"@);
    reveal_strlit("scroll-text");
    assert("scroll-text"@.len() == 11);
    assert("users"@ != "scroll-text"@);
    reveal_strlit("send");
    assert("send"@.len() == 4);
    assert("users"@ != "send"@);
    reveal_strlit("server");
    assert("server"@.len() == 6);
    assert("users"@ != "server"@);
    reveal_strlit("sparkles");
    assert("sparkles"@.len() == 8);
    assert("users"@ != "sparkles"@);
    reveal_strlit("square");
    assert("square"@.len() == 6);
    assert("users"@ != "square"@);
    reveal_strlit("star-filled");
    assert("star-filled"@.len() == 11);
    assert("users"@ != "star-filled"@);
    reveal_strlit("upload");
    assert("upload"@.len() == 6);
    assert("users"@ != "upload"@);
}

/// Every icon's name leads back to the icon: the names are distinct, and
/// looking one up finds its own icon.
pub proof fn law_name_round_trip(icon: PhaIcon)
    ensures
        icon_named(icon_name(icon)) == Some(icon),
{
    match icon {
        PhaIcon::ArrowLeft => lemma_named_arrowleft(),
        PhaIcon::ArrowRight => lemma_named_arrowright(),
        PhaIcon::ChevronDown => lemma_named_chevrondown(),
        PhaIcon::ChevronRight => lemma_named_chevronright(),
        PhaIcon::Copy => lemma_named_copy(),
        PhaIcon::EllipsisVertical => lemma_named_ellipsisvertical(),
        PhaIcon::Flame => lemma_named_flame(),
        PhaIcon::Folder => lemma_named_folder(),
        PhaIcon::FolderOpen => lemma_named_folderopen(),
        PhaIcon::Layers => lemma_named_layers(),
        PhaIcon::Palette => lemma_named_palette(),
        PhaIcon::Play => lemma_named_play(),
        PhaIcon::PlayFilled => lemma_named_playfilled(),
        PhaIcon::Package => lemma_named_package(),
        PhaIcon::Plus => lemma_named_plus(),
        PhaIcon::Search => lemma_named_search(),
        PhaIcon::Settings => lemma_named_settings(),
        PhaIcon::Star => lemma_named_star(),
        PhaIcon::TriangleAlert => lemma_named_trianglealert(),
        PhaIcon::Trash2 => lemma_named_trash2(),
        PhaIcon::WindowClose => lemma_named_windowclose(),
        PhaIcon::WindowMaximize => lemma_named_windowmaximize(),
        PhaIcon::WindowMinimize => lemma_named_windowminimize(),
        PhaIcon::WindowRestore => lemma_named_windowrestore(),
        PhaIcon::Box => lemma_named_box(),
        PhaIcon::Cpu => lemma_named_cpu(),
        PhaIcon::Ellipsis => lemma_named_ellipsis(),
        PhaIcon::FileDown => lemma_named_filedown(),
        PhaIcon::FileText => lemma_named_filetext(),
        PhaIcon::Globe => lemma_named_globe(),
        PhaIcon::Info => lemma_named_info(),
        PhaIcon::KeyRound => lemma_named_keyround(),
        PhaIcon::Monitor => lemma_named_monitor(),
        PhaIcon::Puzzle => lemma_named_puzzle(),
        PhaIcon::RefreshCw => lemma_named_refreshcw(),
        PhaIcon::ScrollText => lemma_named_scrolltext(),
        PhaIcon::Send => lemma_named_send(),
        PhaIcon::Server => lemma_named_server(),
        PhaIcon::Sparkles => lemma_named_sparkles(),
        PhaIcon::Square => lemma_named_square(),
        PhaIcon::StarFilled => lemma_named_starfilled(),
        PhaIcon::Upload => lemma_named_upload(),
        PhaIcon::Users => lemma_named_users(),
    }
}

} // verus!
