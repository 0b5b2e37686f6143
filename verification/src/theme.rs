//! The launcher theme: the color each role of the component theme takes
//! from the palette, and what the chosen accent replaces.
//!
//! A paint is an sRGB color, an opacity and a shift of its HSL lightness in
//! hundredths; the renderer turns it into a component color and clamps the
//! shifted lightness to the unit range.
use vstd::prelude::*;

use crate::palette::{accent_colors, accent_of, token, ACCENTS};

verus! {

/// How opaque a paint is.
#[derive(Clone, Copy, Debug, PartialEq, Eq, Structural)]
pub enum Opacity {
    /// Fully opaque.
    Opaque,
    /// `n / 255`.
    Byte(u8),
    /// `n / 100`.
    Percent(u8),
}

/// A theme color.
#[derive(Clone, Copy, Debug, PartialEq, Eq, Structural)]
pub struct Paint {
    pub rgb: u32,
    pub opacity: Opacity,
    /// Added to the HSL lightness, in hundredths.
    pub shift: i8,
}

/// Border radius of the general elements, in pixels.
pub const RADIUS: u32 = 6;
/// Border radius of the large elements, in pixels.
pub const RADIUS_LG: u32 = 8;
/// The base text size, in pixels.
pub const FONT_SIZE: u32 = 16;

/// The roles of the component theme that the launcher paints.
#[derive(Clone, Copy, Debug, PartialEq, Eq, Structural)]
pub enum ColorRole {
    Background,
    Foreground,
    Border,
    Input,
    Ring,
    Selection,
    Caret,
    DragBorder,
    DropTarget,
    Overlay,
    WindowBorder,
    Popover,
    PopoverForeground,
    Accordion,
    GroupBox,
    GroupBoxForeground,
    Primary,
    PrimaryForeground,
    PrimaryHover,
    PrimaryActive,
    Secondary,
    SecondaryForeground,
    SecondaryHover,
    SecondaryActive,
    Muted,
    MutedForeground,
    Accent,
    AccentForeground,
    Danger,
    DangerForeground,
    DangerHover,
    DangerActive,
    Success,
    SuccessForeground,
    SuccessHover,
    SuccessActive,
    Warning,
    WarningForeground,
    WarningHover,
    WarningActive,
    Info,
    InfoForeground,
    InfoHover,
    InfoActive,
    Button,
    ButtonForeground,
    ButtonHover,
    ButtonActive,
    ButtonPrimary,
    ButtonPrimaryForeground,
    ButtonPrimaryHover,
    ButtonPrimaryActive,
    ButtonSecondary,
    ButtonSecondaryForeground,
    ButtonSecondaryHover,
    ButtonSecondaryActive,
    ButtonDanger,
    ButtonDangerForeground,
    ButtonDangerHover,
    ButtonDangerActive,
    ButtonSuccess,
    ButtonSuccessForeground,
    ButtonSuccessHover,
    ButtonSuccessActive,
    ButtonWarning,
    ButtonWarningForeground,
    ButtonWarningHover,
    ButtonWarningActive,
    ButtonInfo,
    ButtonInfoForeground,
    ButtonInfoHover,
    ButtonInfoActive,
    Link,
    LinkHover,
    LinkActive,
    List,
    ListEven,
    ListHead,
    ListHover,
    ListActive,
    ListActiveBorder,
    Table,
    TableEven,
    TableHead,
    TableHeadForeground,
    TableFoot,
    TableFootForeground,
    TableHover,
    TableActive,
    TableActiveBorder,
    TableRowBorder,
    Tab,
    TabBar,
    TabBarSegmented,
    TabActive,
    TabActiveForeground,
    TabForeground,
    TitleBar,
    TitleBarBorder,
    StatusBar,
    StatusBarBorder,
    Tiles,
    Sidebar,
    SidebarForeground,
    SidebarAccent,
    SidebarAccentForeground,
    SidebarBorder,
    SidebarPrimary,
    SidebarPrimaryForeground,
    Skeleton,
    SliderBar,
    SliderThumb,
    ProgressBar,
    Switch,
    SwitchThumb,
    Scrollbar,
    ScrollbarThumb,
    ScrollbarThumbHover,
    DescriptionListLabel,
    DescriptionListLabelForeground,
    Chart1,
    Chart2,
    Chart3,
    Chart4,
    Chart5,
}

impl ColorRole {
    /// Every role, in the order the palette assigns them.
    pub const ALL: [ColorRole; 125] = [
        ColorRole::Background,
        ColorRole::Foreground,
        ColorRole::Border,
        ColorRole::Input,
        ColorRole::Ring,
        ColorRole::Selection,
        ColorRole::Caret,
        ColorRole::DragBorder,
        ColorRole::DropTarget,
        ColorRole::Overlay,
        ColorRole::WindowBorder,
        ColorRole::Popover,
        ColorRole::PopoverForeground,
        ColorRole::Accordion,
        ColorRole::GroupBox,
        ColorRole::GroupBoxForeground,
        ColorRole::Primary,
        ColorRole::PrimaryForeground,
        ColorRole::PrimaryHover,
        ColorRole::PrimaryActive,
        ColorRole::Secondary,
        ColorRole::SecondaryForeground,
        ColorRole::SecondaryHover,
        ColorRole::SecondaryActive,
        ColorRole::Muted,
        ColorRole::MutedForeground,
        ColorRole::Accent,
        ColorRole::AccentForeground,
        ColorRole::Danger,
        ColorRole::DangerForeground,
        ColorRole::DangerHover,
        ColorRole::DangerActive,
        ColorRole::Success,
        ColorRole::SuccessForeground,
        ColorRole::SuccessHover,
        ColorRole::SuccessActive,
        ColorRole::Warning,
        ColorRole::WarningForeground,
        ColorRole::WarningHover,
        ColorRole::WarningActive,
        ColorRole::Info,
        ColorRole::InfoForeground,
        ColorRole::InfoHover,
        ColorRole::InfoActive,
        ColorRole::Button,
        ColorRole::ButtonForeground,
        ColorRole::ButtonHover,
        ColorRole::ButtonActive,
        ColorRole::ButtonPrimary,
        ColorRole::ButtonPrimaryForeground,
        ColorRole::ButtonPrimaryHover,
        ColorRole::ButtonPrimaryActive,
        ColorRole::ButtonSecondary,
        ColorRole::ButtonSecondaryForeground,
        ColorRole::ButtonSecondaryHover,
        ColorRole::ButtonSecondaryActive,
        ColorRole::ButtonDanger,
        ColorRole::ButtonDangerForeground,
        ColorRole::ButtonDangerHover,
        ColorRole::ButtonDangerActive,
        ColorRole::ButtonSuccess,
        ColorRole::ButtonSuccessForeground,
        ColorRole::ButtonSuccessHover,
        ColorRole::ButtonSuccessActive,
        ColorRole::ButtonWarning,
        ColorRole::ButtonWarningForeground,
        ColorRole::ButtonWarningHover,
        ColorRole::ButtonWarningActive,
        ColorRole::ButtonInfo,
        ColorRole::ButtonInfoForeground,
        ColorRole::ButtonInfoHover,
        ColorRole::ButtonInfoActive,
        ColorRole::Link,
        ColorRole::LinkHover,
        ColorRole::LinkActive,
        ColorRole::List,
        ColorRole::ListEven,
        ColorRole::ListHead,
        ColorRole::ListHover,
        ColorRole::ListActive,
        ColorRole::ListActiveBorder,
        ColorRole::Table,
        ColorRole::TableEven,
        ColorRole::TableHead,
        ColorRole::TableHeadForeground,
        ColorRole::TableFoot,
        ColorRole::TableFootForeground,
        ColorRole::TableHover,
        ColorRole::TableActive,
        ColorRole::TableActiveBorder,
        ColorRole::TableRowBorder,
        ColorRole::Tab,
        ColorRole::TabBar,
        ColorRole::TabBarSegmented,
        ColorRole::TabActive,
        ColorRole::TabActiveForeground,
        ColorRole::TabForeground,
        ColorRole::TitleBar,
        ColorRole::TitleBarBorder,
        ColorRole::StatusBar,
        ColorRole::StatusBarBorder,
        ColorRole::Tiles,
        ColorRole::Sidebar,
        ColorRole::SidebarForeground,
        ColorRole::SidebarAccent,
        ColorRole::SidebarAccentForeground,
        ColorRole::SidebarBorder,
        ColorRole::SidebarPrimary,
        ColorRole::SidebarPrimaryForeground,
        ColorRole::Skeleton,
        ColorRole::SliderBar,
        ColorRole::SliderThumb,
        ColorRole::ProgressBar,
        ColorRole::Switch,
        ColorRole::SwitchThumb,
        ColorRole::Scrollbar,
        ColorRole::ScrollbarThumb,
        ColorRole::ScrollbarThumbHover,
        ColorRole::DescriptionListLabel,
        ColorRole::DescriptionListLabelForeground,
        ColorRole::Chart1,
        ColorRole::Chart2,
        ColorRole::Chart3,
        ColorRole::Chart4,
        ColorRole::Chart5,
    ];
}

/// The palette's paint for a role, before any accent is applied.
pub open spec fn base_paint(role: ColorRole) -> Paint {
    match role {
        ColorRole::Background => Paint { rgb: token::BACKGROUND, opacity: Opacity::Opaque, shift: 0i8 },
        ColorRole::Foreground => Paint { rgb: token::FOREGROUND, opacity: Opacity::Opaque, shift: 0i8 },
        ColorRole::Border => Paint { rgb: 0xFFFFFF, opacity: Opacity::Byte(token::BORDER_ALPHA), shift: 0i8 },
        ColorRole::Input => Paint { rgb: 0xFFFFFF, opacity: Opacity::Byte(token::INPUT_ALPHA), shift: 0i8 },
        ColorRole::Ring => Paint { rgb: token::PRIMARY, opacity: Opacity::Opaque, shift: 0i8 },
        ColorRole::Selection => Paint { rgb: token::PRIMARY, opacity: Opacity::Percent(35), shift: 0i8 },
        ColorRole::Caret => Paint { rgb: token::FOREGROUND, opacity: Opacity::Opaque, shift: 0i8 },
        ColorRole::DragBorder => Paint { rgb: token::PRIMARY, opacity: Opacity::Opaque, shift: 0i8 },
        ColorRole::DropTarget => Paint { rgb: token::PRIMARY, opacity: Opacity::Percent(20), shift: 0i8 },
        ColorRole::Overlay => Paint { rgb: 0x000000, opacity: Opacity::Percent(60), shift: 0i8 },
        ColorRole::WindowBorder => Paint { rgb: 0xFFFFFF, opacity: Opacity::Byte(token::BORDER_ALPHA), shift: 0i8 },
        ColorRole::Popover => Paint { rgb: token::POPOVER, opacity: Opacity::Opaque, shift: 0i8 },
        ColorRole::PopoverForeground => Paint { rgb: token::FOREGROUND, opacity: Opacity::Opaque, shift: 0i8 },
        ColorRole::Accordion => Paint { rgb: token::CARD, opacity: Opacity::Opaque, shift: 0i8 },
        ColorRole::GroupBox => Paint { rgb: token::CARD, opacity: Opacity::Opaque, shift: 0i8 },
        ColorRole::GroupBoxForeground => Paint { rgb: token::FOREGROUND, opacity: Opacity::Opaque, shift: 0i8 },
        ColorRole::Primary => Paint { rgb: token::PRIMARY, opacity: Opacity::Opaque, shift: 0i8 },
        ColorRole::PrimaryForeground => Paint { rgb: token::PRIMARY_FOREGROUND, opacity: Opacity::Opaque, shift: 0i8 },
        ColorRole::PrimaryHover => Paint { rgb: token::PRIMARY, opacity: Opacity::Opaque, shift: 4i8 },
        ColorRole::PrimaryActive => Paint { rgb: token::PRIMARY, opacity: Opacity::Opaque, shift: -4i8 },
        ColorRole::Secondary => Paint { rgb: token::SECONDARY, opacity: Opacity::Opaque, shift: 0i8 },
        ColorRole::SecondaryForeground => Paint { rgb: token::FOREGROUND, opacity: Opacity::Opaque, shift: 0i8 },
        ColorRole::SecondaryHover => Paint { rgb: token::ACCENT, opacity: Opacity::Opaque, shift: 0i8 },
        ColorRole::SecondaryActive => Paint { rgb: token::MUTED, opacity: Opacity::Opaque, shift: 0i8 },
        ColorRole::Muted => Paint { rgb: token::MUTED, opacity: Opacity::Opaque, shift: 0i8 },
        ColorRole::MutedForeground => Paint { rgb: token::MUTED_FOREGROUND, opacity: Opacity::Opaque, shift: 0i8 },
        ColorRole::Accent => Paint { rgb: token::ACCENT, opacity: Opacity::Opaque, shift: 0i8 },
        ColorRole::AccentForeground => Paint { rgb: token::ACCENT_FOREGROUND, opacity: Opacity::Opaque, shift: 0i8 },
        ColorRole::Danger => Paint { rgb: token::DESTRUCTIVE, opacity: Opacity::Opaque, shift: 0i8 },
        ColorRole::DangerForeground => Paint { rgb: 0xFFFFFF, opacity: Opacity::Opaque, shift: 0i8 },
        ColorRole::DangerHover => Paint { rgb: token::DESTRUCTIVE, opacity: Opacity::Opaque, shift: 4i8 },
        ColorRole::DangerActive => Paint { rgb: token::DESTRUCTIVE, opacity: Opacity::Opaque, shift: -4i8 },
        ColorRole::Success => Paint { rgb: token::PRIMARY, opacity: Opacity::Opaque, shift: 0i8 },
        ColorRole::SuccessForeground => Paint { rgb: token::PRIMARY_FOREGROUND, opacity: Opacity::Opaque, shift: 0i8 },
        ColorRole::SuccessHover => Paint { rgb: token::PRIMARY, opacity: Opacity::Opaque, shift: 4i8 },
        ColorRole::SuccessActive => Paint { rgb: token::PRIMARY, opacity: Opacity::Opaque, shift: -4i8 },
        ColorRole::Warning => Paint { rgb: token::WARNING, opacity: Opacity::Opaque, shift: 0i8 },
        ColorRole::WarningForeground => Paint { rgb: token::BACKGROUND, opacity: Opacity::Opaque, shift: 0i8 },
        ColorRole::WarningHover => Paint { rgb: token::WARNING, opacity: Opacity::Opaque, shift: 4i8 },
        ColorRole::WarningActive => Paint { rgb: token::WARNING, opacity: Opacity::Opaque, shift: -4i8 },
        ColorRole::Info => Paint { rgb: token::CHART_3, opacity: Opacity::Opaque, shift: 0i8 },
        ColorRole::InfoForeground => Paint { rgb: token::FOREGROUND, opacity: Opacity::Opaque, shift: 0i8 },
        ColorRole::InfoHover => Paint { rgb: token::CHART_3, opacity: Opacity::Opaque, shift: 4i8 },
        ColorRole::InfoActive => Paint { rgb: token::CHART_3, opacity: Opacity::Opaque, shift: -4i8 },
        ColorRole::Button => Paint { rgb: token::CARD, opacity: Opacity::Opaque, shift: 0i8 },
        ColorRole::ButtonForeground => Paint { rgb: token::FOREGROUND, opacity: Opacity::Opaque, shift: 0i8 },
        ColorRole::ButtonHover => Paint { rgb: token::ACCENT, opacity: Opacity::Opaque, shift: 0i8 },
        ColorRole::ButtonActive => Paint { rgb: token::MUTED, opacity: Opacity::Opaque, shift: 0i8 },
        ColorRole::ButtonPrimary => Paint { rgb: token::PRIMARY, opacity: Opacity::Opaque, shift: 0i8 },
        ColorRole::ButtonPrimaryForeground => Paint { rgb: token::PRIMARY_FOREGROUND, opacity: Opacity::Opaque, shift: 0i8 },
        ColorRole::ButtonPrimaryHover => Paint { rgb: token::PRIMARY, opacity: Opacity::Opaque, shift: 4i8 },
        ColorRole::ButtonPrimaryActive => Paint { rgb: token::PRIMARY, opacity: Opacity::Opaque, shift: -4i8 },
        ColorRole::ButtonSecondary => Paint { rgb: token::SECONDARY, opacity: Opacity::Opaque, shift: 0i8 },
        ColorRole::ButtonSecondaryForeground => Paint { rgb: token::FOREGROUND, opacity: Opacity::Opaque, shift: 0i8 },
        ColorRole::ButtonSecondaryHover => Paint { rgb: token::ACCENT, opacity: Opacity::Opaque, shift: 0i8 },
        ColorRole::ButtonSecondaryActive => Paint { rgb: token::MUTED, opacity: Opacity::Opaque, shift: 0i8 },
        ColorRole::ButtonDanger => Paint { rgb: token::DESTRUCTIVE, opacity: Opacity::Opaque, shift: 0i8 },
        ColorRole::ButtonDangerForeground => Paint { rgb: 0xFFFFFF, opacity: Opacity::Opaque, shift: 0i8 },
        ColorRole::ButtonDangerHover => Paint { rgb: token::DESTRUCTIVE, opacity: Opacity::Opaque, shift: 4i8 },
        ColorRole::ButtonDangerActive => Paint { rgb: token::DESTRUCTIVE, opacity: Opacity::Opaque, shift: -4i8 },
        ColorRole::ButtonSuccess => Paint { rgb: token::PRIMARY, opacity: Opacity::Opaque, shift: 0i8 },
        ColorRole::ButtonSuccessForeground => Paint { rgb: token::PRIMARY_FOREGROUND, opacity: Opacity::Opaque, shift: 0i8 },
        ColorRole::ButtonSuccessHover => Paint { rgb: token::PRIMARY, opacity: Opacity::Opaque, shift: 4i8 },
        ColorRole::ButtonSuccessActive => Paint { rgb: token::PRIMARY, opacity: Opacity::Opaque, shift: -4i8 },
        ColorRole::ButtonWarning => Paint { rgb: token::WARNING, opacity: Opacity::Opaque, shift: 0i8 },
        ColorRole::ButtonWarningForeground => Paint { rgb: token::BACKGROUND, opacity: Opacity::Opaque, shift: 0i8 },
        ColorRole::ButtonWarningHover => Paint { rgb: token::WARNING, opacity: Opacity::Opaque, shift: 4i8 },
        ColorRole::ButtonWarningActive => Paint { rgb: token::WARNING, opacity: Opacity::Opaque, shift: -4i8 },
        ColorRole::ButtonInfo => Paint { rgb: token::CHART_3, opacity: Opacity::Opaque, shift: 0i8 },
        ColorRole::ButtonInfoForeground => Paint { rgb: token::FOREGROUND, opacity: Opacity::Opaque, shift: 0i8 },
        ColorRole::ButtonInfoHover => Paint { rgb: token::CHART_3, opacity: Opacity::Opaque, shift: 4i8 },
        ColorRole::ButtonInfoActive => Paint { rgb: token::CHART_3, opacity: Opacity::Opaque, shift: -4i8 },
        ColorRole::Link => Paint { rgb: token::PRIMARY, opacity: Opacity::Opaque, shift: 0i8 },
        ColorRole::LinkHover => Paint { rgb: token::PRIMARY, opacity: Opacity::Opaque, shift: 6i8 },
        ColorRole::LinkActive => Paint { rgb: token::PRIMARY, opacity: Opacity::Opaque, shift: -6i8 },
        ColorRole::List => Paint { rgb: token::BACKGROUND, opacity: Opacity::Opaque, shift: 0i8 },
        ColorRole::ListEven => Paint { rgb: token::BACKGROUND, opacity: Opacity::Opaque, shift: 0i8 },
        ColorRole::ListHead => Paint { rgb: token::CARD, opacity: Opacity::Opaque, shift: 0i8 },
        ColorRole::ListHover => Paint { rgb: token::ACCENT, opacity: Opacity::Opaque, shift: 0i8 },
        ColorRole::ListActive => Paint { rgb: token::ACCENT, opacity: Opacity::Opaque, shift: 0i8 },
        ColorRole::ListActiveBorder => Paint { rgb: token::PRIMARY, opacity: Opacity::Opaque, shift: 0i8 },
        ColorRole::Table => Paint { rgb: token::BACKGROUND, opacity: Opacity::Opaque, shift: 0i8 },
        ColorRole::TableEven => Paint { rgb: token::BACKGROUND, opacity: Opacity::Opaque, shift: 0i8 },
        ColorRole::TableHead => Paint { rgb: token::CARD, opacity: Opacity::Opaque, shift: 0i8 },
        ColorRole::TableHeadForeground => Paint { rgb: token::MUTED_FOREGROUND, opacity: Opacity::Opaque, shift: 0i8 },
        ColorRole::TableFoot => Paint { rgb: token::CARD, opacity: Opacity::Opaque, shift: 0i8 },
        ColorRole::TableFootForeground => Paint { rgb: token::MUTED_FOREGROUND, opacity: Opacity::Opaque, shift: 0i8 },
        ColorRole::TableHover => Paint { rgb: token::ACCENT, opacity: Opacity::Opaque, shift: 0i8 },
        ColorRole::TableActive => Paint { rgb: token::ACCENT, opacity: Opacity::Opaque, shift: 0i8 },
        ColorRole::TableActiveBorder => Paint { rgb: token::PRIMARY, opacity: Opacity::Opaque, shift: 0i8 },
        ColorRole::TableRowBorder => Paint { rgb: 0xFFFFFF, opacity: Opacity::Byte(token::BORDER_ALPHA), shift: 0i8 },
        ColorRole::Tab => Paint { rgb: token::BACKGROUND, opacity: Opacity::Opaque, shift: 0i8 },
        ColorRole::TabBar => Paint { rgb: token::CARD, opacity: Opacity::Opaque, shift: 0i8 },
        ColorRole::TabBarSegmented => Paint { rgb: token::SECONDARY, opacity: Opacity::Opaque, shift: 0i8 },
        ColorRole::TabActive => Paint { rgb: token::ACCENT, opacity: Opacity::Opaque, shift: 0i8 },
        ColorRole::TabActiveForeground => Paint { rgb: token::ACCENT_FOREGROUND, opacity: Opacity::Opaque, shift: 0i8 },
        ColorRole::TabForeground => Paint { rgb: token::MUTED_FOREGROUND, opacity: Opacity::Opaque, shift: 0i8 },
        ColorRole::TitleBar => Paint { rgb: token::CARD, opacity: Opacity::Opaque, shift: 0i8 },
        ColorRole::TitleBarBorder => Paint { rgb: 0xFFFFFF, opacity: Opacity::Byte(token::BORDER_ALPHA), shift: 0i8 },
        ColorRole::StatusBar => Paint { rgb: token::BACKGROUND, opacity: Opacity::Opaque, shift: 0i8 },
        ColorRole::StatusBarBorder => Paint { rgb: 0xFFFFFF, opacity: Opacity::Byte(token::BORDER_ALPHA), shift: 0i8 },
        ColorRole::Tiles => Paint { rgb: token::BACKGROUND, opacity: Opacity::Opaque, shift: 0i8 },
        ColorRole::Sidebar => Paint { rgb: token::SIDEBAR, opacity: Opacity::Opaque, shift: 0i8 },
        ColorRole::SidebarForeground => Paint { rgb: token::MUTED_FOREGROUND, opacity: Opacity::Opaque, shift: 0i8 },
        ColorRole::SidebarAccent => Paint { rgb: token::ACCENT, opacity: Opacity::Opaque, shift: 0i8 },
        ColorRole::SidebarAccentForeground => Paint { rgb: token::ACCENT_FOREGROUND, opacity: Opacity::Opaque, shift: 0i8 },
        ColorRole::SidebarBorder => Paint { rgb: 0xFFFFFF, opacity: Opacity::Byte(token::BORDER_ALPHA), shift: 0i8 },
        ColorRole::SidebarPrimary => Paint { rgb: token::PRIMARY, opacity: Opacity::Opaque, shift: 0i8 },
        ColorRole::SidebarPrimaryForeground => Paint { rgb: token::PRIMARY_FOREGROUND, opacity: Opacity::Opaque, shift: 0i8 },
        ColorRole::Skeleton => Paint { rgb: token::MUTED, opacity: Opacity::Opaque, shift: 0i8 },
        ColorRole::SliderBar => Paint { rgb: token::PRIMARY, opacity: Opacity::Opaque, shift: 0i8 },
        ColorRole::SliderThumb => Paint { rgb: token::FOREGROUND, opacity: Opacity::Opaque, shift: 0i8 },
        ColorRole::ProgressBar => Paint { rgb: token::PRIMARY, opacity: Opacity::Opaque, shift: 0i8 },
        ColorRole::Switch => Paint { rgb: token::SECONDARY, opacity: Opacity::Opaque, shift: 0i8 },
        ColorRole::SwitchThumb => Paint { rgb: token::FOREGROUND, opacity: Opacity::Opaque, shift: 0i8 },
        ColorRole::Scrollbar => Paint { rgb: 0x000000, opacity: Opacity::Percent(0), shift: 0i8 },
        ColorRole::ScrollbarThumb => Paint { rgb: 0xFFFFFF, opacity: Opacity::Byte(token::SCROLLBAR_ALPHA), shift: 0i8 },
        ColorRole::ScrollbarThumbHover => Paint { rgb: 0xFFFFFF, opacity: Opacity::Percent(24), shift: 0i8 },
        ColorRole::DescriptionListLabel => Paint { rgb: token::CARD, opacity: Opacity::Opaque, shift: 0i8 },
        ColorRole::DescriptionListLabelForeground => Paint { rgb: token::MUTED_FOREGROUND, opacity: Opacity::Opaque, shift: 0i8 },
        ColorRole::Chart1 => Paint { rgb: token::PRIMARY, opacity: Opacity::Opaque, shift: 0i8 },
        ColorRole::Chart2 => Paint { rgb: token::CHART_2, opacity: Opacity::Opaque, shift: 0i8 },
        ColorRole::Chart3 => Paint { rgb: token::CHART_3, opacity: Opacity::Opaque, shift: 0i8 },
        ColorRole::Chart4 => Paint { rgb: token::CHART_4, opacity: Opacity::Opaque, shift: 0i8 },
        ColorRole::Chart5 => Paint { rgb: token::CHART_5, opacity: Opacity::Opaque, shift: 0i8 },
    }
}

/// The palette's paint for a role.
pub fn palette_paint(role: ColorRole) -> (r: Paint)
    ensures
        r == base_paint(role),
{
    match role {
        ColorRole::Background => Paint { rgb: token::BACKGROUND, opacity: Opacity::Opaque, shift: 0i8 },
        ColorRole::Foreground => Paint { rgb: token::FOREGROUND, opacity: Opacity::Opaque, shift: 0i8 },
        ColorRole::Border => Paint { rgb: 0xFFFFFF, opacity: Opacity::Byte(token::BORDER_ALPHA), shift: 0i8 },
        ColorRole::Input => Paint { rgb: 0xFFFFFF, opacity: Opacity::Byte(token::INPUT_ALPHA), shift: 0i8 },
        ColorRole::Ring => Paint { rgb: token::PRIMARY, opacity: Opacity::Opaque, shift: 0i8 },
        ColorRole::Selection => Paint { rgb: token::PRIMARY, opacity: Opacity::Percent(35), shift: 0i8 },
        ColorRole::Caret => Paint { rgb: token::FOREGROUND, opacity: Opacity::Opaque, shift: 0i8 },
        ColorRole::DragBorder => Paint { rgb: token::PRIMARY, opacity: Opacity::Opaque, shift: 0i8 },
        ColorRole::DropTarget => Paint { rgb: token::PRIMARY, opacity: Opacity::Percent(20), shift: 0i8 },
        ColorRole::Overlay => Paint { rgb: 0x000000, opacity: Opacity::Percent(60), shift: 0i8 },
        ColorRole::WindowBorder => Paint { rgb: 0xFFFFFF, opacity: Opacity::Byte(token::BORDER_ALPHA), shift: 0i8 },
        ColorRole::Popover => Paint { rgb: token::POPOVER, opacity: Opacity::Opaque, shift: 0i8 },
        ColorRole::PopoverForeground => Paint { rgb: token::FOREGROUND, opacity: Opacity::Opaque, shift: 0i8 },
        ColorRole::Accordion => Paint { rgb: token::CARD, opacity: Opacity::Opaque, shift: 0i8 },
        ColorRole::GroupBox => Paint { rgb: token::CARD, opacity: Opacity::Opaque, shift: 0i8 },
        ColorRole::GroupBoxForeground => Paint { rgb: token::FOREGROUND, opacity: Opacity::Opaque, shift: 0i8 },
        ColorRole::Primary => Paint { rgb: token::PRIMARY, opacity: Opacity::Opaque, shift: 0i8 },
        ColorRole::PrimaryForeground => Paint { rgb: token::PRIMARY_FOREGROUND, opacity: Opacity::Opaque, shift: 0i8 },
        ColorRole::PrimaryHover => Paint { rgb: token::PRIMARY, opacity: Opacity::Opaque, shift: 4i8 },
        ColorRole::PrimaryActive => Paint { rgb: token::PRIMARY, opacity: Opacity::Opaque, shift: -4i8 },
        ColorRole::Secondary => Paint { rgb: token::SECONDARY, opacity: Opacity::Opaque, shift: 0i8 },
        ColorRole::SecondaryForeground => Paint { rgb: token::FOREGROUND, opacity: Opacity::Opaque, shift: 0i8 },
        ColorRole::SecondaryHover => Paint { rgb: token::ACCENT, opacity: Opacity::Opaque, shift: 0i8 },
        ColorRole::SecondaryActive => Paint { rgb: token::MUTED, opacity: Opacity::Opaque, shift: 0i8 },
        ColorRole::Muted => Paint { rgb: token::MUTED, opacity: Opacity::Opaque, shift: 0i8 },
        ColorRole::MutedForeground => Paint { rgb: token::MUTED_FOREGROUND, opacity: Opacity::Opaque, shift: 0i8 },
        ColorRole::Accent => Paint { rgb: token::ACCENT, opacity: Opacity::Opaque, shift: 0i8 },
        ColorRole::AccentForeground => Paint { rgb: token::ACCENT_FOREGROUND, opacity: Opacity::Opaque, shift: 0i8 },
        ColorRole::Danger => Paint { rgb: token::DESTRUCTIVE, opacity: Opacity::Opaque, shift: 0i8 },
        ColorRole::DangerForeground => Paint { rgb: 0xFFFFFF, opacity: Opacity::Opaque, shift: 0i8 },
        ColorRole::DangerHover => Paint { rgb: token::DESTRUCTIVE, opacity: Opacity::Opaque, shift: 4i8 },
        ColorRole::DangerActive => Paint { rgb: token::DESTRUCTIVE, opacity: Opacity::Opaque, shift: -4i8 },
        ColorRole::Success => Paint { rgb: token::PRIMARY, opacity: Opacity::Opaque, shift: 0i8 },
        ColorRole::SuccessForeground => Paint { rgb: token::PRIMARY_FOREGROUND, opacity: Opacity::Opaque, shift: 0i8 },
        ColorRole::SuccessHover => Paint { rgb: token::PRIMARY, opacity: Opacity::Opaque, shift: 4i8 },
        ColorRole::SuccessActive => Paint { rgb: token::PRIMARY, opacity: Opacity::Opaque, shift: -4i8 },
        ColorRole::Warning => Paint { rgb: token::WARNING, opacity: Opacity::Opaque, shift: 0i8 },
        ColorRole::WarningForeground => Paint { rgb: token::BACKGROUND, opacity: Opacity::Opaque, shift: 0i8 },
        ColorRole::WarningHover => Paint { rgb: token::WARNING, opacity: Opacity::Opaque, shift: 4i8 },
        ColorRole::WarningActive => Paint { rgb: token::WARNING, opacity: Opacity::Opaque, shift: -4i8 },
        ColorRole::Info => Paint { rgb: token::CHART_3, opacity: Opacity::Opaque, shift: 0i8 },
        ColorRole::InfoForeground => Paint { rgb: token::FOREGROUND, opacity: Opacity::Opaque, shift: 0i8 },
        ColorRole::InfoHover => Paint { rgb: token::CHART_3, opacity: Opacity::Opaque, shift: 4i8 },
        ColorRole::InfoActive => Paint { rgb: token::CHART_3, opacity: Opacity::Opaque, shift: -4i8 },
        ColorRole::Button => Paint { rgb: token::CARD, opacity: Opacity::Opaque, shift: 0i8 },
        ColorRole::ButtonForeground => Paint { rgb: token::FOREGROUND, opacity: Opacity::Opaque, shift: 0i8 },
        ColorRole::ButtonHover => Paint { rgb: token::ACCENT, opacity: Opacity::Opaque, shift: 0i8 },
        ColorRole::ButtonActive => Paint { rgb: token::MUTED, opacity: Opacity::Opaque, shift: 0i8 },
        ColorRole::ButtonPrimary => Paint { rgb: token::PRIMARY, opacity: Opacity::Opaque, shift: 0i8 },
        ColorRole::ButtonPrimaryForeground => Paint { rgb: token::PRIMARY_FOREGROUND, opacity: Opacity::Opaque, shift: 0i8 },
        ColorRole::ButtonPrimaryHover => Paint { rgb: token::PRIMARY, opacity: Opacity::Opaque, shift: 4i8 },
        ColorRole::ButtonPrimaryActive => Paint { rgb: token::PRIMARY, opacity: Opacity::Opaque, shift: -4i8 },
        ColorRole::ButtonSecondary => Paint { rgb: token::SECONDARY, opacity: Opacity::Opaque, shift: 0i8 },
        ColorRole::ButtonSecondaryForeground => Paint { rgb: token::FOREGROUND, opacity: Opacity::Opaque, shift: 0i8 },
        ColorRole::ButtonSecondaryHover => Paint { rgb: token::ACCENT, opacity: Opacity::Opaque, shift: 0i8 },
        ColorRole::ButtonSecondaryActive => Paint { rgb: token::MUTED, opacity: Opacity::Opaque, shift: 0i8 },
        ColorRole::ButtonDanger => Paint { rgb: token::DESTRUCTIVE, opacity: Opacity::Opaque, shift: 0i8 },
        ColorRole::ButtonDangerForeground => Paint { rgb: 0xFFFFFF, opacity: Opacity::Opaque, shift: 0i8 },
        ColorRole::ButtonDangerHover => Paint { rgb: token::DESTRUCTIVE, opacity: Opacity::Opaque, shift: 4i8 },
        ColorRole::ButtonDangerActive => Paint { rgb: token::DESTRUCTIVE, opacity: Opacity::Opaque, shift: -4i8 },
        ColorRole::ButtonSuccess => Paint { rgb: token::PRIMARY, opacity: Opacity::Opaque, shift: 0i8 },
        ColorRole::ButtonSuccessForeground => Paint { rgb: token::PRIMARY_FOREGROUND, opacity: Opacity::Opaque, shift: 0i8 },
        ColorRole::ButtonSuccessHover => Paint { rgb: token::PRIMARY, opacity: Opacity::Opaque, shift: 4i8 },
        ColorRole::ButtonSuccessActive => Paint { rgb: token::PRIMARY, opacity: Opacity::Opaque, shift: -4i8 },
        ColorRole::ButtonWarning => Paint { rgb: token::WARNING, opacity: Opacity::Opaque, shift: 0i8 },
        ColorRole::ButtonWarningForeground => Paint { rgb: token::BACKGROUND, opacity: Opacity::Opaque, shift: 0i8 },
        ColorRole::ButtonWarningHover => Paint { rgb: token::WARNING, opacity: Opacity::Opaque, shift: 4i8 },
        ColorRole::ButtonWarningActive => Paint { rgb: token::WARNING, opacity: Opacity::Opaque, shift: -4i8 },
        ColorRole::ButtonInfo => Paint { rgb: token::CHART_3, opacity: Opacity::Opaque, shift: 0i8 },
        ColorRole::ButtonInfoForeground => Paint { rgb: token::FOREGROUND, opacity: Opacity::Opaque, shift: 0i8 },
        ColorRole::ButtonInfoHover => Paint { rgb: token::CHART_3, opacity: Opacity::Opaque, shift: 4i8 },
        ColorRole::ButtonInfoActive => Paint { rgb: token::CHART_3, opacity: Opacity::Opaque, shift: -4i8 },
        ColorRole::Link => Paint { rgb: token::PRIMARY, opacity: Opacity::Opaque, shift: 0i8 },
        ColorRole::LinkHover => Paint { rgb: token::PRIMARY, opacity: Opacity::Opaque, shift: 6i8 },
        ColorRole::LinkActive => Paint { rgb: token::PRIMARY, opacity: Opacity::Opaque, shift: -6i8 },
        ColorRole::List => Paint { rgb: token::BACKGROUND, opacity: Opacity::Opaque, shift: 0i8 },
        ColorRole::ListEven => Paint { rgb: token::BACKGROUND, opacity: Opacity::Opaque, shift: 0i8 },
        ColorRole::ListHead => Paint { rgb: token::CARD, opacity: Opacity::Opaque, shift: 0i8 },
        ColorRole::ListHover => Paint { rgb: token::ACCENT, opacity: Opacity::Opaque, shift: 0i8 },
        ColorRole::ListActive => Paint { rgb: token::ACCENT, opacity: Opacity::Opaque, shift: 0i8 },
        ColorRole::ListActiveBorder => Paint { rgb: token::PRIMARY, opacity: Opacity::Opaque, shift: 0i8 },
        ColorRole::Table => Paint { rgb: token::BACKGROUND, opacity: Opacity::Opaque, shift: 0i8 },
        ColorRole::TableEven => Paint { rgb: token::BACKGROUND, opacity: Opacity::Opaque, shift: 0i8 },
        ColorRole::TableHead => Paint { rgb: token::CARD, opacity: Opacity::Opaque, shift: 0i8 },
        ColorRole::TableHeadForeground => Paint { rgb: token::MUTED_FOREGROUND, opacity: Opacity::Opaque, shift: 0i8 },
        ColorRole::TableFoot => Paint { rgb: token::CARD, opacity: Opacity::Opaque, shift: 0i8 },
        ColorRole::TableFootForeground => Paint { rgb: token::MUTED_FOREGROUND, opacity: Opacity::Opaque, shift: 0i8 },
        ColorRole::TableHover => Paint { rgb: token::ACCENT, opacity: Opacity::Opaque, shift: 0i8 },
        ColorRole::TableActive => Paint { rgb: token::ACCENT, opacity: Opacity::Opaque, shift: 0i8 },
        ColorRole::TableActiveBorder => Paint { rgb: token::PRIMARY, opacity: Opacity::Opaque, shift: 0i8 },
        ColorRole::TableRowBorder => Paint { rgb: 0xFFFFFF, opacity: Opacity::Byte(token::BORDER_ALPHA), shift: 0i8 },
        ColorRole::Tab => Paint { rgb: token::BACKGROUND, opacity: Opacity::Opaque, shift: 0i8 },
        ColorRole::TabBar => Paint { rgb: token::CARD, opacity: Opacity::Opaque, shift: 0i8 },
        ColorRole::TabBarSegmented => Paint { rgb: token::SECONDARY, opacity: Opacity::Opaque, shift: 0i8 },
        ColorRole::TabActive => Paint { rgb: token::ACCENT, opacity: Opacity::Opaque, shift: 0i8 },
        ColorRole::TabActiveForeground => Paint { rgb: token::ACCENT_FOREGROUND, opacity: Opacity::Opaque, shift: 0i8 },
        ColorRole::TabForeground => Paint { rgb: token::MUTED_FOREGROUND, opacity: Opacity::Opaque, shift: 0i8 },
        ColorRole::TitleBar => Paint { rgb: token::CARD, opacity: Opacity::Opaque, shift: 0i8 },
        ColorRole::TitleBarBorder => Paint { rgb: 0xFFFFFF, opacity: Opacity::Byte(token::BORDER_ALPHA), shift: 0i8 },
        ColorRole::StatusBar => Paint { rgb: token::BACKGROUND, opacity: Opacity::Opaque, shift: 0i8 },
        ColorRole::StatusBarBorder => Paint { rgb: 0xFFFFFF, opacity: Opacity::Byte(token::BORDER_ALPHA), shift: 0i8 },
        ColorRole::Tiles => Paint { rgb: token::BACKGROUND, opacity: Opacity::Opaque, shift: 0i8 },
        ColorRole::Sidebar => Paint { rgb: token::SIDEBAR, opacity: Opacity::Opaque, shift: 0i8 },
        ColorRole::SidebarForeground => Paint { rgb: token::MUTED_FOREGROUND, opacity: Opacity::Opaque, shift: 0i8 },
        ColorRole::SidebarAccent => Paint { rgb: token::ACCENT, opacity: Opacity::Opaque, shift: 0i8 },
        ColorRole::SidebarAccentForeground => Paint { rgb: token::ACCENT_FOREGROUND, opacity: Opacity::Opaque, shift: 0i8 },
        ColorRole::SidebarBorder => Paint { rgb: 0xFFFFFF, opacity: Opacity::Byte(token::BORDER_ALPHA), shift: 0i8 },
        ColorRole::SidebarPrimary => Paint { rgb: token::PRIMARY, opacity: Opacity::Opaque, shift: 0i8 },
        ColorRole::SidebarPrimaryForeground => Paint { rgb: token::PRIMARY_FOREGROUND, opacity: Opacity::Opaque, shift: 0i8 },
        ColorRole::Skeleton => Paint { rgb: token::MUTED, opacity: Opacity::Opaque, shift: 0i8 },
        ColorRole::SliderBar => Paint { rgb: token::PRIMARY, opacity: Opacity::Opaque, shift: 0i8 },
        ColorRole::SliderThumb => Paint { rgb: token::FOREGROUND, opacity: Opacity::Opaque, shift: 0i8 },
        ColorRole::ProgressBar => Paint { rgb: token::PRIMARY, opacity: Opacity::Opaque, shift: 0i8 },
        ColorRole::Switch => Paint { rgb: token::SECONDARY, opacity: Opacity::Opaque, shift: 0i8 },
        ColorRole::SwitchThumb => Paint { rgb: token::FOREGROUND, opacity: Opacity::Opaque, shift: 0i8 },
        ColorRole::Scrollbar => Paint { rgb: 0x000000, opacity: Opacity::Percent(0), shift: 0i8 },
        ColorRole::ScrollbarThumb => Paint { rgb: 0xFFFFFF, opacity: Opacity::Byte(token::SCROLLBAR_ALPHA), shift: 0i8 },
        ColorRole::ScrollbarThumbHover => Paint { rgb: 0xFFFFFF, opacity: Opacity::Percent(24), shift: 0i8 },
        ColorRole::DescriptionListLabel => Paint { rgb: token::CARD, opacity: Opacity::Opaque, shift: 0i8 },
        ColorRole::DescriptionListLabelForeground => Paint { rgb: token::MUTED_FOREGROUND, opacity: Opacity::Opaque, shift: 0i8 },
        ColorRole::Chart1 => Paint { rgb: token::PRIMARY, opacity: Opacity::Opaque, shift: 0i8 },
        ColorRole::Chart2 => Paint { rgb: token::CHART_2, opacity: Opacity::Opaque, shift: 0i8 },
        ColorRole::Chart3 => Paint { rgb: token::CHART_3, opacity: Opacity::Opaque, shift: 0i8 },
        ColorRole::Chart4 => Paint { rgb: token::CHART_4, opacity: Opacity::Opaque, shift: 0i8 },
        ColorRole::Chart5 => Paint { rgb: token::CHART_5, opacity: Opacity::Opaque, shift: 0i8 },
    }
}

/// Whether the accent replaces a role's paint.
pub open spec fn accented(role: ColorRole) -> bool {
    match role {
        ColorRole::Primary => true,
        ColorRole::PrimaryForeground => true,
        ColorRole::PrimaryHover => true,
        ColorRole::PrimaryActive => true,
        ColorRole::Ring => true,
        ColorRole::DragBorder => true,
        ColorRole::Selection => true,
        ColorRole::ButtonPrimary => true,
        ColorRole::ButtonPrimaryForeground => true,
        ColorRole::ButtonPrimaryHover => true,
        ColorRole::ButtonPrimaryActive => true,
        ColorRole::Success => true,
        ColorRole::SuccessForeground => true,
        ColorRole::ButtonSuccess => true,
        ColorRole::ButtonSuccessForeground => true,
        ColorRole::SidebarPrimary => true,
        ColorRole::SidebarPrimaryForeground => true,
        ColorRole::SliderBar => true,
        ColorRole::ProgressBar => true,
        ColorRole::Link => true,
        ColorRole::ListActiveBorder => true,
        ColorRole::TableActiveBorder => true,
        ColorRole::Chart1 => true,
        ColorRole::Chart3 => true,
        ColorRole::Chart5 => true,
        _ => false,
    }
}

/// The paint an accent gives a role it replaces, from the accent's primary,
/// primary foreground, chart 3 and chart 5 colors.
pub open spec fn accent_paint(role: ColorRole, c: (u32, u32, u32, u32)) -> Paint {
    match role {
        ColorRole::Primary => Paint { rgb: c.0, opacity: Opacity::Opaque, shift: 0i8 },
        ColorRole::PrimaryForeground => Paint { rgb: c.1, opacity: Opacity::Opaque, shift: 0i8 },
        ColorRole::PrimaryHover => Paint { rgb: c.0, opacity: Opacity::Opaque, shift: 4i8 },
        ColorRole::PrimaryActive => Paint { rgb: c.0, opacity: Opacity::Opaque, shift: -4i8 },
        ColorRole::Ring => Paint { rgb: c.0, opacity: Opacity::Opaque, shift: 0i8 },
        ColorRole::DragBorder => Paint { rgb: c.0, opacity: Opacity::Opaque, shift: 0i8 },
        ColorRole::Selection => Paint { rgb: c.0, opacity: Opacity::Percent(35), shift: 0i8 },
        ColorRole::ButtonPrimary => Paint { rgb: c.0, opacity: Opacity::Opaque, shift: 0i8 },
        ColorRole::ButtonPrimaryForeground => Paint { rgb: c.1, opacity: Opacity::Opaque, shift: 0i8 },
        ColorRole::ButtonPrimaryHover => Paint { rgb: c.0, opacity: Opacity::Opaque, shift: 4i8 },
        ColorRole::ButtonPrimaryActive => Paint { rgb: c.0, opacity: Opacity::Opaque, shift: -4i8 },
        ColorRole::Success => Paint { rgb: c.0, opacity: Opacity::Opaque, shift: 0i8 },
        ColorRole::SuccessForeground => Paint { rgb: c.1, opacity: Opacity::Opaque, shift: 0i8 },
        ColorRole::ButtonSuccess => Paint { rgb: c.0, opacity: Opacity::Opaque, shift: 0i8 },
        ColorRole::ButtonSuccessForeground => Paint { rgb: c.1, opacity: Opacity::Opaque, shift: 0i8 },
        ColorRole::SidebarPrimary => Paint { rgb: c.0, opacity: Opacity::Opaque, shift: 0i8 },
        ColorRole::SidebarPrimaryForeground => Paint { rgb: c.1, opacity: Opacity::Opaque, shift: 0i8 },
        ColorRole::SliderBar => Paint { rgb: c.0, opacity: Opacity::Opaque, shift: 0i8 },
        ColorRole::ProgressBar => Paint { rgb: c.0, opacity: Opacity::Opaque, shift: 0i8 },
        ColorRole::Link => Paint { rgb: c.0, opacity: Opacity::Opaque, shift: 0i8 },
        ColorRole::ListActiveBorder => Paint { rgb: c.0, opacity: Opacity::Opaque, shift: 0i8 },
        ColorRole::TableActiveBorder => Paint { rgb: c.0, opacity: Opacity::Opaque, shift: 0i8 },
        ColorRole::Chart1 => Paint { rgb: c.0, opacity: Opacity::Opaque, shift: 0i8 },
        ColorRole::Chart3 => Paint { rgb: c.2, opacity: Opacity::Opaque, shift: 0i8 },
        ColorRole::Chart5 => Paint { rgb: c.3, opacity: Opacity::Opaque, shift: 0i8 },
        _ => base_paint(role),
    }
}

/// The paint a role takes once the accent named `accent` is applied over
/// the palette: the accent's colors on the roles it replaces, the palette on
/// the others. An unknown name applies the default accent.
pub open spec fn themed(role: ColorRole, accent: Seq<char>) -> Paint {
    if accented(role) {
        accent_paint(role, accent_of(ACCENTS@, accent, 0))
    } else {
        base_paint(role)
    }
}

/// The paint a role takes under the named accent.
pub fn themed_paint(role: ColorRole, accent: &str) -> (r: Paint)
    ensures
        r == themed(role, accent@),
{
    let c = accent_colors(accent);
    match role {
        ColorRole::Primary => Paint { rgb: c.0, opacity: Opacity::Opaque, shift: 0i8 },
        ColorRole::PrimaryForeground => Paint { rgb: c.1, opacity: Opacity::Opaque, shift: 0i8 },
        ColorRole::PrimaryHover => Paint { rgb: c.0, opacity: Opacity::Opaque, shift: 4i8 },
        ColorRole::PrimaryActive => Paint { rgb: c.0, opacity: Opacity::Opaque, shift: -4i8 },
        ColorRole::Ring => Paint { rgb: c.0, opacity: Opacity::Opaque, shift: 0i8 },
        ColorRole::DragBorder => Paint { rgb: c.0, opacity: Opacity::Opaque, shift: 0i8 },
        ColorRole::Selection => Paint { rgb: c.0, opacity: Opacity::Percent(35), shift: 0i8 },
        ColorRole::ButtonPrimary => Paint { rgb: c.0, opacity: Opacity::Opaque, shift: 0i8 },
        ColorRole::ButtonPrimaryForeground => Paint { rgb: c.1, opacity: Opacity::Opaque, shift: 0i8 },
        ColorRole::ButtonPrimaryHover => Paint { rgb: c.0, opacity: Opacity::Opaque, shift: 4i8 },
        ColorRole::ButtonPrimaryActive => Paint { rgb: c.0, opacity: Opacity::Opaque, shift: -4i8 },
        ColorRole::Success => Paint { rgb: c.0, opacity: Opacity::Opaque, shift: 0i8 },
        ColorRole::SuccessForeground => Paint { rgb: c.1, opacity: Opacity::Opaque, shift: 0i8 },
        ColorRole::ButtonSuccess => Paint { rgb: c.0, opacity: Opacity::Opaque, shift: 0i8 },
        ColorRole::ButtonSuccessForeground => Paint { rgb: c.1, opacity: Opacity::Opaque, shift: 0i8 },
        ColorRole::SidebarPrimary => Paint { rgb: c.0, opacity: Opacity::Opaque, shift: 0i8 },
        ColorRole::SidebarPrimaryForeground => Paint { rgb: c.1, opacity: Opacity::Opaque, shift: 0i8 },
        ColorRole::SliderBar => Paint { rgb: c.0, opacity: Opacity::Opaque, shift: 0i8 },
        ColorRole::ProgressBar => Paint { rgb: c.0, opacity: Opacity::Opaque, shift: 0i8 },
        ColorRole::Link => Paint { rgb: c.0, opacity: Opacity::Opaque, shift: 0i8 },
        ColorRole::ListActiveBorder => Paint { rgb: c.0, opacity: Opacity::Opaque, shift: 0i8 },
        ColorRole::TableActiveBorder => Paint { rgb: c.0, opacity: Opacity::Opaque, shift: 0i8 },
        ColorRole::Chart1 => Paint { rgb: c.0, opacity: Opacity::Opaque, shift: 0i8 },
        ColorRole::Chart3 => Paint { rgb: c.2, opacity: Opacity::Opaque, shift: 0i8 },
        ColorRole::Chart5 => Paint { rgb: c.3, opacity: Opacity::Opaque, shift: 0i8 },
        _ => palette_paint(role),
    }
}

/// Applying an accent keeps the neutral palette: a role the accent does not
/// replace has its palette paint under every accent.
pub proof fn lemma_accent_keeps_neutral_palette(role: ColorRole, a: Seq<char>, b: Seq<char>)
    requires
        !accented(role),
    ensures
        themed(role, a) == base_paint(role),
        themed(role, a) == themed(role, b),
{
}

/// The default accent reproduces the palette: under a name no preset has,
/// every role keeps its palette paint.
pub proof fn lemma_default_accent_is_the_palette(role: ColorRole, name: Seq<char>)
    requires
        forall|i: int| 0 <= i < ACCENTS@.len() ==> #[trigger] ACCENTS@[i].0@ != name,
    ensures
        themed(role, name) == base_paint(role),
{
    assert(accent_of(ACCENTS@, name, 0) == (token::PRIMARY, token::PRIMARY_FOREGROUND, token::CHART_3, token::CHART_5)) by {
        assert(ACCENTS@[0].0@ != name);
        assert(ACCENTS@[1].0@ != name);
        assert(ACCENTS@[2].0@ != name);
        assert(ACCENTS@[3].0@ != name);
        reveal_with_fuel(accent_of, 5);
    }
}

/// The accent paints the roles that follow the primary color alike: under
/// every accent, primary buttons, success, the sidebar's primary, sliders,
/// progress bars, links, active borders, rings, drag borders and the first
/// chart series take exactly the primary paint, their foregrounds the primary
/// foreground, and the hover and pressed button states those of the primary.
pub proof fn law_primary_roles_follow_the_accent(accent: Seq<char>)
    ensures
        themed(ColorRole::ButtonPrimary, accent) == themed(ColorRole::Primary, accent),
        themed(ColorRole::Ring, accent) == themed(ColorRole::Primary, accent),
        themed(ColorRole::DragBorder, accent) == themed(ColorRole::Primary, accent),
        themed(ColorRole::Success, accent) == themed(ColorRole::Primary, accent),
        themed(ColorRole::ButtonSuccess, accent) == themed(ColorRole::Primary, accent),
        themed(ColorRole::SidebarPrimary, accent) == themed(ColorRole::Primary, accent),
        themed(ColorRole::SliderBar, accent) == themed(ColorRole::Primary, accent),
        themed(ColorRole::ProgressBar, accent) == themed(ColorRole::Primary, accent),
        themed(ColorRole::Link, accent) == themed(ColorRole::Primary, accent),
        themed(ColorRole::ListActiveBorder, accent) == themed(ColorRole::Primary, accent),
        themed(ColorRole::TableActiveBorder, accent) == themed(ColorRole::Primary, accent),
        themed(ColorRole::Chart1, accent) == themed(ColorRole::Primary, accent),
        themed(ColorRole::ButtonPrimaryForeground, accent) == themed(ColorRole::PrimaryForeground, accent),
        themed(ColorRole::SuccessForeground, accent) == themed(ColorRole::PrimaryForeground, accent),
        themed(ColorRole::ButtonSuccessForeground, accent) == themed(ColorRole::PrimaryForeground, accent),
        themed(ColorRole::SidebarPrimaryForeground, accent) == themed(ColorRole::PrimaryForeground, accent),
        themed(ColorRole::ButtonPrimaryHover, accent) == themed(ColorRole::PrimaryHover, accent),
        themed(ColorRole::ButtonPrimaryActive, accent) == themed(ColorRole::PrimaryActive, accent),
        themed(ColorRole::Primary, accent).opacity == Opacity::Opaque,
        themed(ColorRole::Primary, accent).shift == 0,
{
}

/// Choosing a preset paints the primary roles with that preset's colors:
/// its primary on the primary paint, its primary foreground on the
/// foreground, its chart colors on charts 3 and 5.
pub proof fn law_preset_accent_colors(i: int)
    requires
        0 <= i < ACCENTS@.len(),
    ensures
        themed(ColorRole::Primary, ACCENTS@[i].0@).rgb == ACCENTS@[i].1,
        themed(ColorRole::PrimaryForeground, ACCENTS@[i].0@).rgb == ACCENTS@[i].2,
        themed(ColorRole::Chart3, ACCENTS@[i].0@).rgb == ACCENTS@[i].3,
        themed(ColorRole::Chart5, ACCENTS@[i].0@).rgb == ACCENTS@[i].4,
{
    reveal_strlit("emerald");
    reveal_strlit("gold");
    reveal_strlit("slate");
    reveal_strlit("teal");
    let name = ACCENTS@[i].0@;
    assert(ACCENTS@[0].0@ == "emerald"@);
    assert(ACCENTS@[1].0@ == "gold"@);
    assert(ACCENTS@[2].0@ == "slate"@);
    assert(ACCENTS@[3].0@ == "teal"@);
    assert(("emerald"@)[0] != ("gold"@)[0]);
    assert(("emerald"@)[0] != ("slate"@)[0]);
    assert(("emerald"@)[0] != ("teal"@)[0]);
    assert(("gold"@)[0] != ("slate"@)[0]);
    assert(("gold"@)[0] != ("teal"@)[0]);
    assert(("slate"@)[0] != ("teal"@)[0]);
    reveal_with_fuel(accent_of, 5);
    assert(accent_of(ACCENTS@, name, 0) == (ACCENTS@[i].1, ACCENTS@[i].2, ACCENTS@[i].3, ACCENTS@[i].4));
}

} // verus!
