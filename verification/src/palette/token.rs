//! The launcher's color tokens, as `0xRRGGBB`, converted offline from the
//! OKLCH design values noted beside each.
use vstd::prelude::*;

verus! {

pub const BACKGROUND: u32 = 0x090B09; // oklch(.145 .005 150)
pub const FOREGROUND: u32 = 0xEFF1EF; // oklch(.955 .003 150)
pub const CARD: u32 = 0x121512; // oklch(.19 .006 150)
pub const POPOVER: u32 = 0x161917; // oklch(.21 .007 150)
pub const PRIMARY: u32 = 0x349D62; // oklch(.62 .13 155)
pub const PRIMARY_FOREGROUND: u32 = 0x04130A; // oklch(.17 .03 155)
pub const LAUNCH: u32 = 0x2B5139; // oklch(.4 .06 155)
pub const LAUNCH_FOREGROUND: u32 = 0xE6EDE8; // oklch(.94 .01 155)
pub const SECONDARY: u32 = 0x1D201D; // oklch(.24 .008 150)
pub const MUTED: u32 = 0x191B19; // oklch(.22 .006 150)
pub const MUTED_FOREGROUND: u32 = 0x979D98; // oklch(.69 .01 150)
pub const MUTED_FOREGROUND_SUBTLE: u32 = 0x7C827D; // oklch(.6 .01 150)
pub const ACCENT: u32 = 0x212522; // oklch(.26 .009 150)
pub const ACCENT_FOREGROUND: u32 = 0xF4F6F4; // oklch(.97 .003 150)
pub const DESTRUCTIVE: u32 = 0xF05653; // oklch(.66 .19 25)
pub const SIDEBAR: u32 = 0x0F110F; // oklch(.175 .005 150)
pub const CHART_2: u32 = 0x979D98; // oklch(.69 .01 150)
pub const CHART_3: u32 = 0x3A6343; // oklch(.46 .07 150)
pub const CHART_4: u32 = 0xDCAF61; // oklch(.78 .11 80)
pub const CHART_5: u32 = 0x3E5B44; // oklch(.44 .05 150)
pub const GOLD: u32 = 0xDCAF61; // oklch(.78 .11 80)

/// `red-500`, used only for the Aphanite flame mark.
pub const FLAME: u32 = 0xEF4444;
/// `yellow-500`, used only for warning copy and warning log lines.
pub const WARNING: u32 = 0xEAB308;
/// Terminal-style surface behind log and crash output (`bg-black/40`).
pub const TERMINAL: u32 = 0x000000;

/// `--border: oklch(1 0 0 / 9%)`
pub const BORDER_ALPHA: u8 = 0x17;
/// `--input: oklch(1 0 0 / 12%)`
pub const INPUT_ALPHA: u8 = 0x1F;
/// Scrollbar thumb, `oklch(1 0 0 / 14%)`.
pub const SCROLLBAR_ALPHA: u8 = 0x24;

} // verus!
