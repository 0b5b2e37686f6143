//! Color tokens, accent presets, and color packing.
use vstd::prelude::*;

pub mod mc;
pub mod ramp;
pub mod token;

use crate::text::str_eq;

verus! {

/// Accent presets: name, primary, primary foreground, chart 3, chart 5.
pub const ACCENTS: [(&'static str, u32, u32, u32, u32); 4] = [
    ("emerald", 0x349D62, 0x04130A, 0x3A6343, 0x3E5B44),
    ("gold", 0xDCAF61, 0x1F1401, 0x93744A, 0x7B5C3E),
    ("slate", 0x9BA6B1, 0x070E16, 0x627080, 0x535F6C),
    ("teal", 0x33A6A0, 0x00100F, 0x366E6B, 0x3D5F5D),
];

/// The primary color of the first preset named `name`, or the default primary
/// when no preset has that name.
pub open spec fn accent_primary(presets: Seq<(&'static str, u32, u32, u32, u32)>, name: Seq<char>, i: int) -> u32
    decreases presets.len() - i,
{
    if i < 0 || i >= presets.len() {
        token::PRIMARY
    } else if presets[i].0@ == name {
        presets[i].1
    } else {
        accent_primary(presets, name, i + 1)
    }
}

/// The accent swatch dot rendered by the appearance settings.
pub fn accent_swatch(name: &str) -> (r: u32)
    ensures
        r == accent_primary(ACCENTS@, name@, 0),
{
    let presets = ACCENTS;
    let mut i: usize = 0;
    while i < 4
        invariant
            i <= 4,
            presets@ == ACCENTS@,
            accent_primary(ACCENTS@, name@, 0) == accent_primary(ACCENTS@, name@, i as int),
        decreases 4 - i,
    {
        if str_eq(presets[i].0, name) {
            return presets[i].1;
        }
        i += 1;
    }
    token::PRIMARY
}

/// The colors of the first preset named `name`: primary, primary
/// foreground, chart 3 and chart 5; the default palette's when no preset has
/// that name.
pub open spec fn accent_of(presets: Seq<(&'static str, u32, u32, u32, u32)>, name: Seq<char>, i: int) -> (u32, u32, u32, u32)
    decreases presets.len() - i,
{
    if i < 0 || i >= presets.len() {
        (token::PRIMARY, token::PRIMARY_FOREGROUND, token::CHART_3, token::CHART_5)
    } else if presets[i].0@ == name {
        (presets[i].1, presets[i].2, presets[i].3, presets[i].4)
    } else {
        accent_of(presets, name, i + 1)
    }
}

/// The accent colors the theme applies for a preset name.
pub fn accent_colors(name: &str) -> (r: (u32, u32, u32, u32))
    ensures
        r == accent_of(ACCENTS@, name@, 0),
        r.0 == accent_primary(ACCENTS@, name@, 0),
{
    let presets = ACCENTS;
    let mut i: usize = 0;
    while i < 4
        invariant
            i <= 4,
            presets@ == ACCENTS@,
            accent_of(ACCENTS@, name@, 0) == accent_of(ACCENTS@, name@, i as int),
            accent_primary(ACCENTS@, name@, 0) == accent_primary(ACCENTS@, name@, i as int),
        decreases 4 - i,
    {
        if str_eq(presets[i].0, name) {
            let p = presets[i];
            return (p.1, p.2, p.3, p.4);
        }
        i += 1;
    }
    (token::PRIMARY, token::PRIMARY_FOREGROUND, token::CHART_3, token::CHART_5)
}

/// `rgb` (its low 24 bits) under the alpha byte: `0xAARRGGBB`.
pub open spec fn packed(rgb: u32, alpha: u8) -> int {
    alpha * 0x100_0000 + rgb % 0x100_0000
}

/// Packs RGB and alpha as `0xAARRGGBB`, the order GPUI color values take.
pub fn rgba_hex(rgb: u32, alpha: u8) -> (r: u32)
    ensures
        r == packed(rgb, alpha),
{
    let a = alpha as u32;
    let r = (a << 24u32) | (rgb & 0x00FF_FFFFu32);
    assert(r == a * 0x100_0000 + rgb % 0x100_0000) by (bit_vector)
        requires
            a < 256,
            r == (a << 24u32) | (rgb & 0x00FF_FFFFu32),
    ;
    r
}

/// The red, green and blue bytes of `0xRRGGBB` (higher bits are ignored).
pub fn channels(rgb: u32) -> (r: (u8, u8, u8))
    ensures
        r.0 == (rgb / 0x1_0000) % 0x100,
        r.1 == (rgb / 0x100) % 0x100,
        r.2 == rgb % 0x100,
{
    let red = (rgb >> 16u32) & 0xffu32;
    let green = (rgb >> 8u32) & 0xffu32;
    let blue = rgb & 0xffu32;
    assert(red == (rgb / 0x1_0000) % 0x100 && green == (rgb / 0x100) % 0x100 && blue == rgb % 0x100) by (bit_vector)
        requires
            red == (rgb >> 16u32) & 0xffu32,
            green == (rgb >> 8u32) & 0xffu32,
            blue == rgb & 0xffu32,
    ;
    (red as u8, green as u8, blue as u8)
}

} // verus!
