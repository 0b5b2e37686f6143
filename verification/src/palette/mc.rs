//! Minecraft material colors, as `0xRRGGBB`.
use vstd::prelude::*;

verus! {

pub const GRASS: u32 = 0x4A893B; // oklch(.57 .13 140)
pub const GRASS_DARK: u32 = 0x316A23; // oklch(.47 .12 140)
pub const DIRT: u32 = 0x613F27; // oklch(.4 .06 55)
pub const DIRT_DARK: u32 = 0x442916; // oklch(.31 .05 55)
pub const STONE: u32 = 0x6B6C6A; // oklch(.53 .004 120)
pub const STONE_DARK: u32 = 0x4D4D4B; // oklch(.42 .004 120)
pub const SAND: u32 = 0xC2A464; // oklch(.73 .09 85)
pub const SAND_DARK: u32 = 0x9F8242; // oklch(.62 .09 85)
pub const WOOD: u32 = 0x754E2E; // oklch(.46 .07 60)
pub const WOOD_DARK: u32 = 0x513217; // oklch(.35 .06 60)
pub const NETHER: u32 = 0x6E282B; // oklch(.38 .1 20)
pub const NETHER_DARK: u32 = 0x4C0F15; // oklch(.28 .09 20)
pub const LAVA: u32 = 0xF3680F; // oklch(.68 .19 45)
pub const END: u32 = 0x44374F; // oklch(.36 .045 310)
pub const END_DARK: u32 = 0x281B32; // oklch(.25 .045 310)

} // verus!
