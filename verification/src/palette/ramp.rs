//! Per-loader single-hue ramps, darkest first. Index 0..3 is the shading
//! scale of the pixel crystal artwork.
use vstd::prelude::*;

verus! {

pub const VANILLA: [u32; 4] = [0x104F29, 0x21763C, 0x3F9C53, 0x77C77E];
pub const FABRIC: [u32; 4] = [0x47413C, 0x6A625A, 0x8E8479, 0xBAAFA2];
pub const FORGE: [u32; 4] = [0x303554, 0x47527F, 0x6374AD, 0x8BA0D7];
pub const NEOFORGE: [u32; 4] = [0x7F4321, 0xAA5D28, 0xD48140, 0xECAF79];

} // verus!
