use phanerite::components::instance_icon::{close_holes, crystal_cells, hash, next_random_bits, ramp, rasterize, Prism};
use phanerite::state::Loader;

fn prism(w: i32, h: i32, lean: i32, shade: i32, gap: i32) -> Prism {
    Prism { w, h, lean, shade, gap, x: 0 }
}

#[test]
fn seed_hash_is_fnv1a_over_utf16_units() {
    assert_eq!(hash(""), 2166136261);
    assert_eq!(hash("a"), 0xE40C292C);
    assert_eq!(hash("inst-fog"), 101902780);
    assert_eq!(hash("é"), 1812687940);
    // A character outside the basic plane counts as its two surrogate units.
    assert_eq!(hash("\u{1F525}"), 2955731255);
}

#[test]
fn random_stream_follows_mulberry32() {
    let mut seed: u32 = 0;
    assert_eq!(next_random_bits(&mut seed), 1144304738);
    assert_eq!(seed, 1831565813);
    assert_eq!(next_random_bits(&mut seed), 1416247);
    assert_eq!(seed, 3663131626);
    assert_eq!(next_random_bits(&mut seed), 958946056);
    assert_eq!(seed, 1199730143);
    assert_eq!(next_random_bits(&mut seed), 627933444);
    assert_eq!(seed, 3031295956);
    let mut seed = hash("inst-fog");
    assert_eq!(next_random_bits(&mut seed), 179359437);
    assert_eq!(seed, 1933468593);
    let mut wrap: u32 = u32::MAX;
    next_random_bits(&mut wrap);
    assert_eq!(wrap, 0x6D2B_79F4);
}

#[test]
fn loader_ramps_are_the_palette_ramps() {
    assert_eq!(ramp(Loader::Vanilla), [0x104F29, 0x21763C, 0x3F9C53, 0x77C77E]);
    assert_eq!(ramp(Loader::Fabric), [0x47413C, 0x6A625A, 0x8E8479, 0xBAAFA2]);
    assert_eq!(ramp(Loader::Forge), [0x303554, 0x47527F, 0x6374AD, 0x8BA0D7]);
    assert_eq!(ramp(Loader::NeoForge), [0x7F4321, 0xAA5D28, 0xD48140, 0xECAF79]);
}

#[test]
fn enclosed_holes_take_the_darkest_painted_neighbour() {
    let mut cells: Vec<Option<usize>> = vec![None, None, None, None, None, None, Some(2), Some(0), Some(2), None, None, Some(2), None, Some(2), None, None, Some(2), Some(2), Some(2), None, None, None, None, None, None];
    close_holes(&mut cells, 5);
    assert_eq!(cells, vec![None, None, None, None, None, None, Some(2), Some(0), Some(2), None, None, Some(2), Some(0), Some(2), None, None, Some(2), Some(2), Some(2), None, None, None, None, None, None]);
    assert_eq!(cells[12], Some(0));
    // A hole reached from the border stays open.
    let mut cells: Vec<Option<usize>> = vec![None, None, None, None, None, None, Some(2), None, Some(2), None, None, Some(2), None, Some(2), None, None, Some(2), Some(2), Some(2), None, None, None, None, None, None];
    close_holes(&mut cells, 5);
    assert_eq!(cells, vec![None, None, None, None, None, None, Some(2), None, Some(2), None, None, Some(2), None, Some(2), None, None, Some(2), Some(2), Some(2), None, None, None, None, None, None]);
    assert_eq!(cells[12], None);
}

#[test]
fn a_hole_with_only_bright_neighbours_is_capped_at_tone_one() {
    let mut cells: Vec<Option<usize>> = vec![Some(3), Some(3), Some(3), Some(3), None, Some(3), Some(3), Some(3), Some(3)];
    close_holes(&mut cells, 3);
    assert_eq!(cells, vec![Some(3), Some(3), Some(3), Some(3), Some(1), Some(3), Some(3), Some(3), Some(3)]);
    let mut empty: Vec<Option<usize>> = Vec::new();
    close_holes(&mut empty, 0);
    assert!(empty.is_empty());
}

#[test]
fn rasterize_lays_out_and_paints_by_height() {
    let mut prisms = vec![prism(2, 4, 0, 0, 0), prism(3, 6, 1, 1, 1), prism(1, 3, -1, 0, 0)];
    let (entries, min_x, min_y, width, height) = rasterize(&mut prisms);
    let xs: Vec<i32> = prisms.iter().map(|p| p.x).collect();
    assert_eq!(xs, vec![0, 1, 4]);
    let mut entries = entries;
    entries.sort();
    assert_eq!(entries, vec![((0, -3), 3), ((0, -2), 3), ((0, -1), 2), ((0, 0), 2), ((1, -1), 2), ((1, 0), 2), ((2, -4), 2), ((2, -3), 2), ((2, -2), 2), ((2, -1), 1), ((2, 0), 1), ((3, -5), 2), ((3, -4), 1), ((3, -3), 1), ((3, -2), 1), ((3, -1), 0), ((3, 0), 0), ((4, -3), 0), ((4, -2), 0), ((4, -1), 3), ((4, 0), 2)]);
    assert_eq!((min_x, min_y, width, height), (0, -5, 5, 6));
}

#[test]
fn crystal_of_three_prisms_matches_the_reference_drawing() {
    let cells = crystal_cells(vec![prism(2, 4, 0, 0, 0), prism(3, 6, 1, 1, 1), prism(1, 3, -1, 0, 0)], 9, 6);
    assert_eq!(cells, vec![None, None, None, None, None, None, None, None, None, None, None, None, None, None, None, None, None, None, None, None, None, None, None, Some(2), None, None, None, None, None, None, None, Some(2), Some(1), None, None, None, None, None, Some(3), None, Some(2), Some(1), Some(0), None, None, None, None, Some(3), None, Some(2), Some(1), Some(0), None, None, None, None, Some(2), Some(2), Some(1), Some(0), Some(3), None, None, None, None, Some(2), Some(2), Some(1), Some(0), Some(2), None, None, None, None, None, None, None, None, None, None, None]);
}

#[test]
fn oversized_crystals_drop_their_shortest_prisms() {
    let cells = crystal_cells(vec![prism(3, 9, 1, 0, 1), prism(3, 8, -1, 1, 1), prism(2, 7, 0, 0, 0)], 9, 6);
    assert_eq!(cells, vec![None, None, None, Some(3), None, None, None, None, None, None, None, Some(3), Some(2), None, None, None, None, None, None, None, Some(3), Some(2), Some(1), None, Some(3), None, None, None, Some(3), Some(2), Some(1), Some(1), Some(0), Some(3), None, None, None, Some(3), Some(2), Some(1), Some(1), Some(0), Some(2), Some(1), None, None, Some(3), Some(2), Some(1), Some(1), Some(0), Some(2), Some(1), None, None, Some(3), Some(2), Some(1), Some(1), Some(0), Some(2), Some(1), None, Some(3), Some(2), Some(1), Some(2), Some(1), Some(0), Some(2), Some(1), None, Some(3), Some(2), Some(1), Some(2), Some(1), Some(0), Some(2), Some(1), None]);
}

#[test]
fn a_lone_prism_is_raised_to_the_peak() {
    let cells = crystal_cells(vec![prism(2, 3, 0, 0, 0)], 9, 6);
    assert_eq!(cells, vec![None, None, None, None, None, None, None, None, None, None, None, None, None, None, None, None, None, None, None, None, None, Some(3), None, None, None, None, None, None, None, None, Some(3), None, None, None, None, None, None, None, None, Some(2), Some(1), None, None, None, None, None, None, None, Some(2), Some(1), None, None, None, None, None, None, None, Some(2), Some(1), None, None, None, None, None, None, None, Some(2), Some(1), None, None, None, None, None, None, None, None, None, None, None, None, None]);
}

#[test]
fn wide_crystals_drop_prisms_until_they_fit() {
    let cells = crystal_cells(vec![prism(3, 5, 1, 0, 1), prism(3, 5, 1, 0, 1), prism(3, 6, -1, 0, 1), prism(3, 4, 0, 1, 1)], 9, 6);
    assert_eq!(cells, vec![None, None, None, None, None, None, None, None, None, None, None, None, None, None, None, None, None, None, None, None, None, None, None, None, None, Some(3), None, None, None, Some(3), None, None, Some(3), Some(3), Some(2), None, None, Some(3), Some(2), None, Some(3), Some(2), Some(3), Some(2), Some(1), None, Some(3), Some(2), Some(1), Some(3), Some(2), Some(3), Some(2), Some(1), Some(3), Some(2), Some(1), Some(3), Some(2), Some(1), Some(3), Some(2), Some(1), Some(3), Some(2), Some(1), Some(3), Some(2), Some(1), Some(3), Some(2), Some(1), None, None, None, None, None, None, None, None, None]);
}
