use mirror_arena::fixed::{FixedScalar, Rect, Vec2};
use mirror_arena::map::{BaseMap, MAP_HEIGHT, MAP_WIDTH};
use mirror_arena::tiles::MapTile;

const ALL_TILES: [MapTile; 8] = [
    MapTile::Empty,
    MapTile::Block,
    MapTile::UpMirror,
    MapTile::DownMirror,
    MapTile::HorizMirror,
    MapTile::VertMirror,
    MapTile::HorizPipe,
    MapTile::VertPipe,
];

fn empty_grid() -> Vec<Vec<MapTile>> {
    let mut grid = Vec::new();
    for _ in 0..MAP_HEIGHT {
        grid.push(vec![MapTile::Empty; MAP_WIDTH]);
    }
    grid
}

fn empty_map() -> BaseMap {
    BaseMap::from_raw(&empty_grid(), [(1, 1), (1, 16), (26, 1), (26, 16)])
}

fn px(v: i32) -> FixedScalar {
    FixedScalar::from_int(v)
}

#[test]
fn tile_codes_round_trip() {
    for t in ALL_TILES {
        assert_eq!(MapTile::from_u8(t.to_u8()), t);
        assert!(t.to_u8() < 8);
    }
    // The top bits beyond the low three are masked away.
    assert_eq!(MapTile::from_u8(0x08), MapTile::Empty);
    assert_eq!(MapTile::from_u8(0xff), MapTile::VertPipe);
}

#[test]
fn packing_round_trips_every_tile() {
    for t in ALL_TILES {
        // Both nibble halves: an even and an odd x-index.
        for x in [4usize, 5usize] {
            let mut m = empty_map();
            m.set(x, 7, t);
            assert_eq!(m.get(x, 7), t);
        }
    }
}

#[test]
fn set_perturbs_no_other_cell() {
    let mut m = empty_map();
    m.set(6, 3, MapTile::Block);
    m.set(7, 3, MapTile::UpMirror);
    // The two cells share one byte; both survive, everything else is Empty.
    assert_eq!(m.get(6, 3), MapTile::Block);
    assert_eq!(m.get(7, 3), MapTile::UpMirror);
    for x in 0..MAP_WIDTH {
        for y in 0..MAP_HEIGHT {
            if (x, y) != (6, 3) && (x, y) != (7, 3) {
                assert_eq!(m.get(x, y), MapTile::Empty);
            }
        }
    }
}

#[test]
fn with_matches_set() {
    let m = empty_map().with(2, 2, MapTile::VertPipe);
    assert_eq!(m.get(2, 2), MapTile::VertPipe);
}

#[test]
fn flip_exchanges_slanted_mirrors() {
    let mut m = empty_map();
    m.set(3, 3, MapTile::UpMirror);
    m.flip(3, 3);
    assert_eq!(m.get(3, 3), MapTile::DownMirror);
    m.flip(3, 3);
    assert_eq!(m.get(3, 3), MapTile::UpMirror);
    // Flipping anything else leaves it alone.
    m.set(4, 4, MapTile::Block);
    m.flip(4, 4);
    assert_eq!(m.get(4, 4), MapTile::Block);
}

#[test]
fn flip_all_flips_every_cell() {
    let mut m = empty_map();
    m.set(1, 1, MapTile::UpMirror);
    m.set(2, 2, MapTile::DownMirror);
    m.set(3, 3, MapTile::Block);
    m.flip_all();
    assert_eq!(m.get(1, 1), MapTile::DownMirror);
    assert_eq!(m.get(2, 2), MapTile::UpMirror);
    assert_eq!(m.get(3, 3), MapTile::Block);
}

#[test]
fn pixel_to_index_maps_tile_interiors() {
    let m = empty_map();
    // Pixel (16, 16) is the top-left corner of tile (1, 1).
    assert_eq!(m.pixel_to_index(Vec2::new(px(16), px(16))), Some((1, 1)));
    assert_eq!(m.pixel_to_index(Vec2::new(px(23), px(23))), Some((1, 1)));
    assert_eq!(m.pixel_to_index(Vec2::new(px(24), px(16))), Some((2, 1)));
    assert_eq!(m.pixel_to_index(Vec2::new(px(8), px(8))), Some((0, 0)));
}

#[test]
fn pixel_to_index_is_permissive_outside() {
    let m = empty_map();
    // Inside the buffer ring, before the grid starts.
    assert_eq!(m.pixel_to_index(Vec2::new(px(0), px(16))), None);
    assert_eq!(m.pixel_to_index(Vec2::new(px(-5), px(16))), None);
    // Past the right and bottom edges.
    assert_eq!(m.pixel_to_index(Vec2::new(px(8 + 8 * 28), px(16))), None);
    assert_eq!(m.pixel_to_index(Vec2::new(px(16), px(8 + 8 * 18))), None);
}

#[test]
fn index_to_pixel_inverts_pixel_to_index() {
    let m = empty_map();
    for idx in [(0usize, 0usize), (1, 1), (26, 16), (27, 17)] {
        let pos = m.index_to_pixel(idx);
        assert_eq!(m.pixel_to_index(pos), Some(idx));
    }
}

#[test]
fn tile_at_pixel_reads_the_grid_and_defaults_to_empty() {
    let mut m = empty_map();
    m.set(2, 1, MapTile::Block);
    assert_eq!(m.tile_at_pixel(Vec2::new(px(24), px(16))), MapTile::Block);
    assert_eq!(m.tile_at_pixel(Vec2::new(px(16), px(16))), MapTile::Empty);
    // Out of the grid: permissive Empty, not an error.
    assert_eq!(m.tile_at_pixel(Vec2::new(px(-100), px(-100))), MapTile::Empty);
}

#[test]
fn tiles_intersecting_deduplicates_shared_cells() {
    let mut m = empty_map();
    m.set(2, 1, MapTile::Block);
    // A box wholly inside tile (1, 1): all four corners share one cell, so
    // exactly one tile comes back.
    let small = Rect::new(
        Vec2::new(px(17), px(17)),
        Vec2::new(FixedScalar::from_raw(256), FixedScalar::from_raw(256)),
    );
    assert_eq!(m.tiles_intersecting(small), vec![MapTile::Empty]);
    // A box whose right corners poke into tile (2, 1): two distinct cells,
    // in first-occurrence order (top-left corner's cell first).
    let wide = Rect::new(
        Vec2::new(px(17), px(16)),
        Vec2::new(FixedScalar::from_raw(1920), FixedScalar::from_raw(1920)),
    );
    assert_eq!(m.tiles_intersecting(wide), vec![MapTile::Empty, MapTile::Block]);
}

#[test]
fn tiles_intersecting_spanning_four_cells_yields_four_tiles() {
    let mut m = empty_map();
    m.set(1, 1, MapTile::Block);
    m.set(2, 1, MapTile::UpMirror);
    m.set(1, 2, MapTile::DownMirror);
    m.set(2, 2, MapTile::HorizPipe);
    // Corners in four distinct cells, reported as tl, tr, bl, br.
    let hbox = Rect::new(
        Vec2::new(px(20), px(20)),
        Vec2::new(FixedScalar::from_int(6), FixedScalar::from_int(6)),
    );
    assert_eq!(
        m.tiles_intersecting(hbox),
        vec![MapTile::Block, MapTile::UpMirror, MapTile::DownMirror, MapTile::HorizPipe]
    );
}

#[test]
fn tiles_intersecting_merges_out_of_grid_corners() {
    let m = empty_map();
    // Both left corners fall outside the grid (one shared "no index"
    // entry); both right corners share cell (0, 1).
    let hbox = Rect::new(
        Vec2::new(px(4), px(16)),
        Vec2::new(FixedScalar::from_int(5), FixedScalar::from_int(5)),
    );
    assert_eq!(m.tiles_intersecting(hbox), vec![MapTile::Empty, MapTile::Empty]);
}

#[test]
fn player_spawns_are_reported() {
    let m = empty_map();
    assert_eq!(m.player_spawns(), [(1, 1), (1, 16), (26, 1), (26, 16)]);
}

#[test]
fn pretty_print_renders_rows() {
    let mut m = empty_map();
    m.set(0, 0, MapTile::Block);
    m.set(1, 0, MapTile::UpMirror);
    m.set(2, 0, MapTile::DownMirror);
    m.set(3, 0, MapTile::HorizMirror);
    m.set(4, 0, MapTile::VertMirror);
    m.set(5, 0, MapTile::HorizPipe);
    m.set(6, 0, MapTile::VertPipe);
    let text = m.pretty_print();
    let lines: Vec<&str> = text.lines().collect();
    assert_eq!(lines.len(), MAP_HEIGHT);
    assert!(lines[0].starts_with("x/\\-|=\""));
    assert_eq!(lines[0].len(), MAP_WIDTH);
    assert_eq!(lines[1], " ".repeat(MAP_WIDTH));
}
