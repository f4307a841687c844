use mirror_arena::fixed::Direction;
use mirror_arena::generation::{
    bullet_is_passable, classify_cell, generate, generate_counted, generate_with, honeycomb_base,
    verify_spawns, CellClass, ProbeMode,
};
use mirror_arena::map::{MAP_HEIGHT, MAP_WIDTH};
use mirror_arena::tiles::MapTile;

#[test]
fn passability_follows_the_static_rule() {
    for d in [Direction::Up, Direction::Down, Direction::Left, Direction::Right] {
        assert!(bullet_is_passable(MapTile::Empty, d));
        assert!(!bullet_is_passable(MapTile::Block, d));
        assert!(bullet_is_passable(MapTile::UpMirror, d));
        assert!(bullet_is_passable(MapTile::DownMirror, d));
    }
    for d in [Direction::Left, Direction::Right] {
        assert!(bullet_is_passable(MapTile::HorizMirror, d));
        assert!(bullet_is_passable(MapTile::HorizPipe, d));
        assert!(!bullet_is_passable(MapTile::VertMirror, d));
        assert!(!bullet_is_passable(MapTile::VertPipe, d));
    }
    for d in [Direction::Up, Direction::Down] {
        assert!(!bullet_is_passable(MapTile::HorizMirror, d));
        assert!(!bullet_is_passable(MapTile::HorizPipe, d));
        assert!(bullet_is_passable(MapTile::VertMirror, d));
        assert!(bullet_is_passable(MapTile::VertPipe, d));
    }
}

#[test]
fn classification_covers_the_sixteen_cases() {
    // Diagonal pairs.
    assert_eq!(classify_cell(true, false, true, false), CellClass::PlaceUp);
    assert_eq!(classify_cell(false, true, false, true), CellClass::PlaceUp);
    assert_eq!(classify_cell(true, false, false, true), CellClass::PlaceDown);
    assert_eq!(classify_cell(false, true, true, false), CellClass::PlaceDown);
    // Three or four sides open.
    assert_eq!(classify_cell(true, true, true, true), CellClass::PlaceCoin);
    assert_eq!(classify_cell(true, true, true, false), CellClass::PlaceCoin);
    assert_eq!(classify_cell(true, true, false, true), CellClass::PlaceCoin);
    assert_eq!(classify_cell(true, false, true, true), CellClass::PlaceCoin);
    assert_eq!(classify_cell(false, true, true, true), CellClass::PlaceCoin);
    // Unreachable, dead ends and straight tunnels.
    assert_eq!(classify_cell(false, false, false, false), CellClass::Skip);
    assert_eq!(classify_cell(true, false, false, false), CellClass::Skip);
    assert_eq!(classify_cell(false, true, false, false), CellClass::Skip);
    assert_eq!(classify_cell(false, false, true, false), CellClass::Skip);
    assert_eq!(classify_cell(false, false, false, true), CellClass::Skip);
    assert_eq!(classify_cell(true, true, false, false), CellClass::Skip);
    assert_eq!(classify_cell(false, false, true, true), CellClass::Skip);
}

#[test]
fn honeycomb_base_holds_its_shape() {
    let base = honeycomb_base();
    assert!(verify_spawns(&base));
    // Solid border.
    for x in 0..MAP_WIDTH {
        assert_eq!(base.get(x, 0), MapTile::Block);
        assert_eq!(base.get(x, MAP_HEIGHT - 1), MapTile::Block);
    }
    for y in 0..MAP_HEIGHT {
        assert_eq!(base.get(0, y), MapTile::Block);
        assert_eq!(base.get(MAP_WIDTH - 1, y), MapTile::Block);
    }
    // A sample of the lattice: even column and row left of the corridors.
    assert_eq!(base.get(2, 2), MapTile::Block);
    assert_eq!(base.get(2, 1), MapTile::Empty);
    assert_eq!(base.get(13, 2), MapTile::Empty);
    assert_eq!(base.get(15, 11), MapTile::Block);
    // All four spawn cells are empty.
    for (sx, sy) in base.player_spawns() {
        assert_eq!(base.get(sx, sy), MapTile::Empty);
    }
}

#[test]
fn generation_is_deterministic() {
    let base = honeycomb_base();
    let a = generate(0xdeadbeef, base.clone(), 16, 32);
    let b = generate(0xdeadbeef, base, 16, 32);
    assert_eq!(a, b);
}

#[test]
fn generation_never_overwrites_a_spawn() {
    let base = honeycomb_base();
    for seed in [0u64, 1, 0xdeadbeef, 0xffff_ffff_ffff_ffff] {
        let out = generate(seed, base.clone(), 16, 32);
        assert!(verify_spawns(&out));
        for (sx, sy) in out.player_spawns() {
            assert_eq!(out.get(sx, sy), MapTile::Empty);
        }
    }
}

#[test]
fn honeycomb_scenario_places_exactly_the_drawn_count() {
    // Mirror count pinned to exactly sixteen.
    let base = honeycomb_base();
    let out = generate(0xdeadbeef, base.clone(), 16, 16);
    let mut mirrors = 0;
    for x in 0..MAP_WIDTH {
        for y in 0..MAP_HEIGHT {
            let before = base.get(x, y);
            let after = out.get(x, y);
            if after != before {
                assert_eq!(before, MapTile::Empty);
                assert!(after == MapTile::UpMirror || after == MapTile::DownMirror);
                mirrors += 1;
            } else if after == MapTile::UpMirror || after == MapTile::DownMirror {
                panic!("the base layout holds no mirrors");
            }
        }
    }
    assert_eq!(mirrors, 16);
}

#[test]
fn corrected_probe_also_generates_a_valid_map() {
    let base = honeycomb_base();
    let out = generate_with(0xdeadbeef, base.clone(), 16, 16, ProbeMode::Corrected);
    assert!(verify_spawns(&out));
    let mut mirrors = 0;
    for x in 0..MAP_WIDTH {
        for y in 0..MAP_HEIGHT {
            if out.get(x, y) != base.get(x, y) {
                mirrors += 1;
            }
        }
    }
    assert_eq!(mirrors, 16);
}

#[test]
fn counted_generation_reports_no_shortfall_on_an_open_layout() {
    let base = honeycomb_base();
    let (out, shortfall) = generate_counted(0xdeadbeef, base.clone(), 16, 16, ProbeMode::Observed);
    assert_eq!(shortfall, 0);
    // With no shortfall the changed-cell count is exactly the drawn count.
    let mut changed = 0;
    for x in 0..MAP_WIDTH {
        for y in 0..MAP_HEIGHT {
            if out.get(x, y) != base.get(x, y) {
                changed += 1;
            }
        }
    }
    assert_eq!(changed, 16);
    // And the counted grid is the same one `generate` returns.
    assert_eq!(out, generate(0xdeadbeef, base, 16, 16));
}

#[test]
fn counted_generation_reports_the_full_shortfall_on_a_solid_layout() {
    // A layout with no Empty interior cell can never place a mirror: the
    // draw bound runs out and the whole drawn count is still owed.
    let mut grid = Vec::new();
    for _ in 0..MAP_HEIGHT {
        grid.push(vec![MapTile::Block; MAP_WIDTH]);
    }
    let base = mirror_arena::map::BaseMap::from_raw(&grid, [(1, 1), (1, 16), (26, 1), (26, 16)]);
    let (out, shortfall) = generate_counted(7, base.clone(), 5, 5, ProbeMode::Observed);
    assert_eq!(shortfall, 5);
    assert_eq!(out, base);
}
