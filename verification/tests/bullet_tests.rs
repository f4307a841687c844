use mirror_arena::bullet::{Bullet, BulletEvent, BulletTag, BulletType};
use mirror_arena::fixed::{Direction, FixedScalar, Vec2};
use mirror_arena::map::BaseMap;
use mirror_arena::player::{Player, PlayerTag};
use mirror_arena::tiles::MapTile;

fn empty_map() -> BaseMap {
    let mut grid = Vec::new();
    for _ in 0..18 {
        grid.push(vec![MapTile::Empty; 28]);
    }
    BaseMap::from_raw(&grid, [(1, 1), (1, 16), (26, 1), (26, 16)])
}

fn at(x: i32, y: i32) -> Vec2 {
    Vec2::new(FixedScalar::from_int(x), FixedScalar::from_int(y))
}

fn bullet_at(x: i32, y: i32, dir: Direction) -> Bullet {
    Bullet::new(at(x, y), dir, BulletTag::NoPlayer, BulletType::Bullet)
}

#[test]
fn owner_tags_match_their_players() {
    let pairs = [
        (BulletTag::Player1, PlayerTag::P1),
        (BulletTag::Player2, PlayerTag::P2),
        (BulletTag::Player3, PlayerTag::P3),
        (BulletTag::Player4, PlayerTag::P4),
    ];
    for (btag, ptag) in pairs {
        assert!(btag.matches_player(ptag));
        assert!(!btag.hits_player(ptag));
    }
    for (_, ptag) in pairs {
        assert!(!BulletTag::NoPlayer.matches_player(ptag));
        assert!(BulletTag::NoPlayer.hits_player(ptag));
    }
    assert!(!BulletTag::Player1.matches_player(PlayerTag::P2));
    assert!(BulletTag::Player1.hits_player(PlayerTag::P2));
}

#[test]
fn bullets_fly_twice_as_fast_as_reflectors() {
    let b = bullet_at(16, 16, Direction::Right);
    let r = Bullet::new(at(16, 16), Direction::Right, BulletTag::NoPlayer, BulletType::Reflector);
    assert_eq!(b.speed().raw, 8);
    assert_eq!(r.speed().raw, 4);
}

fn run_on_tile(tile: MapTile, dir: Direction) -> Bullet {
    // Tile (2, 1) spans pixels [24, 32) x [16, 24); a bullet at (23, 17)
    // has its hitbox centre at (25, 19), inside that tile.
    let map = empty_map().with(2, 1, tile);
    let mut b = bullet_at(23, 17, dir);
    let players: Vec<Player> = Vec::new();
    let others: Vec<Bullet> = Vec::new();
    let evt = b.update(&map, &players, &others, 0);
    assert!(evt.is_none());
    b
}

#[test]
fn up_mirror_remaps_all_four_directions() {
    assert_eq!(run_on_tile(MapTile::UpMirror, Direction::Right).dir, Direction::Up);
    assert_eq!(run_on_tile(MapTile::UpMirror, Direction::Up).dir, Direction::Right);
    assert_eq!(run_on_tile(MapTile::UpMirror, Direction::Down).dir, Direction::Left);
    assert_eq!(run_on_tile(MapTile::UpMirror, Direction::Left).dir, Direction::Down);
    for d in [Direction::Up, Direction::Down, Direction::Left, Direction::Right] {
        assert!(!run_on_tile(MapTile::UpMirror, d).should_die);
    }
}

#[test]
fn down_mirror_remaps_all_four_directions() {
    assert_eq!(run_on_tile(MapTile::DownMirror, Direction::Right).dir, Direction::Down);
    assert_eq!(run_on_tile(MapTile::DownMirror, Direction::Down).dir, Direction::Right);
    assert_eq!(run_on_tile(MapTile::DownMirror, Direction::Up).dir, Direction::Left);
    assert_eq!(run_on_tile(MapTile::DownMirror, Direction::Left).dir, Direction::Up);
    for d in [Direction::Up, Direction::Down, Direction::Left, Direction::Right] {
        assert!(!run_on_tile(MapTile::DownMirror, d).should_die);
    }
}

#[test]
fn straight_mirrors_bounce_across_and_kill_along() {
    let b = run_on_tile(MapTile::HorizMirror, Direction::Up);
    assert_eq!(b.dir, Direction::Down);
    assert!(!b.should_die);
    let b = run_on_tile(MapTile::HorizMirror, Direction::Right);
    assert!(b.should_die);
    let b = run_on_tile(MapTile::VertMirror, Direction::Left);
    assert_eq!(b.dir, Direction::Right);
    assert!(!b.should_die);
    let b = run_on_tile(MapTile::VertMirror, Direction::Down);
    assert!(b.should_die);
}

#[test]
fn pipes_kill_across_their_axis_and_pass_along_it() {
    for d in [Direction::Up, Direction::Down] {
        assert!(run_on_tile(MapTile::HorizPipe, d).should_die);
        let b = run_on_tile(MapTile::VertPipe, d);
        assert!(!b.should_die);
        assert_eq!(b.dir, d);
    }
    for d in [Direction::Left, Direction::Right] {
        assert!(run_on_tile(MapTile::VertPipe, d).should_die);
        let b = run_on_tile(MapTile::HorizPipe, d);
        assert!(!b.should_die);
        assert_eq!(b.dir, d);
    }
}

#[test]
fn blocks_kill_and_empty_passes() {
    let b = run_on_tile(MapTile::Block, Direction::Right);
    assert!(b.should_die);
    let b = run_on_tile(MapTile::Empty, Direction::Right);
    assert!(!b.should_die);
    assert_eq!(b.dir, Direction::Right);
}

#[test]
fn friendly_fire_pushes_and_enemy_fire_kills() {
    let map = empty_map();
    let cases = [
        (BulletTag::Player1, PlayerTag::P1, true),
        (BulletTag::Player2, PlayerTag::P2, true),
        (BulletTag::Player3, PlayerTag::P3, true),
        (BulletTag::Player4, PlayerTag::P4, true),
        (BulletTag::Player2, PlayerTag::P1, false),
        (BulletTag::NoPlayer, PlayerTag::P1, false),
        (BulletTag::NoPlayer, PlayerTag::P4, false),
    ];
    for (btag, ptag, friendly) in cases {
        let players = vec![Player::new(at(16, 16), ptag)];
        let others: Vec<Bullet> = Vec::new();
        let mut b = Bullet::new(at(17, 17), Direction::Right, btag, BulletType::Bullet);
        let evt = b.update(&map, &players, &others, 0);
        assert!(b.should_die);
        if friendly {
            assert_eq!(evt, Some(BulletEvent::PushChargePlayer(ptag, Direction::Right)));
        } else {
            assert_eq!(evt, Some(BulletEvent::KillPlayer(ptag)));
        }
    }
}

#[test]
fn reflectors_vanish_on_players_without_scoring() {
    let map = empty_map();
    let players = vec![Player::new(at(16, 16), PlayerTag::P1)];
    let others: Vec<Bullet> = Vec::new();
    let mut b = Bullet::new(at(17, 17), Direction::Right, BulletTag::Player2, BulletType::Reflector);
    let evt = b.update(&map, &players, &others, 0);
    assert!(b.should_die);
    assert!(evt.is_none());
}

#[test]
fn same_kind_collision_kills_both_sides() {
    let map = empty_map();
    let players: Vec<Player> = Vec::new();
    let a = bullet_at(16, 16, Direction::Right);
    let b = bullet_at(18, 18, Direction::Left);
    let snapshot = vec![a, b];
    let mut a2 = a;
    let evt_a = a2.update(&map, &players, &snapshot, 0);
    let mut b2 = b;
    let evt_b = b2.update(&map, &players, &snapshot, 1);
    assert!(a2.should_die);
    assert!(b2.should_die);
    assert!(evt_a.is_none());
    assert!(evt_b.is_none());
}

#[test]
fn opposing_reflector_flips_the_bullet_and_neither_dies() {
    let map = empty_map();
    let players: Vec<Player> = Vec::new();
    let b = bullet_at(16, 16, Direction::Right);
    let r = Bullet::new(at(18, 18), Direction::Up, BulletTag::NoPlayer, BulletType::Reflector);
    let snapshot = vec![b, r];
    let mut b2 = b;
    assert!(b2.update(&map, &players, &snapshot, 0).is_none());
    assert_eq!(b2.dir, Direction::Left);
    assert!(!b2.should_die);
    let mut r2 = r;
    assert!(r2.update(&map, &players, &snapshot, 1).is_none());
    assert_eq!(r2.dir, Direction::Up);
    assert!(!r2.should_die);
}

#[test]
fn a_bullet_skips_its_own_slot() {
    let map = empty_map();
    let players: Vec<Player> = Vec::new();
    let b = bullet_at(16, 16, Direction::Right);
    let snapshot = vec![b];
    let mut b2 = b;
    assert!(b2.update(&map, &players, &snapshot, 0).is_none());
    assert!(!b2.should_die);
}
