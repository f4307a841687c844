use mirror_arena::bullet::{Bullet, BulletTag};
use mirror_arena::fixed::{AlignedVec, Direction, FixedScalar, Vec2};
use mirror_arena::map::BaseMap;
use mirror_arena::player::{
    ControlsRepr, Player, PlayerTag, PLAYER_ACCEL_RAW, PLAYER_FRICTION_RAW, PLAYER_SPEED_RAW,
};
use mirror_arena::tiles::MapTile;

fn empty_map() -> BaseMap {
    let mut grid = Vec::new();
    for _ in 0..18 {
        grid.push(vec![MapTile::Empty; 28]);
    }
    BaseMap::from_raw(&grid, [(1, 1), (1, 16), (26, 1), (26, 16)])
}

fn at(x: i32, y: i32) -> Vec2 {
    Vec2::new(FixedScalar::from_int(x), FixedScalar::from_int(y))
}

fn controls(dir: Option<Direction>) -> ControlsRepr {
    ControlsRepr { dir, fired_bullet: false, fired_shield: false }
}

fn no_others() -> Vec<Player> {
    Vec::new()
}

fn no_bullets() -> Vec<Bullet> {
    Vec::new()
}

#[test]
fn new_players_face_their_side() {
    assert_eq!(Player::new(at(16, 16), PlayerTag::P1).dir, Direction::Right);
    assert_eq!(Player::new(at(16, 16), PlayerTag::P2).dir, Direction::Left);
    assert_eq!(Player::new(at(16, 16), PlayerTag::P3).dir, Direction::Right);
    assert_eq!(Player::new(at(16, 16), PlayerTag::P4).dir, Direction::Left);
    let p = Player::new(at(16, 16), PlayerTag::P1);
    assert_eq!(p.vel.mag.raw, 0);
    assert_eq!(p.charge, 0);
}

#[test]
fn tags_map_to_bullet_tags() {
    assert_eq!(PlayerTag::P1.bullet_tag(), BulletTag::Player1);
    assert_eq!(PlayerTag::P2.bullet_tag(), BulletTag::Player2);
    assert_eq!(PlayerTag::P3.bullet_tag(), BulletTag::Player3);
    assert_eq!(PlayerTag::P4.bullet_tag(), BulletTag::Player4);
    assert_eq!(PlayerTag::from_u8(0), PlayerTag::P1);
    assert_eq!(PlayerTag::from_u8(3), PlayerTag::P4);
    // Only the low two bits count.
    assert_eq!(PlayerTag::from_u8(5), PlayerTag::P2);
}

#[test]
fn blocked_move_is_rejected_atomically() {
    // A player at pixel (16, 16) moving right at full speed into a block
    // immediately to its right ends the tick where it started, with zero
    // velocity.
    let map = empty_map().with(2, 1, MapTile::Block);
    let mut p = Player::new(at(16, 16), PlayerTag::P1);
    p.vel = AlignedVec::new(FixedScalar::from_raw(PLAYER_SPEED_RAW), Direction::Right);
    p.update(&map, &no_others(), 0, &no_bullets(), controls(Some(Direction::Right)));
    assert_eq!(p.pos, at(16, 16));
    assert_eq!(p.vel.mag.raw, 0);
}

#[test]
fn open_move_commits_the_candidate() {
    let map = empty_map();
    let mut p = Player::new(at(16, 16), PlayerTag::P1);
    p.update(&map, &no_others(), 0, &no_bullets(), controls(Some(Direction::Right)));
    // One acceleration step from rest, then that velocity applied.
    assert_eq!(p.vel.mag.raw, PLAYER_ACCEL_RAW);
    assert_eq!(p.pos.x.raw, 16 * 256 + PLAYER_ACCEL_RAW);
    assert_eq!(p.pos.y.raw, 16 * 256);
    assert_eq!(p.dir, Direction::Right);
}

#[test]
fn another_player_blocks_the_move() {
    let map = empty_map();
    let mut p = Player::new(at(16, 16), PlayerTag::P1);
    // A second player one tile to the right, overlapping the candidate box.
    let others = vec![Player::new(at(16, 16), PlayerTag::P1), Player::new(at(22, 16), PlayerTag::P2)];
    p.update(&map, &others, 0, &no_bullets(), controls(Some(Direction::Right)));
    assert_eq!(p.pos, at(16, 16));
    assert_eq!(p.vel.mag.raw, 0);
}

#[test]
fn no_input_decays_velocity_by_friction() {
    let map = empty_map();
    let mut p = Player::new(at(100, 80), PlayerTag::P1);
    p.vel = AlignedVec::new(FixedScalar::from_raw(PLAYER_SPEED_RAW), Direction::Right);
    p.update(&map, &no_others(), 0, &no_bullets(), controls(None));
    assert_eq!(p.vel.mag.raw, PLAYER_SPEED_RAW - PLAYER_FRICTION_RAW);
    // Decay never crosses zero.
    let mut q = Player::new(at(100, 80), PlayerTag::P1);
    q.vel = AlignedVec::new(FixedScalar::from_raw(10), Direction::Right);
    q.update(&map, &no_others(), 0, &no_bullets(), controls(None));
    assert_eq!(q.vel.mag.raw, 0);
}

#[test]
fn overboost_decays_under_stronger_friction_and_input_only_redirects() {
    let map = empty_map();
    let mut p = Player::new(at(100, 80), PlayerTag::P1);
    p.vel = AlignedVec::new(FixedScalar::from_raw(2 * PLAYER_SPEED_RAW), Direction::Right);
    p.update(&map, &no_others(), 0, &no_bullets(), controls(Some(Direction::Up)));
    // The stronger friction applies and the velocity keeps its axis; the
    // input changed only the facing.
    assert_eq!(p.vel.mag.raw, 2 * PLAYER_SPEED_RAW - 127);
    assert_eq!(p.vel.dir, Direction::Right);
    assert_eq!(p.dir, Direction::Up);
}

#[test]
fn acceleration_never_overshoots_the_cap() {
    let map = empty_map();
    let mut p = Player::new(at(100, 80), PlayerTag::P1);
    for _ in 0..5 {
        p.update(&map, &no_others(), 0, &no_bullets(), controls(Some(Direction::Down)));
        assert!(p.vel.mag.raw <= PLAYER_SPEED_RAW);
    }
    assert_eq!(p.vel.mag.raw, PLAYER_SPEED_RAW);
    assert_eq!(p.vel.dir, Direction::Down);
}

#[test]
fn strafing_snaps_to_the_tile_lane() {
    let map = empty_map();
    let mut p = Player::new(at(16, 16), PlayerTag::P1);
    // Nudge the position off the lane centre, then move horizontally: the
    // vertical coordinate snaps back to the lane.
    p.pos = Vec2::new(FixedScalar::from_int(16), FixedScalar::from_raw(16 * 256 + 100));
    p.update(&map, &no_others(), 0, &no_bullets(), controls(Some(Direction::Right)));
    assert_eq!(p.pos.y.raw, 16 * 256);
    assert_eq!(p.pos.x.raw, 16 * 256 + PLAYER_ACCEL_RAW);
}
