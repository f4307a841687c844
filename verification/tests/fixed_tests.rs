use mirror_arena::fixed::{AlignedVec, Direction, FixedScalar, Rect, Vec2};

fn raw(v: i32) -> FixedScalar {
    FixedScalar::from_raw(v)
}

#[test]
fn scalars_carry_eight_fraction_bits() {
    assert_eq!(FixedScalar::from_int(3).raw, 768);
    assert_eq!(FixedScalar::from_parts(1, 128).raw, 384);
    // One thirty-second and one sixty-fourth of a pixel.
    assert_eq!(FixedScalar::from_bit(5).raw, 8);
    assert_eq!(FixedScalar::from_bit(6).raw, 4);
    assert_eq!(raw(100).add(raw(-30)).raw, 70);
    assert_eq!(raw(100).sub(raw(30)).raw, 70);
    assert_eq!(raw(100).neg().raw, -100);
    assert_eq!(raw(100).mul_int(3).raw, 300);
    assert!(raw(1).lt(raw(2)));
    assert!(!raw(2).lt(raw(2)));
}

#[test]
fn directions_know_their_axis_and_opposite() {
    assert!(Direction::Left.is_horizontal() && Direction::Right.is_horizontal());
    assert!(Direction::Up.is_vertical() && Direction::Down.is_vertical());
    assert!(!Direction::Up.is_horizontal() && !Direction::Left.is_vertical());
    assert_eq!(Direction::Up.flipped(), Direction::Down);
    assert_eq!(Direction::Down.flipped(), Direction::Up);
    assert_eq!(Direction::Left.flipped(), Direction::Right);
    assert_eq!(Direction::Right.flipped(), Direction::Left);
    for d in [Direction::Up, Direction::Down, Direction::Left, Direction::Right] {
        assert_eq!(d.flipped().flipped(), d);
    }
}

#[test]
fn scaled_vectors_point_along_screen_axes() {
    let s = raw(20);
    assert_eq!(Direction::Up.scaled_vec(s), Vec2::new(raw(0), raw(-20)));
    assert_eq!(Direction::Down.scaled_vec(s), Vec2::new(raw(0), raw(20)));
    assert_eq!(Direction::Left.scaled_vec(s), Vec2::new(raw(-20), raw(0)));
    assert_eq!(Direction::Right.scaled_vec(s), Vec2::new(raw(20), raw(0)));
}

#[test]
fn step_to_decays_without_crossing_the_target() {
    let v = AlignedVec::new(raw(100), Direction::Right);
    let v = v.step_to(raw(30), raw(0));
    assert_eq!(v.mag.raw, 70);
    assert_eq!(v.dir, Direction::Right);
    let v = v.step_to(raw(30), raw(0)).step_to(raw(30), raw(0));
    assert_eq!(v.mag.raw, 10);
    // The last step clamps at the target instead of overshooting below it.
    let v = v.step_to(raw(30), raw(0));
    assert_eq!(v.mag.raw, 0);
    let v = v.step_to(raw(30), raw(0));
    assert_eq!(v.mag.raw, 0);
}

#[test]
fn step_to_climbs_without_overshooting() {
    let v = AlignedVec::zero(Direction::Up);
    let v = v.step_to(raw(40), raw(100));
    assert_eq!(v.mag.raw, 40);
    let v = v.step_to(raw(40), raw(100)).step_to(raw(40), raw(100));
    assert_eq!(v.mag.raw, 100);
}

#[test]
fn step_to_dir_realigns_while_stepping() {
    let v = AlignedVec::new(raw(50), Direction::Left);
    let target = AlignedVec::new(raw(100), Direction::Up);
    let v = v.step_to_dir(raw(20), target);
    assert_eq!(v.dir, Direction::Up);
    assert_eq!(v.mag.raw, 70);
}

#[test]
fn velocity_vectors_follow_the_facing() {
    let v = AlignedVec::new(raw(12), Direction::Down);
    assert_eq!(v.as_vec2(), Vec2::new(raw(0), raw(12)));
    assert_eq!(v.magnitude().raw, 12);
}

#[test]
fn overlap_is_symmetric_and_ignores_touching_edges() {
    let a = Rect::new(Vec2::new(raw(0), raw(0)), Vec2::new(raw(100), raw(100)));
    let b = Rect::new(Vec2::new(raw(50), raw(50)), Vec2::new(raw(100), raw(100)));
    let c = Rect::new(Vec2::new(raw(100), raw(0)), Vec2::new(raw(100), raw(100)));
    assert!(a.overlaps(b));
    assert!(b.overlaps(a));
    // Touching along one edge is not an overlap.
    assert!(!a.overlaps(c));
    assert!(!c.overlaps(a));
}

#[test]
fn corners_and_center_are_exact() {
    let r = Rect::new(Vec2::new(raw(10), raw(20)), Vec2::new(raw(4), raw(8)));
    assert_eq!(r.tl(), Vec2::new(raw(10), raw(20)));
    assert_eq!(r.tr(), Vec2::new(raw(14), raw(20)));
    assert_eq!(r.bl(), Vec2::new(raw(10), raw(28)));
    assert_eq!(r.br(), Vec2::new(raw(14), raw(28)));
    assert_eq!(r.center(), Vec2::new(raw(12), raw(24)));
}
