use mirror_arena::rng::{step, Rng};

#[test]
fn step_matches_xorshift_by_hand() {
    // 1 ^= 1<<13, then ^= >>7, then ^= <<17, computed by hand.
    assert_eq!(step(1), 0x4082_2041);
    assert_eq!(step(0xdeadbeef), 0x37c5_9ca7_bf06_be52);
    assert_eq!(step(step(1)), 0x1000_4106_0c01_1441);
}

#[test]
fn draws_are_deterministic() {
    let a = Rng::with_seed(42);
    let b = Rng::with_seed(42);
    let (_, va) = a.u64_const(0, 1000);
    let (_, vb) = b.u64_const(0, 1000);
    assert_eq!(va, vb);
}

#[test]
fn bool_const_is_parity_of_next_state() {
    let rng = Rng::with_seed(1);
    let (_, flag) = rng.bool_const();
    // step(1) == 0x40822041, an odd number.
    assert!(flag);
}

#[test]
fn u64_const_is_min_plus_modulo() {
    let rng = Rng::with_seed(0xdeadbeef);
    let (_, v) = rng.u64_const(16, 32);
    // step(0xdeadbeef) % 17 == 7, so the draw is 23.
    assert_eq!(v, 23);
}

#[test]
fn u8_const_stays_in_range() {
    let mut rng = Rng::with_seed(7);
    for _ in 0..100 {
        let (next, v) = rng.u8_const(3, 9);
        assert!((3..=9).contains(&v));
        rng = next;
    }
}

#[test]
fn usize_const_stays_in_range() {
    let mut rng = Rng::with_seed(99);
    for _ in 0..100 {
        let (next, v) = rng.usize_const(1, 26);
        assert!((1..=26).contains(&v));
        rng = next;
    }
}

#[test]
fn i32_const_stays_in_range() {
    let mut rng = Rng::with_seed(1234);
    for _ in 0..100 {
        let (next, v) = rng.i32_const(-5, 5);
        assert!((-5..=5).contains(&v));
        rng = next;
    }
}

#[test]
fn draws_thread_the_state() {
    let rng = Rng::with_seed(5);
    let (rng2, _) = rng.u64_const(0, 10);
    let (_, second) = rng2.u64_const(0, 10);
    let direct = Rng::with_seed(step(5));
    let (_, expected) = direct.u64_const(0, 10);
    assert_eq!(second, expected);
}
