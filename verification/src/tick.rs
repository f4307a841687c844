//! The per-frame orchestrator.
//!
//! One tick advances every player in index order against a snapshot of the
//! previous tick's player collection (no player observes another's
//! post-update state), then advances every bullet in index order against
//! the updated players and a snapshot of the bullet collection, collecting
//! the emitted events. At the end of the tick — never in the middle of one
//! — players named by kill events and bullets whose death flag is set are
//! removed by a stable filter. All events, kills and pushes alike, are
//! handed back to the caller; feeding pushed charge back into players is
//! the caller's concern.

use vstd::prelude::*;
use crate::bullet::Bullet;
use crate::fixed::FixedScalar;
use crate::fixed::Vec2;
use crate::bullet::BulletEvent;
use crate::bullet::spec_bullet_update;
use crate::map::BaseMap;
use crate::player::ControlsRepr;
use crate::player::Player;
use crate::player::PlayerTag;
use crate::player::spec_player_update;
use crate::player::spec_pos_within;
use crate::player::POS_SAFE_RAW;
use crate::player::POS_TICK_RAW;
use crate::player::VEL_LIMIT_RAW;
use crate::map::MAP_WIDTH;
use crate::map::MAP_HEIGHT;
use crate::map::TILE_RAW;
use crate::map::spec_pixel_to_index;

verus! {

/// Every player advanced one tick against the snapshot `ps`.
pub open spec fn spec_updated_players(
    map: BaseMap,
    ps: Seq<Player>,
    cs: Seq<ControlsRepr>,
) -> Seq<Player> {
    Seq::new(ps.len(), |i: int| spec_player_update(ps[i], map, ps, i, cs[i]))
}

/// Every bullet advanced one tick against the updated players `ps` and the
/// bullet snapshot `bs`, paired with its emitted event.
pub open spec fn spec_bullet_results(
    map: BaseMap,
    ps: Seq<Player>,
    bs: Seq<Bullet>,
) -> Seq<(Bullet, Option<BulletEvent>)> {
    Seq::new(bs.len(), |i: int| spec_bullet_update(bs[i], map, ps, bs, i))
}

/// The events of the first `i` bullet results, in bullet index order.
pub open spec fn spec_events_prefix(
    results: Seq<(Bullet, Option<BulletEvent>)>,
    i: int,
) -> Seq<BulletEvent>
    decreases i,
{
    if i <= 0 {
        Seq::empty()
    } else {
        let rest = spec_events_prefix(results, i - 1);
        match results[i - 1].1 {
            Some(e) => rest.push(e),
            None => rest,
        }
    }
}

/// Whether the tick's events kill the player with the given tag.
pub open spec fn spec_killed(events: Seq<BulletEvent>, tag: PlayerTag) -> bool {
    exists|i: int| 0 <= i < events.len() && events[i] == BulletEvent::KillPlayer(tag)
}

/// The first `i` updated players, with those killed this tick filtered
/// out, order kept.
pub open spec fn spec_surviving_players(
    ps: Seq<Player>,
    events: Seq<BulletEvent>,
    i: int,
) -> Seq<Player>
    decreases i,
{
    if i <= 0 {
        Seq::empty()
    } else {
        let rest = spec_surviving_players(ps, events, i - 1);
        if spec_killed(events, ps[i - 1].tag) {
            rest
        } else {
            rest.push(ps[i - 1])
        }
    }
}

/// The first `i` updated bullets, with the dead ones filtered out, order
/// kept.
pub open spec fn spec_surviving_bullets(
    results: Seq<(Bullet, Option<BulletEvent>)>,
    i: int,
) -> Seq<Bullet>
    decreases i,
{
    if i <= 0 {
        Seq::empty()
    } else {
        let rest = spec_surviving_bullets(results, i - 1);
        if results[i - 1].0.should_die {
            rest
        } else {
            rest.push(results[i - 1].0)
        }
    }
}

/// One whole tick: players phase, bullets phase, then end-of-tick removal.
pub open spec fn spec_tick(
    map: BaseMap,
    ps: Seq<Player>,
    bs: Seq<Bullet>,
    cs: Seq<ControlsRepr>,
) -> (Seq<Player>, Seq<Bullet>, Seq<BulletEvent>) {
    let ps2 = spec_updated_players(map, ps, cs);
    let results = spec_bullet_results(map, ps2, bs);
    let events = spec_events_prefix(results, results.len() as int);
    (
        spec_surviving_players(ps2, events, ps2.len() as int),
        spec_surviving_bullets(results, results.len() as int),
        events,
    )
}

/// One player update keeps the position within the safe bound and the
/// velocity magnitude within its limit.
proof fn lemma_player_update_bounds(
    p: Player,
    map: BaseMap,
    others: Seq<Player>,
    idx: int,
    cs: ControlsRepr,
)
    requires
        p.vel.wf(),
        p.vel.mag.raw <= VEL_LIMIT_RAW,
        spec_pos_within(p.pos, POS_TICK_RAW as int),
    ensures
        spec_pos_within(spec_player_update(p, map, others, idx, cs).pos, POS_SAFE_RAW as int),
        spec_player_update(p, map, others, idx, cs).vel.wf(),
        spec_player_update(p, map, others, idx, cs).vel.mag.raw <= VEL_LIMIT_RAW,
{
    let pv = crate::player::spec_step_vel(p, cs);
    assert(pv.vel.mag.raw >= 0 && pv.vel.mag.raw <= VEL_LIMIT_RAW);
    let (dx, dy) = pv.vel.dir.spec_scaled_raw(pv.vel.mag.raw as int);
    let cand = crate::player::spec_candidate_pos(pv.pos, dx, dy, pv.dir);
    match spec_pixel_to_index(
        Vec2 {
            x: FixedScalar { raw: (pv.pos.x.raw + dx) as i32 },
            y: FixedScalar { raw: (pv.pos.y.raw + dy) as i32 },
        },
    ) {
        Some(idx2) => {
            assert(0 <= idx2.0 < MAP_WIDTH && 0 <= idx2.1 < MAP_HEIGHT);
        },
        None => {},
    }
}

/// One player per spawn point of the map: slot `k` stands on spawn `k`,
/// converted from index space to pixel space.
pub fn spawn_players(map: &BaseMap) -> (r: Vec<Player>)
    requires
        map.wf(),
    ensures
        r@.len() == 4,
        forall|k: int|
            0 <= k < 4 ==> r@[k] == crate::player::spec_new_player(
                Vec2 {
                    x: FixedScalar {
                        raw: (((#[trigger] map.spec_spawns()[k]).0 + 1) * TILE_RAW) as i32,
                    },
                    y: FixedScalar { raw: ((map.spec_spawns()[k].1 + 1) * TILE_RAW) as i32 },
                },
                PlayerTag::spec_from_u8(k as u8),
            ),
{
    let spawns = map.player_spawns();
    let mut players: Vec<Player> = Vec::new();
    let mut k: usize = 0;
    while k < 4
        invariant
            k <= 4,
            map.wf(),
            spawns@ == map.spec_spawns(),
            players@.len() == k,
            forall|j: int|
                0 <= j < k ==> players@[j] == crate::player::spec_new_player(
                    Vec2 {
                        x: FixedScalar {
                            raw: (((#[trigger] map.spec_spawns()[j]).0 + 1) * TILE_RAW) as i32,
                        },
                        y: FixedScalar { raw: ((map.spec_spawns()[j].1 + 1) * TILE_RAW) as i32 },
                    },
                    PlayerTag::spec_from_u8(j as u8),
                ),
        decreases 4 - k,
    {
        let sp = spawns[k];
        let pos = map.index_to_pixel(sp);
        let tag = PlayerTag::from_u8(k as u8);
        proof {
            let kk = k as u8;
            assert(kk < 4 ==> kk & 0x3 == kk) by (bit_vector);
        }
        players.push(Player::new(pos, tag));
        k += 1;
    }
    players
}

/// A copy of a vector of plain values.
fn copy_vec<T: Copy>(v: &Vec<T>) -> (r: Vec<T>)
    ensures
        r@ == v@,
{
    let mut r: Vec<T> = Vec::new();
    let mut i: usize = 0;
    while i < v.len()
        invariant
            i <= v@.len(),
            r@ == v@.subrange(0, i as int),
        decreases v@.len() - i,
    {
        r.push(v[i]);
        assert(r@ =~= v@.subrange(0, i + 1));
        i += 1;
    }
    assert(r@ =~= v@);
    r
}

/// Whether the tick's events kill the given tag.
fn events_kill(events: &Vec<BulletEvent>, tag: PlayerTag) -> (r: bool)
    ensures
        r == spec_killed(events@, tag),
{
    let mut i: usize = 0;
    let mut found = false;
    while i < events.len()
        invariant
            i <= events@.len(),
            found == exists|j: int|
                0 <= j < i && events@[j] == BulletEvent::KillPlayer(tag),
        decreases events@.len() - i,
    {
        if let BulletEvent::KillPlayer(t) = events[i] {
            if t == tag {
                found = true;
            }
        }
        i += 1;
    }
    found
}

/// Runs one simulation tick over the live collections: advances every
/// player, then every bullet, applies the end-of-tick removals and returns
/// the emitted events in bullet index order. The whole outcome is exactly
/// `spec_tick` of the inputs.
pub fn tick(
    map: &BaseMap,
    players: &mut Vec<Player>,
    bullets: &mut Vec<Bullet>,
    controls: &Vec<ControlsRepr>,
) -> (events: Vec<BulletEvent>)
    requires
        map.wf(),
        controls@.len() == old(players)@.len(),
        forall|j: int|
            0 <= j < old(players)@.len() ==> spec_pos_within(
                (#[trigger] old(players)@[j]).pos,
                POS_TICK_RAW as int,
            ) && old(players)@[j].vel.wf() && old(players)@[j].vel.mag.raw <= VEL_LIMIT_RAW,
        forall|j: int|
            0 <= j < old(bullets)@.len() ==> spec_pos_within(
                (#[trigger] old(bullets)@[j]).pos,
                POS_TICK_RAW as int,
            ),
    ensures
        (final(players)@, final(bullets)@, events@) == spec_tick(
            *map,
            old(players)@,
            old(bullets)@,
            controls@,
        ),
{
    let ghost ps0 = players@;
    let ghost bs0 = bullets@;

    // Players phase: update each player against the previous-tick snapshot.
    let snapshot = copy_vec(players);
    let mut i: usize = 0;
    while i < players.len()
        invariant
            map.wf(),
            snapshot@ == ps0,
            controls@.len() == ps0.len(),
            players@.len() == ps0.len(),
            i <= ps0.len(),
            forall|j: int|
                0 <= j < ps0.len() ==> spec_pos_within(
                    (#[trigger] ps0[j]).pos,
                    POS_TICK_RAW as int,
                ) && ps0[j].vel.wf() && ps0[j].vel.mag.raw <= VEL_LIMIT_RAW,
            forall|j: int|
                0 <= j < i ==> players@[j] == spec_player_update(
                    ps0[j],
                    *map,
                    ps0,
                    j,
                    controls@[j],
                ),
            forall|j: int| i <= j < ps0.len() ==> players@[j] == ps0[j],
        decreases ps0.len() - i,
    {
        let mut p = players[i];
        let c = controls[i];
        p.update(map, &snapshot, i, bullets, c);
        players.set(i, p);
        i += 1;
    }
    assert(players@ =~= spec_updated_players(*map, ps0, controls@));

    proof {
        assert forall|j: int| 0 <= j < players@.len() implies spec_pos_within(
            (#[trigger] players@[j]).pos,
            POS_SAFE_RAW as int,
        ) by {
            lemma_player_update_bounds(ps0[j], *map, ps0, j, controls@[j]);
        }
    }

    // Bullets phase: update each bullet against the updated players and
    // the previous bullet snapshot, collecting the events.
    let ghost ps2 = players@;
    let bsnapshot = copy_vec(bullets);
    let ghost results = spec_bullet_results(*map, ps2, bs0);
    let mut events: Vec<BulletEvent> = Vec::new();
    let mut bi: usize = 0;
    while bi < bullets.len()
        invariant
            map.wf(),
            bsnapshot@ == bs0,
            players@ == ps2,
            bullets@.len() == bs0.len(),
            bi <= bs0.len(),
            results == spec_bullet_results(*map, ps2, bs0),
            forall|j: int|
                0 <= j < ps2.len() ==> spec_pos_within(
                    (#[trigger] ps2[j]).pos,
                    POS_SAFE_RAW as int,
                ),
            forall|j: int|
                0 <= j < bs0.len() ==> spec_pos_within(
                    (#[trigger] bs0[j]).pos,
                    POS_TICK_RAW as int,
                ),
            forall|j: int| 0 <= j < bi ==> bullets@[j] == results[j].0,
            forall|j: int| bi <= j < bs0.len() ==> bullets@[j] == bs0[j],
            events@ == spec_events_prefix(results, bi as int),
        decreases bs0.len() - bi,
    {
        let mut b = bullets[bi];
        proof {
            assert(b == bs0[bi as int]);
            assert(spec_pos_within(bs0[bi as int].pos, POS_TICK_RAW as int));
        }
        let evt = b.update(map, players, &bsnapshot, bi);
        bullets.set(bi, b);
        if let Some(e) = evt {
            events.push(e);
        }
        bi += 1;
    }

    // End-of-tick removal: drop killed players and dead bullets by a
    // stable filter; no entity disappears in the middle of the tick.
    let mut survivors: Vec<Player> = Vec::new();
    let mut pi: usize = 0;
    while pi < players.len()
        invariant
            players@ == ps2,
            pi <= ps2.len(),
            survivors@ == spec_surviving_players(ps2, events@, pi as int),
        decreases ps2.len() - pi,
    {
        let p = players[pi];
        if !events_kill(&events, p.tag) {
            survivors.push(p);
        }
        pi += 1;
    }
    let mut live_bullets: Vec<Bullet> = Vec::new();
    let mut li: usize = 0;
    while li < bullets.len()
        invariant
            bullets@.len() == bs0.len(),
            forall|j: int| 0 <= j < bs0.len() ==> bullets@[j] == results[j].0,
            li <= bs0.len(),
            results == spec_bullet_results(*map, ps2, bs0),
            live_bullets@ == spec_surviving_bullets(results, li as int),
        decreases bs0.len() - li,
    {
        let b = bullets[li];
        if !b.should_die {
            live_bullets.push(b);
        }
        li += 1;
    }
    *players = survivors;
    *bullets = live_bullets;
    events
}

} // verus!
