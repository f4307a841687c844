//! Player entities and their per-tick movement.
//!
//! A player carries a pixel-space position, a facing direction, an
//! axis-aligned velocity, a charge counter and an identity tag. Each tick
//! the velocity decays or accelerates under the sampled controls (with a
//! stronger friction while overboosted past the base speed cap), a
//! candidate position is computed with the off-axis coordinate snapped to
//! the tile lane, and the move is committed only if no overlapped tile
//! forbids players and no other player's hitbox overlaps the candidate
//! hitbox; a blocked move leaves the position unchanged and zeroes the
//! velocity for the tick.

use vstd::prelude::*;
use crate::bullet::Bullet;
use crate::bullet::BulletTag;
use crate::fixed::AlignedVec;
use crate::fixed::Direction;
use crate::fixed::FixedScalar;
use crate::fixed::Rect;
use crate::fixed::Vec2;
use crate::fixed::spec_rects_overlap;
use crate::fixed::spec_step_toward;
use crate::map::BaseMap;
use crate::tiles::MapTile;
use crate::map::spec_pixel_to_index;
use crate::map::TILE_RAW;

verus! {

/// Base speed cap: one pixel per tick, in raw units.
pub const PLAYER_SPEED_RAW: i32 = 256;

/// Friction applied per tick without input, in raw units (a third of a
/// pixel, rounded down).
pub const PLAYER_FRICTION_RAW: i32 = 85;

/// Stronger friction applied per tick while overboosted, in raw units
/// (half a pixel, rounded down).
pub const PLAYER_OVERBOOST_FRICTION_RAW: i32 = 127;

/// Acceleration applied per tick under directional input, in raw units
/// (half a pixel, rounded down).
pub const PLAYER_ACCEL_RAW: i32 = 127;

/// Hitbox edge of a player: 7.5 pixels, in raw units.
pub const PLAYER_HITBOX_RAW: i32 = 1920;

/// Positions handed to the updates stay below this raw magnitude so that
/// every intermediate sum fits an `i32`.
pub const POS_SAFE_RAW: i32 = 0x4800_0000;

/// Positions handed to a whole tick stay below this raw magnitude; one
/// update moves a position by at most `VEL_LIMIT_RAW` plus a snap inside
/// the grid, which keeps it below `POS_SAFE_RAW`.
pub const POS_TICK_RAW: i32 = 0x4000_0000;

/// Velocity magnitudes stay below this raw bound.
pub const VEL_LIMIT_RAW: i32 = 0x0100_0000;

/// One of the four player slots.
#[derive(Clone, Copy, PartialEq, Eq, Structural, Debug, Hash)]
pub enum PlayerTag {
    P1,
    P2,
    P3,
    P4,
}

impl PlayerTag {
    /// The slot encoded in the low two bits of `n`.
    pub open spec fn spec_from_u8(n: u8) -> PlayerTag {
        let m = n & 0x3;
        if m == 0 {
            PlayerTag::P1
        } else if m == 1 {
            PlayerTag::P2
        } else if m == 2 {
            PlayerTag::P3
        } else {
            PlayerTag::P4
        }
    }

    pub fn from_u8(n: u8) -> (r: PlayerTag)
        ensures
            r == PlayerTag::spec_from_u8(n),
    {
        let m = n & 0x3;
        assert(n & 0x3 < 4) by (bit_vector);
        if m == 0 {
            PlayerTag::P1
        } else if m == 1 {
            PlayerTag::P2
        } else if m == 2 {
            PlayerTag::P3
        } else {
            PlayerTag::P4
        }
    }

    /// The owner tag a bullet fired by this player carries.
    pub open spec fn spec_bullet_tag(self) -> BulletTag {
        match self {
            PlayerTag::P1 => BulletTag::Player1,
            PlayerTag::P2 => BulletTag::Player2,
            PlayerTag::P3 => BulletTag::Player3,
            PlayerTag::P4 => BulletTag::Player4,
        }
    }

    pub fn bullet_tag(self) -> (r: BulletTag)
        ensures
            r == self.spec_bullet_tag(),
    {
        match self {
            PlayerTag::P1 => BulletTag::Player1,
            PlayerTag::P2 => BulletTag::Player2,
            PlayerTag::P3 => BulletTag::Player3,
            PlayerTag::P4 => BulletTag::Player4,
        }
    }
}

impl Default for PlayerTag {
    /// The first player slot.
    fn default() -> (r: Self)
        ensures
            r == PlayerTag::P1,
    {
        PlayerTag::P1
    }
}

/// The per-tick control snapshot for one player: an optional movement
/// direction and the two fire intents.
#[derive(Clone, Copy, PartialEq, Eq, Structural, Debug)]
pub struct ControlsRepr {
    pub dir: Option<Direction>,
    pub fired_bullet: bool,
    pub fired_shield: bool,
}

impl ControlsRepr {
    /// The neutral snapshot: no direction, nothing fired.
    pub fn neutral() -> (r: Self)
        ensures
            r.dir is None,
            !r.fired_bullet,
            !r.fired_shield,
    {
        Self { dir: None, fired_bullet: false, fired_shield: false }
    }
}

impl Default for ControlsRepr {
    /// The neutral snapshot: no direction, nothing fired.
    fn default() -> (r: Self)
        ensures
            r.dir is None,
            !r.fired_bullet,
            !r.fired_shield,
    {
        Self { dir: None, fired_bullet: false, fired_shield: false }
    }
}

/// A player entity.
#[derive(Clone, Copy, PartialEq, Eq, Structural, Debug)]
pub struct Player {
    pub pos: Vec2,
    pub dir: Direction,
    pub vel: AlignedVec,
    pub charge: u8,
    pub tag: PlayerTag,
}

/// Whether both coordinates of `v` stay within `bound` raw units.
pub open spec fn spec_pos_within(v: Vec2, bound: int) -> bool {
    &&& -bound <= v.x.raw <= bound
    &&& -bound <= v.y.raw <= bound
}

/// The hitbox of a player at position `pos`: a 7.5-pixel square whose
/// top-left corner is the position.
pub open spec fn spec_player_hitbox_at(pos: Vec2) -> Rect {
    Rect {
        pos,
        size: Vec2 { x: FixedScalar { raw: PLAYER_HITBOX_RAW }, y: FixedScalar { raw: PLAYER_HITBOX_RAW } },
    }
}

/// How one tick updates a velocity under the sampled controls: overboost
/// (magnitude past the base cap) decays under the stronger friction while
/// input only redirects the facing; otherwise no input decays under normal
/// friction and directional input accelerates toward the base speed in the
/// requested direction, switching the facing immediately.
pub open spec fn spec_step_vel(p: Player, controls: ControlsRepr) -> Player {
    if p.vel.mag.raw > PLAYER_SPEED_RAW {
        let ndir = match controls.dir {
            Some(d) => d,
            None => p.dir,
        };
        Player {
            dir: ndir,
            vel: AlignedVec {
                mag: FixedScalar {
                    raw: spec_step_toward(
                        p.vel.mag.raw as int,
                        PLAYER_OVERBOOST_FRICTION_RAW as int,
                        0,
                    ) as i32,
                },
                dir: p.vel.dir,
            },
            ..p
        }
    } else {
        match controls.dir {
            None => Player {
                vel: AlignedVec {
                    mag: FixedScalar {
                        raw: spec_step_toward(
                            p.vel.mag.raw as int,
                            PLAYER_FRICTION_RAW as int,
                            0,
                        ) as i32,
                    },
                    dir: p.vel.dir,
                },
                ..p
            },
            Some(ndir) => Player {
                dir: ndir,
                vel: AlignedVec {
                    mag: FixedScalar {
                        raw: spec_step_toward(
                            p.vel.mag.raw as int,
                            PLAYER_ACCEL_RAW as int,
                            PLAYER_SPEED_RAW as int,
                        ) as i32,
                    },
                    dir: ndir,
                },
                ..p
            },
        }
    }
}

/// The candidate position for a player at `pos` moving by the velocity
/// vector `(dx, dy)` while facing `dir`: the axis of travel is free, the
/// perpendicular axis snaps to the tile lane the raw candidate falls in;
/// outside the grid no snap applies.
pub open spec fn spec_candidate_pos(pos: Vec2, dx: int, dy: int, dir: Direction) -> Vec2 {
    let raw = Vec2 {
        x: FixedScalar { raw: (pos.x.raw + dx) as i32 },
        y: FixedScalar { raw: (pos.y.raw + dy) as i32 },
    };
    match spec_pixel_to_index(raw) {
        Some((ix, iy)) => if dir.spec_is_horizontal() {
            Vec2 { x: raw.x, y: FixedScalar { raw: ((iy + 1) * TILE_RAW) as i32 } }
        } else {
            Vec2 { x: FixedScalar { raw: ((ix + 1) * TILE_RAW) as i32 }, y: raw.y }
        },
        None => raw,
    }
}

/// Whether any tile under the four corners of `rect` forbids players.
pub open spec fn spec_blocked_by_terrain(map: BaseMap, rect: Rect) -> bool {
    exists|k: int|
        0 <= k < 4 && !(#[trigger] map.spec_tile_at_pixel(
            BaseMap::spec_corner(rect, k),
        )).spec_allows_player()
}

/// Whether `rect` overlaps the hitbox of any player in `others` besides
/// the one at `self_idx`.
pub open spec fn spec_blocked_by_players(others: Seq<Player>, self_idx: int, rect: Rect) -> bool {
    exists|j: int|
        0 <= j < others.len() && j != self_idx && spec_rects_overlap(
            rect,
            spec_player_hitbox_at((#[trigger] others[j]).pos),
        )
}

/// One whole player tick: velocity step, snapped candidate, then an atomic
/// commit-or-reject against terrain and the other players.
pub open spec fn spec_player_update(
    p: Player,
    map: BaseMap,
    others: Seq<Player>,
    self_idx: int,
    controls: ControlsRepr,
) -> Player {
    let pv = spec_step_vel(p, controls);
    let (dx, dy) = pv.vel.dir.spec_scaled_raw(pv.vel.mag.raw as int);
    let cand = spec_candidate_pos(pv.pos, dx, dy, pv.dir);
    let rect = spec_player_hitbox_at(cand);
    if spec_blocked_by_terrain(map, rect) || spec_blocked_by_players(others, self_idx, rect) {
        Player { vel: AlignedVec { mag: FixedScalar { raw: 0 }, dir: pv.dir }, ..pv }
    } else {
        Player { pos: cand, ..pv }
    }
}

/// A fresh player on its spawn position: players one and three face right,
/// the others left; the velocity is zero along the facing and the charge
/// empty.
pub open spec fn spec_new_player(pos: Vec2, tag: PlayerTag) -> Player {
    let dir = match tag {
        PlayerTag::P1 | PlayerTag::P3 => Direction::Right,
        PlayerTag::P2 | PlayerTag::P4 => Direction::Left,
    };
    Player { pos, dir, vel: AlignedVec { mag: FixedScalar { raw: 0 }, dir }, charge: 0, tag }
}

impl Player {
    /// A fresh player on its spawn position: players one and three face
    /// right, the others left; the velocity is zero along the facing and
    /// the charge empty.
    pub fn new(pos: Vec2, tag: PlayerTag) -> (r: Self)
        ensures
            r == spec_new_player(pos, tag),
    {
        let dir = match tag {
            PlayerTag::P1 | PlayerTag::P3 => Direction::Right,
            PlayerTag::P2 | PlayerTag::P4 => Direction::Left,
        };
        Self { pos, dir, vel: AlignedVec::zero(dir), charge: 0, tag }
    }

    /// This player's hitbox at its current position.
    pub fn hitbox(&self) -> (r: Rect)
        ensures
            r == spec_player_hitbox_at(self.pos),
    {
        let size = FixedScalar::from_raw(PLAYER_HITBOX_RAW);
        Rect::new(self.pos, Vec2::new(size, size))
    }

    /// Advances this player by one tick against the previous-tick snapshot
    /// `others` of the player collection (`self_idx` is this player's slot
    /// in it and is skipped). The result is exactly `spec_player_update`;
    /// in particular a blocked move leaves the position unchanged and
    /// zeroes the velocity. The bullet collection is part of the update
    /// interface, though the movement rules never read it: bullets act on
    /// players only through the events of the bullet phase.
    pub fn update(
        &mut self,
        map: &BaseMap,
        others: &Vec<Player>,
        self_idx: usize,
        bullets: &Vec<Bullet>,
        controls: ControlsRepr,
    )
        requires
            map.wf(),
            old(self).vel.wf(),
            old(self).vel.mag.raw <= VEL_LIMIT_RAW,
            spec_pos_within(old(self).pos, POS_SAFE_RAW as int),
            forall|j: int|
                0 <= j < others@.len() ==> spec_pos_within(
                    (#[trigger] others@[j]).pos,
                    POS_SAFE_RAW as int,
                ),
        ensures
            *final(self) == spec_player_update(
                *old(self),
                *map,
                others@,
                self_idx as int,
                controls,
            ),
            final(self).vel.wf(),
            final(self).vel.mag.raw <= VEL_LIMIT_RAW || final(self).vel.mag.raw <= old(
                self,
            ).vel.mag.raw,
    {
        self.step_vel(controls);
        let delta = self.vel.as_vec2();
        let next_pos_raw = self.pos.add(delta);
        let next_pos = match map.pixel_to_index(next_pos_raw) {
            Some(idx) => {
                let remapped = map.index_to_pixel(idx);
                if self.dir.is_horizontal() {
                    Vec2::new(next_pos_raw.x, remapped.y)
                } else {
                    Vec2::new(remapped.x, next_pos_raw.y)
                }
            },
            None => next_pos_raw,
        };
        let size = FixedScalar::from_raw(PLAYER_HITBOX_RAW);
        let next_hitbox = Rect::new(next_pos, Vec2::new(size, size));
        let mut collides = false;

        let tiles = map.tiles_intersecting(next_hitbox);
        let mut k: usize = 0;
        while k < tiles.len()
            invariant
                k <= tiles@.len(),
                tiles@ == map.spec_tiles_intersecting(next_hitbox),
                collides == exists|i: int|
                    0 <= i < k && !(#[trigger] tiles@[i]).spec_allows_player(),
            decreases tiles@.len() - k,
        {
            if !tiles[k].allows_player() {
                collides = true;
            }
            k += 1;
        }
        proof {
            crate::map::lemma_tiles_intersecting_exists(
                *map,
                next_hitbox,
                |t: MapTile| !t.spec_allows_player(),
            );
            assert(collides == spec_blocked_by_terrain(*map, next_hitbox));
        }

        if !collides {
            let mut j: usize = 0;
            while j < others.len()
                invariant
                    j <= others@.len(),
                    forall|i: int|
                        0 <= i < others@.len() ==> spec_pos_within(
                            (#[trigger] others@[i]).pos,
                            POS_SAFE_RAW as int,
                        ),
                    spec_pos_within(next_hitbox.pos, (POS_SAFE_RAW + VEL_LIMIT_RAW) as int),
                    next_hitbox.size.x.raw == PLAYER_HITBOX_RAW,
                    next_hitbox.size.y.raw == PLAYER_HITBOX_RAW,
                    collides == exists|i: int|
                        0 <= i < j && i != self_idx && spec_rects_overlap(
                            next_hitbox,
                            spec_player_hitbox_at((#[trigger] others@[i]).pos),
                        ),
                decreases others@.len() - j,
            {
                if j != self_idx {
                    let other = &others[j];
                    if next_hitbox.overlaps(other.hitbox()) {
                        collides = true;
                    }
                }
                j += 1;
            }
        }

        if collides {
            self.vel = AlignedVec::zero(self.dir);
        } else {
            self.pos = next_pos;
        }
    }

    /// Steps the velocity and facing under the sampled controls, exactly as
    /// `spec_step_vel` says.
    fn step_vel(&mut self, controls: ControlsRepr)
        requires
            old(self).vel.wf(),
            old(self).vel.mag.raw <= VEL_LIMIT_RAW,
        ensures
            *final(self) == spec_step_vel(*old(self), controls),
            final(self).vel.wf(),
            final(self).vel.mag.raw <= VEL_LIMIT_RAW || final(self).vel.mag.raw <= old(
                self,
            ).vel.mag.raw,
            final(self).pos == old(self).pos,
    {
        let is_overboost = self.vel.magnitude().raw > PLAYER_SPEED_RAW;
        if is_overboost {
            self.vel = self.vel.step_to(
                FixedScalar::from_raw(PLAYER_OVERBOOST_FRICTION_RAW),
                FixedScalar::from_raw(0),
            );
            if let Some(d) = controls.dir {
                self.dir = d;
            }
        } else {
            match controls.dir {
                None => {
                    self.vel = self.vel.step_to(
                        FixedScalar::from_raw(PLAYER_FRICTION_RAW),
                        FixedScalar::from_raw(0),
                    );
                },
                Some(ndir) => {
                    self.dir = ndir;
                    let target = AlignedVec::new(FixedScalar::from_raw(PLAYER_SPEED_RAW), ndir);
                    self.vel = self.vel.step_to_dir(
                        FixedScalar::from_raw(PLAYER_ACCEL_RAW),
                        target,
                    );
                },
            }
        }
    }
}

/// Movement rejection is atomic: when either a terrain or a player
/// collision blocks the candidate move, the tick leaves the position
/// exactly unchanged and the velocity exactly zero.
pub proof fn lemma_move_rejection_atomic(
    p: Player,
    map: BaseMap,
    others: Seq<Player>,
    self_idx: int,
    controls: ControlsRepr,
)
    ensures
        ({
            let pv = spec_step_vel(p, controls);
            let (dx, dy) = pv.vel.dir.spec_scaled_raw(pv.vel.mag.raw as int);
            let cand = spec_candidate_pos(pv.pos, dx, dy, pv.dir);
            let rect = spec_player_hitbox_at(cand);
            (spec_blocked_by_terrain(map, rect) || spec_blocked_by_players(others, self_idx, rect))
                ==> spec_player_update(p, map, others, self_idx, controls).pos == p.pos
                && spec_player_update(p, map, others, self_idx, controls).vel.mag.raw == 0
        }),
{
}

} // verus!
