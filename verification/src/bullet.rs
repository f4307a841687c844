//! Bullet entities and their per-tick physics.
//!
//! A bullet advances one speed step along its travel direction, then tests,
//! in order: the players (first hit marks the bullet dead and may emit an
//! event), the other bullets (same kind kills both sides, an opposing
//! reflector flips the travel direction), and finally the map tile under
//! the hitbox centre (blocks kill, mirrors remap the direction, pipes kill
//! across their axis).

use vstd::prelude::*;
use crate::fixed::Direction;
use crate::fixed::FixedScalar;
use crate::fixed::Rect;
use crate::fixed::Vec2;
use crate::fixed::spec_rects_overlap;
use crate::map::BaseMap;
use crate::player::Player;
use crate::player::PlayerTag;
use crate::player::spec_player_hitbox_at;
use crate::player::spec_pos_within;
use crate::player::POS_SAFE_RAW;
use crate::tiles::MapTile;

verus! {

/// Speed of a normal bullet: 1/32 pixel per tick bit, in raw units.
pub const BULLET_SPEED_RAW: i32 = 8;

/// Speed of a reflector: 1/64 pixel per tick bit, in raw units.
pub const SHIELD_SPEED_RAW: i32 = 4;

/// Hitbox edge of a bullet: 4 pixels, in raw units.
pub const BULLET_HITBOX_RAW: i32 = 1024;

/// The owner a bullet carries: none, or one of the four player slots.
#[derive(Clone, Copy, PartialEq, Eq, Structural, Debug, Hash)]
pub enum BulletTag {
    NoPlayer,
    Player1,
    Player2,
    Player3,
    Player4,
}

impl BulletTag {
    /// Whether this owner tag is the given player's own tag.
    pub open spec fn spec_matches_player(self, player: PlayerTag) -> bool {
        match (self, player) {
            (BulletTag::Player1, PlayerTag::P1) => true,
            (BulletTag::Player2, PlayerTag::P2) => true,
            (BulletTag::Player3, PlayerTag::P3) => true,
            (BulletTag::Player4, PlayerTag::P4) => true,
            _ => false,
        }
    }

    pub fn matches_player(self, player: PlayerTag) -> (r: bool)
        ensures
            r == self.spec_matches_player(player),
    {
        match (self, player) {
            (BulletTag::Player1, PlayerTag::P1) => true,
            (BulletTag::Player2, PlayerTag::P2) => true,
            (BulletTag::Player3, PlayerTag::P3) => true,
            (BulletTag::Player4, PlayerTag::P4) => true,
            _ => false,
        }
    }

    /// Whether a bullet with this owner tag scores against the given
    /// player: everyone but the owner.
    pub fn hits_player(self, ptag: PlayerTag) -> (r: bool)
        ensures
            r == !self.spec_matches_player(ptag),
    {
        !self.matches_player(ptag)
    }
}

impl Default for BulletTag {
    /// A fresh bullet starts unowned.
    fn default() -> (r: Self)
        ensures
            r == BulletTag::NoPlayer,
    {
        BulletTag::NoPlayer
    }
}

/// The two projectile kinds: a normal bullet scores hits, a reflector is a
/// defensive projectile that flips opposing bullets and dies on player
/// contact without scoring.
#[derive(Clone, Copy, PartialEq, Eq, Structural, Debug, Hash)]
pub enum BulletType {
    Bullet,
    Reflector,
}

impl Default for BulletType {
    /// The ordinary projectile kind.
    fn default() -> (r: Self)
        ensures
            r == BulletType::Bullet,
    {
        BulletType::Bullet
    }
}

/// What a bullet reports to the orchestrator after striking a player.
#[derive(Clone, Copy, PartialEq, Eq, Structural, Debug, Hash)]
pub enum BulletEvent {
    /// An opposing bullet struck this player.
    KillPlayer(PlayerTag),
    /// The owner's own bullet struck them: push them along the bullet's
    /// travel direction and feed their charge.
    PushChargePlayer(PlayerTag, Direction),
}

/// A bullet entity.
#[derive(Clone, Copy, PartialEq, Eq, Structural, Debug)]
pub struct Bullet {
    pub pos: Vec2,
    pub dir: Direction,
    pub tag: BulletTag,
    pub kind: BulletType,
    pub should_die: bool,
}

/// The per-tick raw speed of a bullet kind: a normal bullet flies twice as
/// fast as a reflector.
pub open spec fn spec_bullet_speed(kind: BulletType) -> int {
    match kind {
        BulletType::Bullet => BULLET_SPEED_RAW as int,
        BulletType::Reflector => SHIELD_SPEED_RAW as int,
    }
}

/// The hitbox of a bullet at position `pos`: a 4-pixel square whose
/// top-left corner is the position.
pub open spec fn spec_bullet_hitbox_at(pos: Vec2) -> Rect {
    Rect {
        pos,
        size: Vec2 {
            x: FixedScalar { raw: BULLET_HITBOX_RAW },
            y: FixedScalar { raw: BULLET_HITBOX_RAW },
        },
    }
}

/// A bullet's position after one speed step along its travel direction.
pub open spec fn spec_advanced_pos(b: Bullet) -> Vec2 {
    let (dx, dy) = b.dir.spec_scaled_raw(spec_bullet_speed(b.kind));
    Vec2 {
        x: FixedScalar { raw: (b.pos.x.raw + dx) as i32 },
        y: FixedScalar { raw: (b.pos.y.raw + dy) as i32 },
    }
}

/// The first player in `players` (by index) whose hitbox overlaps `rect`.
pub open spec fn spec_first_player_hit(players: Seq<Player>, rect: Rect, i: int) -> Option<int>
    decreases players.len() - i,
{
    if i < 0 || i >= players.len() {
        None
    } else if spec_rects_overlap(rect, spec_player_hitbox_at(players[i].pos)) {
        Some(i)
    } else {
        spec_first_player_hit(players, rect, i + 1)
    }
}

/// The event a bullet emits after striking a player: reflectors score
/// nothing, the owner's own bullet pushes, any other bullet kills.
pub open spec fn spec_player_hit_event(
    kind: BulletType,
    tag: BulletTag,
    ptag: PlayerTag,
    dir: Direction,
) -> Option<BulletEvent> {
    if kind != BulletType::Bullet {
        None
    } else if tag.spec_matches_player(ptag) {
        Some(BulletEvent::PushChargePlayer(ptag, dir))
    } else {
        Some(BulletEvent::KillPlayer(ptag))
    }
}

/// How one colliding bullet pair affects the scanning side: the same kind
/// on both sides dies, an opposing reflector flips the travel direction,
/// anything else leaves the scanning side alone. The pair `(direction,
/// dies)` is the scanning bullet's outcome.
pub open spec fn spec_bullet_pair_outcome(
    kind: BulletType,
    other_kind: BulletType,
    dir: Direction,
) -> (Direction, bool) {
    if kind == other_kind {
        (dir, true)
    } else if other_kind == BulletType::Reflector {
        (dir.spec_flipped(), false)
    } else {
        (dir, false)
    }
}

/// The travel direction and death flag after scanning the other bullets
/// from index `i` on: the scan stops at the first same-kind collision and
/// otherwise accumulates direction flips from opposing reflectors.
pub open spec fn spec_bullet_scan(
    others: Seq<Bullet>,
    self_idx: int,
    rect: Rect,
    kind: BulletType,
    dir: Direction,
    i: int,
) -> (Direction, bool)
    decreases others.len() - i,
{
    if i < 0 || i >= others.len() {
        (dir, false)
    } else if i == self_idx || !spec_rects_overlap(rect, spec_bullet_hitbox_at(others[i].pos)) {
        spec_bullet_scan(others, self_idx, rect, kind, dir, i + 1)
    } else {
        let (ndir, dies) = spec_bullet_pair_outcome(kind, others[i].kind, dir);
        if dies {
            (ndir, true)
        } else {
            spec_bullet_scan(others, self_idx, rect, kind, ndir, i + 1)
        }
    }
}

/// What the tile under a bullet's centre does to it: the pair is the new
/// travel direction and whether the bullet dies.
pub open spec fn spec_tile_outcome(tile: MapTile, dir: Direction) -> (Direction, bool) {
    match tile {
        MapTile::Empty => (dir, false),
        MapTile::Block => (dir, true),
        MapTile::UpMirror => (
            match dir {
                Direction::Right => Direction::Up,
                Direction::Up => Direction::Right,
                Direction::Down => Direction::Left,
                Direction::Left => Direction::Down,
            },
            false,
        ),
        MapTile::DownMirror => (
            match dir {
                Direction::Right => Direction::Down,
                Direction::Down => Direction::Right,
                Direction::Up => Direction::Left,
                Direction::Left => Direction::Up,
            },
            false,
        ),
        MapTile::HorizMirror => if dir.spec_is_vertical() {
            (dir.spec_flipped(), false)
        } else {
            (dir, true)
        },
        MapTile::VertMirror => if dir.spec_is_horizontal() {
            (dir.spec_flipped(), false)
        } else {
            (dir, true)
        },
        MapTile::HorizPipe => if dir.spec_is_vertical() {
            (dir, true)
        } else {
            (dir, false)
        },
        MapTile::VertPipe => if dir.spec_is_horizontal() {
            (dir, true)
        } else {
            (dir, false)
        },
    }
}

/// The centre of a bullet hitbox whose top-left corner is `pos`.
pub open spec fn spec_bullet_center(pos: Vec2) -> Vec2 {
    Vec2 {
        x: FixedScalar { raw: (pos.x.raw + BULLET_HITBOX_RAW / 2) as i32 },
        y: FixedScalar { raw: (pos.y.raw + BULLET_HITBOX_RAW / 2) as i32 },
    }
}

/// One whole bullet tick: advance, then the player, bullet and tile tests
/// in order. Returns the updated bullet and the emitted event, if any.
pub open spec fn spec_bullet_update(
    b: Bullet,
    map: BaseMap,
    players: Seq<Player>,
    others: Seq<Bullet>,
    self_idx: int,
) -> (Bullet, Option<BulletEvent>) {
    let pos = spec_advanced_pos(b);
    let rect = spec_bullet_hitbox_at(pos);
    match spec_first_player_hit(players, rect, 0) {
        Some(i) => (
            Bullet { pos, should_die: true, ..b },
            spec_player_hit_event(b.kind, b.tag, players[i].tag, b.dir),
        ),
        None => {
            let (dir2, died) = spec_bullet_scan(others, self_idx, rect, b.kind, b.dir, 0);
            if died {
                (Bullet { pos, dir: dir2, should_die: true, ..b }, None)
            } else {
                let tile = map.spec_tile_at_pixel(spec_bullet_center(pos));
                let (dir3, dies) = spec_tile_outcome(tile, dir2);
                (
                    Bullet { pos, dir: dir3, should_die: b.should_die || dies, ..b },
                    None,
                )
            }
        },
    }
}

impl Bullet {
    /// A fresh, live bullet.
    pub fn new(pos: Vec2, dir: Direction, tag: BulletTag, kind: BulletType) -> (r: Self)
        ensures
            r == (Bullet { pos, dir, tag, kind, should_die: false }),
    {
        Self { pos, dir, tag, kind, should_die: false }
    }

    /// This bullet's per-tick speed.
    pub fn speed(&self) -> (r: FixedScalar)
        ensures
            r.raw == spec_bullet_speed(self.kind),
    {
        match self.kind {
            BulletType::Bullet => FixedScalar::from_raw(BULLET_SPEED_RAW),
            BulletType::Reflector => FixedScalar::from_raw(SHIELD_SPEED_RAW),
        }
    }

    /// This bullet's hitbox at its current position.
    pub fn hitbox(&self) -> (r: Rect)
        ensures
            r == spec_bullet_hitbox_at(self.pos),
    {
        let size = FixedScalar::from_raw(BULLET_HITBOX_RAW);
        Rect::new(self.pos, Vec2::new(size, size))
    }

    /// Advances this bullet by one tick against the updated players and the
    /// snapshot `others` of the bullet collection (`self_idx` is this
    /// bullet's slot in it and is skipped). The result is exactly
    /// `spec_bullet_update`; the returned event, if any, names the first
    /// player hit.
    pub fn update(
        &mut self,
        map: &BaseMap,
        players: &Vec<Player>,
        others: &Vec<Bullet>,
        self_idx: usize,
    ) -> (evt: Option<BulletEvent>)
        requires
            map.wf(),
            spec_pos_within(old(self).pos, POS_SAFE_RAW as int),
            forall|j: int|
                0 <= j < players@.len() ==> spec_pos_within(
                    (#[trigger] players@[j]).pos,
                    POS_SAFE_RAW as int,
                ),
            forall|j: int|
                0 <= j < others@.len() ==> spec_pos_within(
                    (#[trigger] others@[j]).pos,
                    POS_SAFE_RAW as int,
                ),
        ensures
            (*final(self), evt) == spec_bullet_update(
                *old(self),
                *map,
                players@,
                others@,
                self_idx as int,
            ),
    {
        let delta = self.dir.scaled_vec(self.speed());
        self.pos = self.pos.add(delta);
        let rect = self.hitbox();

        let ghost players_seq = players@;
        let mut i: usize = 0;
        while i < players.len()
            invariant
                i <= players_seq.len(),
                players_seq == players@,
                forall|j: int|
                    0 <= j < players_seq.len() ==> spec_pos_within(
                        (#[trigger] players_seq[j]).pos,
                        POS_SAFE_RAW as int,
                    ),
                *self == (Bullet { pos: spec_advanced_pos(*old(self)), ..*old(self) }),
                rect == spec_bullet_hitbox_at(self.pos),
                spec_pos_within(rect.pos, (POS_SAFE_RAW + BULLET_SPEED_RAW) as int),
                spec_first_player_hit(players_seq, rect, 0) == spec_first_player_hit(
                    players_seq,
                    rect,
                    i as int,
                ),
            decreases players_seq.len() - i,
        {
            let player = &players[i];
            if rect.overlaps(player.hitbox()) {
                self.should_die = true;
                if matches!(self.kind, BulletType::Reflector) {
                    return None;
                }
                if self.tag.matches_player(player.tag) {
                    return Some(BulletEvent::PushChargePlayer(player.tag, self.dir));
                } else {
                    return Some(BulletEvent::KillPlayer(player.tag));
                }
            }
            i += 1;
        }

        let ghost others_seq = others@;
        let mut j: usize = 0;
        while j < others.len()
            invariant
                j <= others_seq.len(),
                others_seq == others@,
                forall|k: int|
                    0 <= k < others_seq.len() ==> spec_pos_within(
                        (#[trigger] others_seq[k]).pos,
                        POS_SAFE_RAW as int,
                    ),
                self.pos == spec_advanced_pos(*old(self)),
                self.tag == old(self).tag,
                self.kind == old(self).kind,
                self.should_die == old(self).should_die,
                rect == spec_bullet_hitbox_at(self.pos),
                spec_pos_within(rect.pos, (POS_SAFE_RAW + BULLET_SPEED_RAW) as int),
                spec_first_player_hit(players@, rect, 0) is None,
                spec_bullet_scan(others_seq, self_idx as int, rect, self.kind, old(self).dir, 0)
                    == spec_bullet_scan(
                    others_seq,
                    self_idx as int,
                    rect,
                    self.kind,
                    self.dir,
                    j as int,
                ),
            decreases others_seq.len() - j,
        {
            if j != self_idx {
                let other = &others[j];
                if rect.overlaps(other.hitbox()) {
                    if self.kind == other.kind {
                        self.should_die = true;
                        return None;
                    }
                    if matches!(other.kind, BulletType::Reflector) {
                        self.dir = self.dir.flipped();
                    }
                }
            }
            j += 1;
        }

        let center = rect.center();
        let tile = map.tile_at_pixel(center);
        match tile {
            MapTile::Block => {
                self.should_die = true;
            },
            MapTile::UpMirror => {
                self.dir = match self.dir {
                    Direction::Right => Direction::Up,
                    Direction::Up => Direction::Right,
                    Direction::Down => Direction::Left,
                    Direction::Left => Direction::Down,
                };
            },
            MapTile::DownMirror => {
                self.dir = match self.dir {
                    Direction::Right => Direction::Down,
                    Direction::Down => Direction::Right,
                    Direction::Up => Direction::Left,
                    Direction::Left => Direction::Up,
                };
            },
            MapTile::HorizMirror => {
                if self.dir.is_vertical() {
                    self.dir = self.dir.flipped();
                } else {
                    self.should_die = true;
                }
            },
            MapTile::VertMirror => {
                if self.dir.is_horizontal() {
                    self.dir = self.dir.flipped();
                } else {
                    self.should_die = true;
                }
            },
            MapTile::HorizPipe => {
                if self.dir.is_vertical() {
                    self.should_die = true;
                }
            },
            MapTile::VertPipe => {
                if self.dir.is_horizontal() {
                    self.should_die = true;
                }
            },
            MapTile::Empty => {},
        }
        None
    }
}

/// Mirror reflection law: a bullet entering an up-slanted mirror leaves
/// with right and up exchanged and with down and left exchanged; a
/// down-slanted mirror exchanges right with down and up with left. Neither
/// mirror kills, and applying the same mirror twice restores the original
/// direction.
pub proof fn lemma_mirror_reflection(dir: Direction)
    ensures
        spec_tile_outcome(MapTile::UpMirror, Direction::Right) == (Direction::Up, false),
        spec_tile_outcome(MapTile::UpMirror, Direction::Up) == (Direction::Right, false),
        spec_tile_outcome(MapTile::UpMirror, Direction::Down) == (Direction::Left, false),
        spec_tile_outcome(MapTile::UpMirror, Direction::Left) == (Direction::Down, false),
        spec_tile_outcome(MapTile::DownMirror, Direction::Right) == (Direction::Down, false),
        spec_tile_outcome(MapTile::DownMirror, Direction::Down) == (Direction::Right, false),
        spec_tile_outcome(MapTile::DownMirror, Direction::Up) == (Direction::Left, false),
        spec_tile_outcome(MapTile::DownMirror, Direction::Left) == (Direction::Up, false),
        spec_tile_outcome(MapTile::UpMirror, spec_tile_outcome(MapTile::UpMirror, dir).0).0 == dir,
        spec_tile_outcome(MapTile::DownMirror, spec_tile_outcome(MapTile::DownMirror, dir).0).0
            == dir,
{
}

/// Pipe axis law: a bullet travelling vertically through a horizontal pipe
/// always dies, as does one travelling horizontally through a vertical
/// pipe; the aligned cases pass through with the direction unchanged.
pub proof fn lemma_pipe_axis(dir: Direction)
    ensures
        dir.spec_is_vertical() ==> spec_tile_outcome(MapTile::HorizPipe, dir) == (dir, true),
        dir.spec_is_horizontal() ==> spec_tile_outcome(MapTile::VertPipe, dir) == (dir, true),
        dir.spec_is_horizontal() ==> spec_tile_outcome(MapTile::HorizPipe, dir) == (dir, false),
        dir.spec_is_vertical() ==> spec_tile_outcome(MapTile::VertPipe, dir) == (dir, false),
{
}

/// Friendly-fire law: a normal bullet whose owner tag is the struck
/// player's own tag always yields a push event, never a kill, and a bullet
/// with any other owner tag (or none) always yields a kill.
pub proof fn lemma_friendly_fire(tag: BulletTag, ptag: PlayerTag, dir: Direction)
    ensures
        tag.spec_matches_player(ptag) ==> spec_player_hit_event(BulletType::Bullet, tag, ptag, dir)
            == Some(BulletEvent::PushChargePlayer(ptag, dir)),
        !tag.spec_matches_player(ptag) ==> spec_player_hit_event(
            BulletType::Bullet,
            tag,
            ptag,
            dir,
        ) == Some(BulletEvent::KillPlayer(ptag)),
{
}

/// Collision symmetry law, same kind: when two bullets of the same kind
/// overlap, each one's scan sees the other (overlap is symmetric) and each
/// one dies of it.
pub proof fn lemma_same_kind_collision_mutual(a: Bullet, b: Bullet)
    requires
        a.kind == b.kind,
        spec_rects_overlap(spec_bullet_hitbox_at(a.pos), spec_bullet_hitbox_at(b.pos)),
    ensures
        spec_rects_overlap(spec_bullet_hitbox_at(b.pos), spec_bullet_hitbox_at(a.pos)),
        spec_bullet_pair_outcome(a.kind, b.kind, a.dir) == (a.dir, true),
        spec_bullet_pair_outcome(b.kind, a.kind, b.dir) == (b.dir, true),
{
}

/// A scan that meets some same-kind collision always ends dead, whatever
/// reflector flips happen along the way.
proof fn lemma_scan_dies_on_same_kind(
    others: Seq<Bullet>,
    self_idx: int,
    rect: Rect,
    kind: BulletType,
    dir: Direction,
    i: int,
    j: int,
)
    requires
        0 <= i <= j < others.len(),
        j != self_idx,
        spec_rects_overlap(rect, spec_bullet_hitbox_at(others[j].pos)),
        others[j].kind == kind,
    ensures
        spec_bullet_scan(others, self_idx, rect, kind, dir, i).1,
    decreases j - i,
{
    if i < j {
        if i == self_idx || !spec_rects_overlap(rect, spec_bullet_hitbox_at(others[i].pos)) {
            lemma_scan_dies_on_same_kind(others, self_idx, rect, kind, dir, i + 1, j);
        } else {
            let (ndir, dies) = spec_bullet_pair_outcome(kind, others[i].kind, dir);
            if !dies {
                lemma_scan_dies_on_same_kind(others, self_idx, rect, kind, ndir, i + 1, j);
            }
        }
    }
}

/// Collision symmetry law, same kind, through the whole update: when two
/// bullets of the same kind in the snapshot each overlap the other after
/// advancing, one tick marks both of them dead.
pub proof fn lemma_same_kind_mutual_death(
    map: BaseMap,
    players: Seq<Player>,
    others: Seq<Bullet>,
    ia: int,
    ib: int,
)
    requires
        0 <= ia < others.len(),
        0 <= ib < others.len(),
        ia != ib,
        others[ia].kind == others[ib].kind,
        spec_rects_overlap(
            spec_bullet_hitbox_at(spec_advanced_pos(others[ia])),
            spec_bullet_hitbox_at(others[ib].pos),
        ),
        spec_rects_overlap(
            spec_bullet_hitbox_at(spec_advanced_pos(others[ib])),
            spec_bullet_hitbox_at(others[ia].pos),
        ),
    ensures
        spec_bullet_update(others[ia], map, players, others, ia).0.should_die,
        spec_bullet_update(others[ib], map, players, others, ib).0.should_die,
{
    let rect_a = spec_bullet_hitbox_at(spec_advanced_pos(others[ia]));
    if spec_first_player_hit(players, rect_a, 0) is None {
        lemma_scan_dies_on_same_kind(
            others,
            ia,
            rect_a,
            others[ia].kind,
            others[ia].dir,
            0,
            ib,
        );
    }
    let rect_b = spec_bullet_hitbox_at(spec_advanced_pos(others[ib]));
    if spec_first_player_hit(players, rect_b, 0) is None {
        lemma_scan_dies_on_same_kind(
            others,
            ib,
            rect_b,
            others[ib].kind,
            others[ib].dir,
            0,
            ia,
        );
    }
}

/// Collision symmetry law, opposing kinds: a normal bullet colliding with a
/// reflector reverses its travel direction and does not die of the
/// collision, and the reflector is left untouched by it.
pub proof fn lemma_reflector_collision(a: Bullet, b: Bullet)
    requires
        a.kind == BulletType::Bullet,
        b.kind == BulletType::Reflector,
    ensures
        spec_bullet_pair_outcome(a.kind, b.kind, a.dir) == (a.dir.spec_flipped(), false),
        spec_bullet_pair_outcome(b.kind, a.kind, b.dir) == (b.dir, false),
{
}

} // verus!
