//! The packed tile grid.
//!
//! The map is a fixed-size grid of `MapTile`s packed two per byte: the high
//! nibble holds the tile at the even x-index, the low nibble the tile at the
//! odd x-index, and in every nibble only the low three bits are meaningful
//! (the top bit is always zero). The grid also carries the four spawn
//! coordinates, in index space.
//!
//! Pixel positions map to grid indices through an 8-pixel tile size and a
//! one-tile buffer ring around the playfield; a pixel outside the grid
//! resolves permissively to no index (and so to an `Empty` tile) rather than
//! failing.

use vstd::prelude::*;
use crate::tiles::MapTile;
use crate::tiles::spec_tile_code;
use crate::tiles::spec_tile_of;
use crate::tiles::lemma_tile_code_round_trip;
use crate::fixed::FixedScalar;
use crate::fixed::Vec2;
use crate::fixed::Rect;

verus! {

/// Grid width in tiles.
pub const MAP_WIDTH: usize = 28;

/// Grid height in tiles.
pub const MAP_HEIGHT: usize = 18;

/// Bytes per packed row: two tiles per byte.
pub const MAP_BYTE_WIDTH: usize = 14;

/// Pixels per tile edge.
pub const TILE_SIZE: i32 = 8;

/// Tiles of screen border around the grid.
pub const BUFFER_TILES: i32 = 1;

/// Raw fixed-point units per tile edge: `TILE_SIZE * 256`.
pub const TILE_RAW: i32 = 2048;

/// The packed tile grid plus its four spawn coordinates.
#[derive(Clone, PartialEq, Eq, Debug)]
pub struct BaseMap {
    data: Vec<u8>,
    spawns: [(usize, usize); 4],
}

/// The nibble of `b` selected by `high`.
pub open spec fn spec_nibble(b: u8, high: bool) -> u8 {
    if high {
        b >> 4
    } else {
        b & 0x0f
    }
}

/// `b` with the nibble selected by `high` replaced by `code`.
pub open spec fn spec_pack_byte(b: u8, code: u8, high: bool) -> u8 {
    if high {
        (code << 4u8) | (b & 0x0f)
    } else {
        (b & 0xf0) | code
    }
}

/// The packed byte rows with the cell at `(x, y)` set to the tile coded
/// `code`.
pub open spec fn spec_packed_set(bytes: Seq<u8>, x: int, y: int, code: u8) -> Seq<u8> {
    let idx = BaseMap::spec_byte_index(x, y);
    bytes.update(idx, spec_pack_byte(bytes[idx], code, x % 2 == 0))
}

/// The tile stored at cell `(x, y)` of packed byte rows.
pub open spec fn spec_tile_at(bytes: Seq<u8>, x: int, y: int) -> MapTile {
    spec_tile_of(spec_nibble(bytes[BaseMap::spec_byte_index(x, y)], x % 2 == 0))
}

/// Packing round-trip: writing a tile into a packed grid stores exactly
/// that tile at the written cell and perturbs no other cell.
pub proof fn lemma_pack_round_trip(bytes: Seq<u8>, x: int, y: int, t: MapTile)
    requires
        bytes.len() == MAP_HEIGHT * MAP_BYTE_WIDTH,
        0 <= x < MAP_WIDTH,
        0 <= y < MAP_HEIGHT,
    ensures
        spec_tile_at(spec_packed_set(bytes, x, y, spec_tile_code(t)), x, y) == t,
        forall|xo: int, yo: int|
            0 <= xo < MAP_WIDTH && 0 <= yo < MAP_HEIGHT && (xo, yo) != (x, y) ==> spec_tile_at(
                spec_packed_set(bytes, x, y, spec_tile_code(t)),
                xo,
                yo,
            ) == spec_tile_at(bytes, xo, yo),
{
    let code = spec_tile_code(t);
    let idx = BaseMap::spec_byte_index(x, y);
    let b = bytes[idx];
    lemma_tile_code_round_trip(t);
    assert(code < 8 ==> ((code << 4u8) | (b & 0x0f)) >> 4 == code && ((code << 4u8) | (b & 0x0f))
        & 0x0f == b & 0x0f && (((b & 0xf0) | code) & 0x0f) & 0x07 == code & 0x07 && ((b & 0xf0)
        | code) >> 4 == b >> 4 && (b & 0x0f) & 0x07 == b & 0x07) by (bit_vector);
    assert forall|xo: int, yo: int|
        0 <= xo < MAP_WIDTH && 0 <= yo < MAP_HEIGHT && (xo, yo) != (x, y) implies spec_tile_at(
        spec_packed_set(bytes, x, y, code),
        xo,
        yo,
    ) == spec_tile_at(bytes, xo, yo) by {
        lemma_distinct_cells(xo, yo, x, y);
    }
}

impl BaseMap {
    /// The packed bytes, row-major.
    pub closed spec fn bytes(self) -> Seq<u8> {
        self.data@
    }

    /// The four spawn coordinates.
    pub closed spec fn spec_spawns(self) -> Seq<(usize, usize)> {
        self.spawns@
    }

    /// Shape and nibble invariant: one byte for every pair of cells, the
    /// top bit of every nibble clear, and the four spawn coordinates inside
    /// the grid.
    pub open spec fn wf(self) -> bool {
        &&& self.bytes().len() == MAP_HEIGHT * MAP_BYTE_WIDTH
        &&& forall|i: int|
            0 <= i < self.bytes().len() ==> (#[trigger] self.bytes()[i]) >> 4 < 8 && self.bytes()[i]
                & 0x0f < 8
        &&& self.spec_spawns().len() == 4
        &&& forall|k: int|
            0 <= k < 4 ==> (#[trigger] self.spec_spawns()[k]).0 < MAP_WIDTH
                && self.spec_spawns()[k].1 < MAP_HEIGHT
    }

    /// The byte holding the cell at `(x, y)`.
    pub open spec fn spec_byte_index(x: int, y: int) -> int {
        y * (MAP_BYTE_WIDTH as int) + x / 2
    }

    /// The tile at grid index `(x, y)`.
    pub open spec fn spec_tile(self, x: int, y: int) -> MapTile {
        spec_tile_at(self.bytes(), x, y)
    }

    /// The tile at grid index `(x, y)`.
    pub fn get(&self, x: usize, y: usize) -> (r: MapTile)
        requires
            self.wf(),
            x < MAP_WIDTH,
            y < MAP_HEIGHT,
        ensures
            r == self.spec_tile(x as int, y as int),
    {
        let elm = self.data[y * MAP_BYTE_WIDTH + x / 2];
        if x % 2 == 0 {
            let r = MapTile::from_u8(elm >> 4);
            r
        } else {
            let r = MapTile::from_u8(elm);
            proof {
                let b = self.bytes()[Self::spec_byte_index(x as int, y as int)];
                assert(b & 0x07 == (b & 0x0f) & 0x07) by (bit_vector);
            }
            r
        }
    }

    /// Writes `tile` into the cell at `(x, y)`, leaving every other cell,
    /// and the spawn list, unchanged.
    pub fn set(&mut self, x: usize, y: usize, tile: MapTile)
        requires
            old(self).wf(),
            x < MAP_WIDTH,
            y < MAP_HEIGHT,
        ensures
            final(self).wf(),
            final(self).spec_spawns() == old(self).spec_spawns(),
            final(self).bytes() == spec_packed_set(
                old(self).bytes(),
                x as int,
                y as int,
                spec_tile_code(tile),
            ),
            final(self).spec_tile(x as int, y as int) == tile,
            forall|xo: int, yo: int|
                0 <= xo < MAP_WIDTH && 0 <= yo < MAP_HEIGHT && (xo, yo) != (x as int, y as int)
                    ==> final(self).spec_tile(xo, yo) == old(self).spec_tile(xo, yo),
    {
        let idx = y * MAP_BYTE_WIDTH + x / 2;
        let elm = self.data[idx];
        let mask = tile.to_u8();
        let nelm = if x % 2 == 0 {
            (mask << 4u8) | (elm & 0x0f)
        } else {
            (elm & 0xf0) | mask
        };
        self.data.set(idx, nelm);
        proof {
            let code = spec_tile_code(tile);
            assert(code < 8 && elm >> 4 < 8 && elm & 0x0f < 8 ==> ((code << 4u8) | (elm & 0x0f))
                >> 4 == code && ((code << 4u8) | (elm & 0x0f)) & 0x0f == elm & 0x0f && ((elm & 0xf0)
                | code) & 0x0f == code && ((elm & 0xf0) | code) >> 4 == elm >> 4) by (bit_vector);
            lemma_pack_round_trip(old(self).bytes(), x as int, y as int, tile);
        }
    }

    /// `set` on an owned map; handy in generation chains.
    pub fn with(self, x: usize, y: usize, tile: MapTile) -> (r: Self)
        requires
            self.wf(),
            x < MAP_WIDTH,
            y < MAP_HEIGHT,
        ensures
            r.wf(),
            r.spec_spawns() == self.spec_spawns(),
            r.spec_tile(x as int, y as int) == tile,
            forall|xo: int, yo: int|
                0 <= xo < MAP_WIDTH && 0 <= yo < MAP_HEIGHT && (xo, yo) != (x as int, y as int)
                    ==> r.spec_tile(xo, yo) == self.spec_tile(xo, yo),
    {
        let mut retvl = self;
        retvl.set(x, y, tile);
        retvl
    }

    /// Replaces the cell at `(x, y)` with its flipped kind.
    pub fn flip(&mut self, x: usize, y: usize)
        requires
            old(self).wf(),
            x < MAP_WIDTH,
            y < MAP_HEIGHT,
        ensures
            final(self).wf(),
            final(self).spec_spawns() == old(self).spec_spawns(),
            final(self).spec_tile(x as int, y as int) == old(self).spec_tile(
                x as int,
                y as int,
            ).spec_flipped(),
            forall|xo: int, yo: int|
                0 <= xo < MAP_WIDTH && 0 <= yo < MAP_HEIGHT && (xo, yo) != (x as int, y as int)
                    ==> final(self).spec_tile(xo, yo) == old(self).spec_tile(xo, yo),
    {
        let t = self.get(x, y);
        self.set(x, y, t.flipped());
    }

    /// Flips every cell of the grid.
    pub fn flip_all(&mut self)
        requires
            old(self).wf(),
        ensures
            final(self).wf(),
            final(self).spec_spawns() == old(self).spec_spawns(),
            forall|xo: int, yo: int|
                0 <= xo < MAP_WIDTH && 0 <= yo < MAP_HEIGHT ==> final(self).spec_tile(xo, yo)
                    == old(self).spec_tile(xo, yo).spec_flipped(),
    {
        let mut x: usize = 0;
        while x < MAP_WIDTH
            invariant
                old(self).wf(),
                self.wf(),
                x <= MAP_WIDTH,
                self.spec_spawns() == old(self).spec_spawns(),
                forall|xo: int, yo: int|
                    0 <= xo < x && 0 <= yo < MAP_HEIGHT ==> self.spec_tile(xo, yo) == old(
                        self,
                    ).spec_tile(xo, yo).spec_flipped(),
                forall|xo: int, yo: int|
                    x <= xo < MAP_WIDTH && 0 <= yo < MAP_HEIGHT ==> self.spec_tile(xo, yo) == old(
                        self,
                    ).spec_tile(xo, yo),
            decreases MAP_WIDTH - x,
        {
            let mut y: usize = 0;
            while y < MAP_HEIGHT
                invariant
                    old(self).wf(),
                    self.wf(),
                    x < MAP_WIDTH,
                    y <= MAP_HEIGHT,
                    self.spec_spawns() == old(self).spec_spawns(),
                    forall|xo: int, yo: int|
                        0 <= xo < x && 0 <= yo < MAP_HEIGHT ==> self.spec_tile(xo, yo) == old(
                            self,
                        ).spec_tile(xo, yo).spec_flipped(),
                    forall|yo: int|
                        0 <= yo < y ==> self.spec_tile(x as int, yo) == old(self).spec_tile(
                            x as int,
                            yo,
                        ).spec_flipped(),
                    forall|yo: int|
                        y <= yo < MAP_HEIGHT ==> self.spec_tile(x as int, yo) == old(
                            self,
                        ).spec_tile(x as int, yo),
                    forall|xo: int, yo: int|
                        x < xo < MAP_WIDTH && 0 <= yo < MAP_HEIGHT ==> self.spec_tile(xo, yo)
                            == old(self).spec_tile(xo, yo),
                decreases MAP_HEIGHT - y,
            {
                self.flip(x, y);
                y += 1;
            }
            x += 1;
        }
    }
}

/// The grid index a pixel position falls in, or `None` for a position
/// outside the grid (including the buffer ring and anything negative).
pub open spec fn spec_pixel_to_index(pos: Vec2) -> Option<(usize, usize)> {
    if pos.x.raw < TILE_RAW || pos.y.raw < TILE_RAW {
        None
    } else {
        let x = pos.x.raw as int / (TILE_RAW as int) - 1;
        let y = pos.y.raw as int / (TILE_RAW as int) - 1;
        if x >= MAP_WIDTH || y >= MAP_HEIGHT {
            None
        } else {
            Some((x as usize, y as usize))
        }
    }
}

/// The first-occurrence deduplication of the first `i` entries of `s`:
/// each value appears once, in the order it first occurs.
pub open spec fn spec_dedup_prefix<T>(s: Seq<T>, i: int) -> Seq<T>
    decreases i,
{
    if i <= 0 {
        Seq::empty()
    } else {
        let rest = spec_dedup_prefix(s, i - 1);
        if rest.contains(s[i - 1]) {
            rest
        } else {
            rest.push(s[i - 1])
        }
    }
}

/// The deduplicated prefix holds exactly the values of the prefix.
pub proof fn lemma_dedup_prefix_membership<T>(s: Seq<T>, i: int, x: T)
    requires
        0 <= i <= s.len(),
    ensures
        spec_dedup_prefix(s, i).contains(x) == exists|j: int| 0 <= j < i && s[j] == x,
    decreases i,
{
    if i > 0 {
        lemma_dedup_prefix_membership(s, i - 1, x);
        let rest = spec_dedup_prefix(s, i - 1);
        let whole = spec_dedup_prefix(s, i);
        if rest.contains(s[i - 1]) {
            if x == s[i - 1] {
                assert(whole.contains(x));
            }
        } else {
            if x == s[i - 1] {
                assert(whole[rest.len() as int] == x);
                assert(whole.contains(x));
            } else {
                if rest.contains(x) {
                    let j = choose|j: int| 0 <= j < rest.len() && rest[j] == x;
                    assert(whole[j] == x);
                    assert(whole.contains(x));
                }
                if whole.contains(x) {
                    let j = choose|j: int| 0 <= j < whole.len() && whole[j] == x;
                    assert(j < rest.len());
                    assert(rest.contains(x));
                }
            }
        }
    }
}

impl BaseMap {
    /// The tile a cell index names, `Empty` for no index; the permissive
    /// reading of a `pixel_to_index` result.
    pub open spec fn spec_index_tile(self, o: Option<(usize, usize)>) -> MapTile {
        match o {
            None => MapTile::Empty,
            Some((x, y)) => self.spec_tile(x as int, y as int),
        }
    }

    /// The tile a pixel position falls on; positions outside the grid
    /// resolve permissively to `Empty`.
    pub open spec fn spec_tile_at_pixel(self, pos: Vec2) -> MapTile {
        self.spec_index_tile(spec_pixel_to_index(pos))
    }

    /// Converts a pixel position to the grid index it falls in, or `None`
    /// outside the grid.
    pub fn pixel_to_index(&self, pos: Vec2) -> (r: Option<(usize, usize)>)
        ensures
            r == spec_pixel_to_index(pos),
    {
        if pos.x.raw < TILE_RAW || pos.y.raw < TILE_RAW {
            return None;
        }
        let x = ((pos.x.raw as u32) / (TILE_RAW as u32) - 1) as usize;
        let y = ((pos.y.raw as u32) / (TILE_RAW as u32) - 1) as usize;
        if x >= MAP_WIDTH || y >= MAP_HEIGHT {
            return None;
        }
        Some((x, y))
    }

    /// The pixel position of the top-left corner of the tile at a grid
    /// index (the inverse of `pixel_to_index` on tile corners).
    pub fn index_to_pixel(&self, idx: (usize, usize)) -> (r: Vec2)
        requires
            idx.0 < MAP_WIDTH,
            idx.1 < MAP_HEIGHT,
        ensures
            r.x.raw == (idx.0 + 1) * TILE_RAW,
            r.y.raw == (idx.1 + 1) * TILE_RAW,
    {
        let x = FixedScalar::from_raw((idx.0 as i32 + BUFFER_TILES) * TILE_RAW);
        let y = FixedScalar::from_raw((idx.1 as i32 + BUFFER_TILES) * TILE_RAW);
        Vec2::new(x, y)
    }

    /// The tile under a pixel position, `Empty` outside the grid.
    pub fn tile_at_pixel(&self, pos: Vec2) -> (r: MapTile)
        requires
            self.wf(),
        ensures
            r == self.spec_tile_at_pixel(pos),
    {
        match self.pixel_to_index(pos) {
            None => MapTile::Empty,
            Some((x, y)) => self.get(x, y),
        }
    }

    /// The `k`-th corner of a box, in the order top-left, top-right,
    /// bottom-left, bottom-right.
    pub open spec fn spec_corner(hbox: Rect, k: int) -> Vec2 {
        let cx = if k == 1 || k == 3 {
            (hbox.pos.x.raw + hbox.size.x.raw) as i32
        } else {
            hbox.pos.x.raw
        };
        let cy = if k == 2 || k == 3 {
            (hbox.pos.y.raw + hbox.size.y.raw) as i32
        } else {
            hbox.pos.y.raw
        };
        Vec2 { x: FixedScalar { raw: cx }, y: FixedScalar { raw: cy } }
    }

    /// The cell indices the four corners of a box fall in, in the order
    /// top-left, top-right, bottom-left, bottom-right.
    pub open spec fn spec_corner_indices(hbox: Rect) -> Seq<Option<(usize, usize)>> {
        Seq::new(4, |k: int| spec_pixel_to_index(Self::spec_corner(hbox, k)))
    }

    /// The tiles under a box: one tile per distinct cell index among the
    /// box's four corners, in first-occurrence order, with an out-of-grid
    /// corner counting as one `Empty` entry.
    pub open spec fn spec_tiles_intersecting(self, hbox: Rect) -> Seq<MapTile> {
        spec_dedup_prefix(Self::spec_corner_indices(hbox), 4).map_values(
            |o: Option<(usize, usize)>| self.spec_index_tile(o),
        )
    }

    /// The tiles under a box, exactly `spec_tiles_intersecting`: one tile
    /// per distinct cell under the four corners, in first-occurrence order.
    pub fn tiles_intersecting(&self, hbox: Rect) -> (r: Vec<MapTile>)
        requires
            self.wf(),
            -0x8000_0000 <= hbox.pos.x.raw + hbox.size.x.raw <= 0x7fff_ffff,
            -0x8000_0000 <= hbox.pos.y.raw + hbox.size.y.raw <= 0x7fff_ffff,
        ensures
            r@ == self.spec_tiles_intersecting(hbox),
            1 <= r@.len() <= 4,
    {
        let ghost idxs = Self::spec_corner_indices(hbox);
        let c0 = self.pixel_to_index(hbox.tl());
        let c1 = self.pixel_to_index(hbox.tr());
        let c2 = self.pixel_to_index(hbox.bl());
        let c3 = self.pixel_to_index(hbox.br());
        let mut poses: Vec<Option<(usize, usize)>> = Vec::new();
        proof {
            assert(idxs[0] == c0 && idxs[1] == c1 && idxs[2] == c2 && idxs[3] == c3);
            assert(spec_dedup_prefix(idxs, 0) =~= Seq::<Option<(usize, usize)>>::empty());
        }
        if !contains_index(&poses, c0) {
            poses.push(c0);
        }
        proof {
            assert(poses@ =~= spec_dedup_prefix(idxs, 1));
        }
        if !contains_index(&poses, c1) {
            poses.push(c1);
        }
        proof {
            assert(poses@ =~= spec_dedup_prefix(idxs, 2));
        }
        if !contains_index(&poses, c2) {
            poses.push(c2);
        }
        proof {
            assert(poses@ =~= spec_dedup_prefix(idxs, 3));
        }
        if !contains_index(&poses, c3) {
            poses.push(c3);
        }
        proof {
            assert(poses@ =~= spec_dedup_prefix(idxs, 4));
        }

        let mut retvl: Vec<MapTile> = Vec::new();
        let mut i: usize = 0;
        while i < poses.len()
            invariant
                self.wf(),
                poses@ == spec_dedup_prefix(idxs, 4),
                idxs == Self::spec_corner_indices(hbox),
                i <= poses@.len(),
                retvl@.len() == i,
                forall|j: int|
                    0 <= j < poses@.len() ==> (match #[trigger] poses@[j] {
                        Some(p) => p.0 < MAP_WIDTH && p.1 < MAP_HEIGHT,
                        None => true,
                    }),
                forall|j: int| 0 <= j < i ==> retvl@[j] == self.spec_index_tile(#[trigger] poses@[j]),
            decreases poses@.len() - i,
        {
            let t = match poses[i] {
                None => MapTile::Empty,
                Some((x, y)) => self.get(x, y),
            };
            retvl.push(t);
            i += 1;
        }
        proof {
            assert(retvl@ =~= self.spec_tiles_intersecting(hbox));
        }
        retvl
    }

    /// The grid as text: one line per row, one `repr` character per cell,
    /// each row closed by a newline; exactly `spec_render_rows` of the grid.
    pub fn pretty_print(&self) -> (r: String)
        requires
            self.wf(),
        ensures
            r@ == spec_render_rows(*self, MAP_HEIGHT as int),
    {
        let mut retvl = String::new();
        proof {
            assert(retvl@ =~= spec_render_rows(*self, 0));
        }
        let mut y: usize = 0;
        while y < MAP_HEIGHT
            invariant
                self.wf(),
                y <= MAP_HEIGHT,
                retvl@ == spec_render_rows(*self, y as int),
            decreases MAP_HEIGHT - y,
        {
            let mut x: usize = 0;
            while x < MAP_WIDTH
                invariant
                    self.wf(),
                    y < MAP_HEIGHT,
                    x <= MAP_WIDTH,
                    retvl@ == spec_render_rows(*self, y as int) + spec_render_row(
                        *self,
                        y as int,
                        x as int,
                    ),
                decreases MAP_WIDTH - x,
            {
                let tile = self.get(x, y);
                retvl.append(repr_str(tile));
                proof {
                    assert(retvl@ =~= spec_render_rows(*self, y as int) + spec_render_row(
                        *self,
                        y as int,
                        x + 1,
                    ));
                }
                x += 1;
            }
            retvl.append("\n");
            proof {
                reveal_strlit("\n");
                assert(retvl@ =~= spec_render_rows(*self, y + 1));
            }
            y += 1;
        }
        retvl
    }

    /// The four spawn coordinates, in index space.
    pub fn player_spawns(&self) -> (r: [(usize, usize); 4])
        ensures
            r@ == self.spec_spawns(),
    {
        self.spawns
    }

    /// Packs a full-size grid of tiles, two per byte, and records the four
    /// spawn coordinates.
    pub fn from_raw(data: &Vec<Vec<MapTile>>, spawns: [(usize, usize); 4]) -> (r: Self)
        requires
            data@.len() == MAP_HEIGHT,
            forall|y: int| 0 <= y < MAP_HEIGHT ==> (#[trigger] data@[y])@.len() == MAP_WIDTH,
            forall|k: int|
                0 <= k < 4 ==> (#[trigger] spawns@[k]).0 < MAP_WIDTH && spawns@[k].1 < MAP_HEIGHT,
        ensures
            r.wf(),
            r.spec_spawns() == spawns@,
            forall|x: int, y: int|
                0 <= x < MAP_WIDTH && 0 <= y < MAP_HEIGHT ==> r.spec_tile(x, y) == data@[y]@[x],
    {
        let mut buffer: Vec<u8> = Vec::new();
        let mut i: usize = 0;
        while i < MAP_HEIGHT * MAP_BYTE_WIDTH
            invariant
                buffer@.len() == i,
                i <= MAP_HEIGHT * MAP_BYTE_WIDTH,
                forall|j: int| 0 <= j < i ==> buffer@[j] == 0u8,
            decreases MAP_HEIGHT * MAP_BYTE_WIDTH - i,
        {
            buffer.push(0u8);
            i += 1;
        }
        proof {
            assert(0u8 >> 4 == 0 && 0u8 & 0x0f == 0) by (bit_vector);
        }
        let mut retvl = Self { data: buffer, spawns };
        let mut y: usize = 0;
        while y < MAP_HEIGHT
            invariant
                retvl.wf(),
                y <= MAP_HEIGHT,
                retvl.spec_spawns() == spawns@,
                data@.len() == MAP_HEIGHT,
                forall|yo: int| 0 <= yo < MAP_HEIGHT ==> (#[trigger] data@[yo])@.len() == MAP_WIDTH,
                forall|xo: int, yo: int|
                    0 <= xo < MAP_WIDTH && 0 <= yo < y ==> retvl.spec_tile(xo, yo) == data@[yo]@[xo],
            decreases MAP_HEIGHT - y,
        {
            let mut x: usize = 0;
            while x < MAP_WIDTH
                invariant
                    retvl.wf(),
                    y < MAP_HEIGHT,
                    x <= MAP_WIDTH,
                    retvl.spec_spawns() == spawns@,
                    data@.len() == MAP_HEIGHT,
                    forall|yo: int|
                        0 <= yo < MAP_HEIGHT ==> (#[trigger] data@[yo])@.len() == MAP_WIDTH,
                    forall|xo: int, yo: int|
                        0 <= xo < MAP_WIDTH && 0 <= yo < y ==> retvl.spec_tile(xo, yo)
                            == data@[yo]@[xo],
                    forall|xo: int|
                        0 <= xo < x ==> retvl.spec_tile(xo, y as int) == data@[y as int]@[xo],
                decreases MAP_WIDTH - x,
            {
                let row = &data[y];
                retvl.set(x, y, row[x]);
                x += 1;
            }
            y += 1;
        }
        retvl
    }
}

/// The first `x` text-form characters of row `y` of the grid.
pub open spec fn spec_render_row(m: BaseMap, y: int, x: int) -> Seq<char>
    decreases x,
{
    if x <= 0 {
        Seq::empty()
    } else {
        spec_render_row(m, y, x - 1).push(m.spec_tile(x - 1, y).spec_repr())
    }
}

/// The first `y` text lines of the grid, each closed by a newline.
pub open spec fn spec_render_rows(m: BaseMap, y: int) -> Seq<char>
    decreases y,
{
    if y <= 0 {
        Seq::empty()
    } else {
        spec_render_rows(m, y - 1) + spec_render_row(m, y - 1, MAP_WIDTH as int).push('\n')
    }
}

/// Whether two optional cell indices are the same value.
fn index_eq(a: Option<(usize, usize)>, b: Option<(usize, usize)>) -> (r: bool)
    ensures
        r == (a == b),
{
    match (a, b) {
        (None, None) => true,
        (Some(p), Some(q)) => p.0 == q.0 && p.1 == q.1,
        _ => false,
    }
}

/// Whether `poses` already holds the cell index `o`.
fn contains_index(poses: &Vec<Option<(usize, usize)>>, o: Option<(usize, usize)>) -> (r: bool)
    ensures
        r == poses@.contains(o),
{
    let mut i: usize = 0;
    let mut found = false;
    while i < poses.len()
        invariant
            i <= poses@.len(),
            found == exists|j: int| 0 <= j < i && poses@[j] == o,
        decreases poses@.len() - i,
    {
        if index_eq(poses[i], o) {
            found = true;
        }
        i += 1;
    }
    found
}

/// A property holds of some tile under a box exactly when it holds of some
/// corner's tile: deduplication keeps the set of tiles under the corners.
pub proof fn lemma_tiles_intersecting_exists(m: BaseMap, hbox: Rect, p: spec_fn(MapTile) -> bool)
    ensures
        (exists|j: int|
            0 <= j < m.spec_tiles_intersecting(hbox).len() && p(
                #[trigger] m.spec_tiles_intersecting(hbox)[j],
            )) == (exists|k: int|
            0 <= k < 4 && p(#[trigger] m.spec_tile_at_pixel(BaseMap::spec_corner(hbox, k)))),
{
    let idxs = BaseMap::spec_corner_indices(hbox);
    let dd = spec_dedup_prefix(idxs, 4);
    let tiles = m.spec_tiles_intersecting(hbox);
    assert(tiles.len() == dd.len());
    if exists|j: int| 0 <= j < tiles.len() && p(#[trigger] tiles[j]) {
        let j = choose|j: int| 0 <= j < tiles.len() && p(#[trigger] tiles[j]);
        assert(tiles[j] == m.spec_index_tile(dd[j]));
        assert(dd.contains(dd[j]));
        lemma_dedup_prefix_membership(idxs, 4, dd[j]);
        let k = choose|k: int| 0 <= k < 4 && idxs[k] == dd[j];
        assert(m.spec_tile_at_pixel(BaseMap::spec_corner(hbox, k)) == tiles[j]);
    }
    if exists|k: int| 0 <= k < 4 && p(#[trigger] m.spec_tile_at_pixel(BaseMap::spec_corner(hbox, k))) {
        let k = choose|k: int|
            0 <= k < 4 && p(#[trigger] m.spec_tile_at_pixel(BaseMap::spec_corner(hbox, k)));
        lemma_dedup_prefix_membership(idxs, 4, idxs[k]);
        assert(dd.contains(idxs[k]));
        let j = choose|j: int| 0 <= j < dd.len() && dd[j] == idxs[k];
        assert(tiles[j] == m.spec_tile_at_pixel(BaseMap::spec_corner(hbox, k)));
        assert(p(tiles[j]));
    }
}

/// The one-character string of a tile's text form.
fn repr_str(tile: MapTile) -> (r: &'static str)
    ensures
        r@.len() == 1,
        r@[0] == tile.spec_repr(),
{
    proof {
        reveal_strlit(" ");
        reveal_strlit("x");
        reveal_strlit("/");
        reveal_strlit("\\");
        reveal_strlit("-");
        reveal_strlit("|");
        reveal_strlit("=");
        reveal_strlit("\"");
    }
    match tile {
        MapTile::Empty => " ",
        MapTile::Block => "x",
        MapTile::UpMirror => "/",
        MapTile::DownMirror => "\\",
        MapTile::HorizMirror => "-",
        MapTile::VertMirror => "|",
        MapTile::HorizPipe => "=",
        MapTile::VertPipe => "\"",
    }
}

/// Distinct in-range cells live in distinct bytes or in distinct nibbles of
/// the same byte.
proof fn lemma_distinct_cells(x1: int, y1: int, x2: int, y2: int)
    requires
        0 <= x1 < MAP_WIDTH,
        0 <= y1 < MAP_HEIGHT,
        0 <= x2 < MAP_WIDTH,
        0 <= y2 < MAP_HEIGHT,
        (x1, y1) != (x2, y2),
    ensures
        BaseMap::spec_byte_index(x1, y1) != BaseMap::spec_byte_index(x2, y2) || (x1 % 2 == 0) != (
        x2 % 2 == 0),
{
    if BaseMap::spec_byte_index(x1, y1) == BaseMap::spec_byte_index(x2, y2) {
        assert(y1 == y2 && x1 / 2 == x2 / 2);
        assert(x1 != x2);
        assert(x1 % 2 != x2 % 2);
    }
}

} // verus!
