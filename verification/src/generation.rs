//! Deterministic procedural placement of mirrors onto a base layout.
//!
//! The generator draws a mirror count from an inclusive range, then
//! repeatedly draws interior candidate cells; an `Empty`, non-spawn cell is
//! classified by the passability of its four neighbours and either receives
//! a slanted mirror or is discarded. Every draw advances the one xorshift
//! generator, so the whole pass is a pure function of the seed and the base
//! layout, which `spec_generate` states cell for cell.
//!
//! Termination is not structurally guaranteed (a layout with too few
//! eligible cells could retry forever), so the pass is bounded by
//! `GEN_ITER_LIMIT` candidate draws and returns the grid as generated so
//! far when the bound is hit, rather than hanging.

use vstd::prelude::*;
use crate::fixed::Direction;
use crate::map::BaseMap;
use crate::map::MAP_WIDTH;
use crate::map::MAP_BYTE_WIDTH;
use crate::map::MAP_HEIGHT;
use crate::map::spec_tile_at;
use crate::map::spec_packed_set;
use crate::map::lemma_pack_round_trip;
use crate::rng::Rng;
use crate::rng::spec_step;
use crate::tiles::MapTile;
use crate::tiles::spec_tile_code;

verus! {

/// The most candidate draws one generation pass will attempt.
pub const GEN_ITER_LIMIT: usize = 1_000_000;

/// Which neighbour the rightward passability probe inspects. The
/// long-observed behaviour probes the cell on the left for both horizontal
/// flags; the corrected behaviour probes each side's own neighbour. Both
/// are kept so callers can pin either one.
#[derive(Clone, Copy, PartialEq, Eq, Structural, Debug)]
pub enum ProbeMode {
    Observed,
    Corrected,
}

/// What the four-neighbour classification decides for a candidate cell.
#[derive(Clone, Copy, PartialEq, Eq, Structural, Debug)]
pub enum CellClass {
    /// Exactly the diagonal pair up+left or down+right is open.
    PlaceUp,
    /// Exactly the diagonal pair up+right or down+left is open.
    PlaceDown,
    /// Three or four sides open: place a mirror chosen by a coin draw.
    PlaceCoin,
    /// Unreachable, dead-end or straight-tunnel cell: discard it.
    Skip,
}

/// Whether a bullet travelling in `dir` can pass through a cell of kind
/// `tile`: `Empty` and the slanted mirrors always, `Block` never, the
/// straight mirrors and pipes only along their own axis.
pub open spec fn spec_bullet_passable(tile: MapTile, dir: Direction) -> bool {
    match tile {
        MapTile::Empty => true,
        MapTile::Block => false,
        MapTile::UpMirror => true,
        MapTile::DownMirror => true,
        MapTile::HorizMirror => dir.spec_is_horizontal(),
        MapTile::VertMirror => dir.spec_is_vertical(),
        MapTile::HorizPipe => dir.spec_is_horizontal(),
        MapTile::VertPipe => dir.spec_is_vertical(),
    }
}

/// Whether a bullet travelling in `dir` can pass through a cell of kind
/// `tile`.
pub fn bullet_is_passable(tile: MapTile, dir: Direction) -> (r: bool)
    ensures
        r == spec_bullet_passable(tile, dir),
{
    match tile {
        MapTile::Empty => true,
        MapTile::Block => false,
        MapTile::UpMirror => true,
        MapTile::DownMirror => true,
        MapTile::HorizMirror => dir.is_horizontal(),
        MapTile::VertMirror => dir.is_vertical(),
        MapTile::HorizPipe => dir.is_horizontal(),
        MapTile::VertPipe => dir.is_vertical(),
    }
}

/// Classifies a candidate cell from the passability of its four sides.
pub open spec fn spec_classify(u: bool, d: bool, l: bool, r: bool) -> CellClass {
    if (u && !d && l && !r) || (!u && d && !l && r) {
        CellClass::PlaceUp
    } else if (u && !d && !l && r) || (!u && d && l && !r) {
        CellClass::PlaceDown
    } else if (u && d && l) || (u && d && r) || (u && l && r) || (d && l && r) {
        CellClass::PlaceCoin
    } else {
        CellClass::Skip
    }
}

/// Classifies a candidate cell from the passability of its four sides.
pub fn classify_cell(u: bool, d: bool, l: bool, r: bool) -> (c: CellClass)
    ensures
        c == spec_classify(u, d, l, r),
{
    match (u, d, l, r) {
        (true, false, true, false) | (false, true, false, true) => CellClass::PlaceUp,
        (true, false, false, true) | (false, true, true, false) => CellClass::PlaceDown,
        (true, true, true, true) => CellClass::PlaceCoin,
        (true, true, true, _) | (true, true, _, true) | (true, _, true, true)
            | (_, true, true, true) => CellClass::PlaceCoin,
        _ => CellClass::Skip,
    }
}

/// Whether `(x, y)` is one of the four spawn coordinates.
pub open spec fn spec_is_spawn(spawns: Seq<(usize, usize)>, x: int, y: int) -> bool {
    exists|k: int| 0 <= k < spawns.len() && (#[trigger] spawns[k]).0 == x && spawns[k].1 == y
}

/// The rest of a generation pass: from packed rows `bytes`, generator state
/// `state` and `remaining` mirrors still to place, with at most `fuel`
/// candidate draws left.
pub open spec fn spec_generate_from(
    bytes: Seq<u8>,
    spawns: Seq<(usize, usize)>,
    state: u64,
    remaining: u8,
    fuel: nat,
    probe: ProbeMode,
) -> Seq<u8>
    decreases fuel,
{
    if remaining == 0 || fuel == 0 {
        bytes
    } else {
        let s1 = spec_step(state);
        let x = 1 + (s1 as int) % ((MAP_WIDTH - 2) as int);
        let s2 = spec_step(s1);
        let y = 1 + (s2 as int) % ((MAP_HEIGHT - 2) as int);
        if spec_tile_at(bytes, x, y) != MapTile::Empty || spec_is_spawn(spawns, x, y) {
            spec_generate_from(bytes, spawns, s2, remaining, (fuel - 1) as nat, probe)
        } else {
            let u = spec_bullet_passable(spec_tile_at(bytes, x, y - 1), Direction::Up);
            let d = spec_bullet_passable(spec_tile_at(bytes, x, y + 1), Direction::Down);
            let l = spec_bullet_passable(spec_tile_at(bytes, x - 1, y), Direction::Left);
            let rx = if probe == ProbeMode::Corrected {
                x + 1
            } else {
                x - 1
            };
            let r = spec_bullet_passable(spec_tile_at(bytes, rx, y), Direction::Right);
            match spec_classify(u, d, l, r) {
                CellClass::PlaceUp => spec_generate_from(
                    spec_packed_set(bytes, x, y, spec_tile_code(MapTile::UpMirror)),
                    spawns,
                    s2,
                    (remaining - 1) as u8,
                    (fuel - 1) as nat,
                    probe,
                ),
                CellClass::PlaceDown => spec_generate_from(
                    spec_packed_set(bytes, x, y, spec_tile_code(MapTile::DownMirror)),
                    spawns,
                    s2,
                    (remaining - 1) as u8,
                    (fuel - 1) as nat,
                    probe,
                ),
                CellClass::PlaceCoin => {
                    let s3 = spec_step(s2);
                    let t = if s3 % 2 == 1 {
                        MapTile::UpMirror
                    } else {
                        MapTile::DownMirror
                    };
                    spec_generate_from(
                        spec_packed_set(bytes, x, y, spec_tile_code(t)),
                        spawns,
                        s3,
                        (remaining - 1) as u8,
                        (fuel - 1) as nat,
                        probe,
                    )
                },
                CellClass::Skip => spec_generate_from(
                    bytes,
                    spawns,
                    s2,
                    remaining,
                    (fuel - 1) as nat,
                    probe,
                ),
            }
        }
    }
}

/// A whole generation pass: draw the mirror count from `[min, max]`, then
/// place mirrors until the count or the draw bound runs out.
pub open spec fn spec_generate(
    bytes: Seq<u8>,
    spawns: Seq<(usize, usize)>,
    seed: u64,
    min: u8,
    max: u8,
    probe: ProbeMode,
) -> Seq<u8> {
    let s0 = spec_step(seed);
    let k = (min + (s0 as int) % (max - min + 1)) as u8;
    spec_generate_from(bytes, spawns, s0, k, GEN_ITER_LIMIT as nat, probe)
}

/// Places the drawn number of slanted mirrors onto `base`, probing the
/// rightward flag as `probe` says, and reports how many mirrors were still
/// owed when the pass ended: zero for a complete grid, more only if the
/// documented draw bound ran out first. A caller that must not accept a
/// truncated grid checks that count and fails loudly. The grid is the
/// unique one that `spec_generate` names, and the number of cells changed
/// is exactly the drawn count less the reported shortfall.
pub fn generate_counted(
    seed: u64,
    base: BaseMap,
    min_mirrors: u8,
    max_mirrors: u8,
    probe: ProbeMode,
) -> (r: (BaseMap, u8))
    requires
        base.wf(),
        min_mirrors <= max_mirrors,
    ensures
        r.0.wf(),
        r.0.spec_spawns() == base.spec_spawns(),
        r.0.bytes() == spec_generate(
            base.bytes(),
            base.spec_spawns(),
            seed,
            min_mirrors,
            max_mirrors,
            probe,
        ),
        ({
            let s0 = spec_step(seed);
            let k = (min_mirrors + (s0 as int) % (max_mirrors - min_mirrors + 1)) as u8;
            &&& r.1 == spec_remaining_after(
                base.bytes(),
                base.spec_spawns(),
                s0,
                k,
                GEN_ITER_LIMIT as nat,
                probe,
            )
            &&& r.1 <= k
            &&& spec_changed_cells(r.0.bytes(), base.bytes(), (MAP_WIDTH * MAP_HEIGHT) as nat)
                == k - r.1
            &&& r.1 == 0 ==> spec_changed_cells(
                r.0.bytes(),
                base.bytes(),
                (MAP_WIDTH * MAP_HEIGHT) as nat,
            ) == k
        }),
{
    let spawns = base.player_spawns();
    let mut retvl = base;
    let rng0 = Rng::with_seed(seed);
    let (mut rng, mut num_mirrors) = rng0.u8_const(min_mirrors, max_mirrors);
    let ghost k0 = num_mirrors;
    let mut fuel: usize = GEN_ITER_LIMIT;
    let ghost target = spec_generate_from(
        retvl.bytes(),
        retvl.spec_spawns(),
        rng.state(),
        num_mirrors,
        fuel as nat,
        probe,
    );
    let ghost target_rem = spec_remaining_after(
        retvl.bytes(),
        retvl.spec_spawns(),
        rng.state(),
        num_mirrors,
        fuel as nat,
        probe,
    );
    while num_mirrors > 0 && fuel > 0
        invariant
            retvl.wf(),
            retvl.spec_spawns() == base.spec_spawns(),
            spawns@ == base.spec_spawns(),
            num_mirrors <= k0,
            target == spec_generate_from(
                retvl.bytes(),
                retvl.spec_spawns(),
                rng.state(),
                num_mirrors,
                fuel as nat,
                probe,
            ),
            target_rem == spec_remaining_after(
                retvl.bytes(),
                retvl.spec_spawns(),
                rng.state(),
                num_mirrors,
                fuel as nat,
                probe,
            ),
        decreases fuel,
    {
        fuel = fuel - 1;
        let (nrng, next_x) = rng.usize_const(1, MAP_WIDTH - 2);
        let (nrng2, next_y) = nrng.usize_const(1, MAP_HEIGHT - 2);
        rng = nrng2;
        let cur = retvl.get(next_x, next_y);
        let mut taken = cur != MapTile::Empty;
        let mut k: usize = 0;
        while k < 4
            invariant
                k <= 4,
                spawns@ == retvl.spec_spawns(),
                retvl.wf(),
                taken == (cur != MapTile::Empty || exists|j: int|
                    0 <= j < k && (#[trigger] spawns@[j]).0 == next_x && spawns@[j].1 == next_y),
            decreases 4 - k,
        {
            let sp = spawns[k];
            if sp.0 == next_x && sp.1 == next_y {
                taken = true;
            }
            k += 1;
        }
        if taken {
            continue;
        }
        let u = bullet_is_passable(retvl.get(next_x, next_y - 1), Direction::Up);
        let d = bullet_is_passable(retvl.get(next_x, next_y + 1), Direction::Down);
        let l = bullet_is_passable(retvl.get(next_x - 1, next_y), Direction::Left);
        let probe_x = if probe == ProbeMode::Corrected {
            next_x + 1
        } else {
            next_x - 1
        };
        let r = bullet_is_passable(retvl.get(probe_x, next_y), Direction::Right);
        match classify_cell(u, d, l, r) {
            CellClass::PlaceUp => {
                retvl.set(next_x, next_y, MapTile::UpMirror);
                num_mirrors = num_mirrors - 1;
            },
            CellClass::PlaceDown => {
                retvl.set(next_x, next_y, MapTile::DownMirror);
                num_mirrors = num_mirrors - 1;
            },
            CellClass::PlaceCoin => {
                let (nrng3, flag) = rng.bool_const();
                rng = nrng3;
                let t = if flag {
                    MapTile::UpMirror
                } else {
                    MapTile::DownMirror
                };
                retvl.set(next_x, next_y, t);
                num_mirrors = num_mirrors - 1;
            },
            CellClass::Skip => {
                continue;
            },
        }
    }
    proof {
        lemma_generate_mirror_count(
            base.bytes(),
            base.spec_spawns(),
            seed,
            min_mirrors,
            max_mirrors,
            probe,
        );
    }
    (retvl, num_mirrors)
}

/// Places the drawn number of slanted mirrors onto `base`, probing the
/// rightward flag as `probe` says. The result is the unique grid that
/// `spec_generate` names, so two passes over equal inputs agree cell for
/// cell; `generate_counted` additionally reports whether the draw bound
/// cut the pass short.
pub fn generate_with(seed: u64, base: BaseMap, min_mirrors: u8, max_mirrors: u8, probe: ProbeMode)
    -> (r: BaseMap)
    requires
        base.wf(),
        min_mirrors <= max_mirrors,
    ensures
        r.wf(),
        r.spec_spawns() == base.spec_spawns(),
        r.bytes() == spec_generate(
            base.bytes(),
            base.spec_spawns(),
            seed,
            min_mirrors,
            max_mirrors,
            probe,
        ),
{
    let (retvl, _) = generate_counted(seed, base, min_mirrors, max_mirrors, probe);
    retvl
}

/// Places mirrors with the long-observed rightward probe; callers that
/// must not accept a grid cut short by the draw bound use
/// `generate_counted` and check the reported shortfall.
pub fn generate(seed: u64, base: BaseMap, min_mirrors: u8, max_mirrors: u8) -> (r: BaseMap)
    requires
        base.wf(),
        min_mirrors <= max_mirrors,
    ensures
        r.wf(),
        r.spec_spawns() == base.spec_spawns(),
        r.bytes() == spec_generate(
            base.bytes(),
            base.spec_spawns(),
            seed,
            min_mirrors,
            max_mirrors,
            ProbeMode::Observed,
        ),
{
    generate_with(seed, base, min_mirrors, max_mirrors, ProbeMode::Observed)
}

/// The mirrors still to place when the rest of a generation pass ends,
/// stepping exactly as `spec_generate_from` does: zero unless the draw
/// bound ran out first.
pub open spec fn spec_remaining_after(
    bytes: Seq<u8>,
    spawns: Seq<(usize, usize)>,
    state: u64,
    remaining: u8,
    fuel: nat,
    probe: ProbeMode,
) -> u8
    decreases fuel,
{
    if remaining == 0 || fuel == 0 {
        remaining
    } else {
        let s1 = spec_step(state);
        let x = 1 + (s1 as int) % ((MAP_WIDTH - 2) as int);
        let s2 = spec_step(s1);
        let y = 1 + (s2 as int) % ((MAP_HEIGHT - 2) as int);
        if spec_tile_at(bytes, x, y) != MapTile::Empty || spec_is_spawn(spawns, x, y) {
            spec_remaining_after(bytes, spawns, s2, remaining, (fuel - 1) as nat, probe)
        } else {
            let u = spec_bullet_passable(spec_tile_at(bytes, x, y - 1), Direction::Up);
            let d = spec_bullet_passable(spec_tile_at(bytes, x, y + 1), Direction::Down);
            let l = spec_bullet_passable(spec_tile_at(bytes, x - 1, y), Direction::Left);
            let rx = if probe == ProbeMode::Corrected {
                x + 1
            } else {
                x - 1
            };
            let r = spec_bullet_passable(spec_tile_at(bytes, rx, y), Direction::Right);
            match spec_classify(u, d, l, r) {
                CellClass::PlaceUp => spec_remaining_after(
                    spec_packed_set(bytes, x, y, spec_tile_code(MapTile::UpMirror)),
                    spawns,
                    s2,
                    (remaining - 1) as u8,
                    (fuel - 1) as nat,
                    probe,
                ),
                CellClass::PlaceDown => spec_remaining_after(
                    spec_packed_set(bytes, x, y, spec_tile_code(MapTile::DownMirror)),
                    spawns,
                    s2,
                    (remaining - 1) as u8,
                    (fuel - 1) as nat,
                    probe,
                ),
                CellClass::PlaceCoin => {
                    let s3 = spec_step(s2);
                    let t = if s3 % 2 == 1 {
                        MapTile::UpMirror
                    } else {
                        MapTile::DownMirror
                    };
                    spec_remaining_after(
                        spec_packed_set(bytes, x, y, spec_tile_code(t)),
                        spawns,
                        s3,
                        (remaining - 1) as u8,
                        (fuel - 1) as nat,
                        probe,
                    )
                },
                CellClass::Skip => spec_remaining_after(
                    bytes,
                    spawns,
                    s2,
                    remaining,
                    (fuel - 1) as nat,
                    probe,
                ),
            }
        }
    }
}

/// The number of grid cells among the first `n`, in row-major order, where
/// `out` holds a different tile than `bytes`.
pub open spec fn spec_changed_cells(out: Seq<u8>, bytes: Seq<u8>, n: nat) -> nat
    decreases n,
{
    if n == 0 {
        0
    } else {
        let i = (n - 1) as int;
        let x = i % (MAP_WIDTH as int);
        let y = i / (MAP_WIDTH as int);
        spec_changed_cells(out, bytes, (n - 1) as nat) + if spec_tile_at(out, x, y)
            != spec_tile_at(bytes, x, y) {
            1 as nat
        } else {
            0 as nat
        }
    }
}

/// Determinism law: the generated grid is a function of the seed, the base
/// layout, the mirror-count range and the probe mode alone, so two passes
/// over identical inputs yield bit-identical grids. `generate_with` pins
/// its result to `spec_generate`, of which this is the trivial reading.
pub proof fn lemma_generate_deterministic(
    out1: Seq<u8>,
    out2: Seq<u8>,
    bytes: Seq<u8>,
    spawns: Seq<(usize, usize)>,
    seed: u64,
    min: u8,
    max: u8,
    probe: ProbeMode,
)
    requires
        out1 == spec_generate(bytes, spawns, seed, min, max, probe),
        out2 == spec_generate(bytes, spawns, seed, min, max, probe),
    ensures
        out1 == out2,
{
}

/// A generation pass only ever turns `Empty`, non-spawn, interior cells
/// into slanted mirrors; every other cell keeps its tile.
pub proof fn lemma_generate_from_changes(
    bytes: Seq<u8>,
    spawns: Seq<(usize, usize)>,
    state: u64,
    remaining: u8,
    fuel: nat,
    probe: ProbeMode,
)
    requires
        bytes.len() == MAP_HEIGHT * MAP_BYTE_WIDTH,
    ensures
        spec_generate_from(bytes, spawns, state, remaining, fuel, probe).len() == bytes.len(),
        forall|x: int, y: int|
            0 <= x < MAP_WIDTH && 0 <= y < MAP_HEIGHT && spec_tile_at(
                #[trigger] spec_generate_from(bytes, spawns, state, remaining, fuel, probe),
                x,
                y,
            ) != spec_tile_at(bytes, x, y) ==> spec_tile_at(bytes, x, y) == MapTile::Empty && (
            spec_tile_at(spec_generate_from(bytes, spawns, state, remaining, fuel, probe), x, y)
                == MapTile::UpMirror || spec_tile_at(
                spec_generate_from(bytes, spawns, state, remaining, fuel, probe),
                x,
                y,
            ) == MapTile::DownMirror) && !spec_is_spawn(spawns, x, y) && 1 <= x < MAP_WIDTH - 1 && 1
                <= y < MAP_HEIGHT - 1,
    decreases fuel,
{
    let out = spec_generate_from(bytes, spawns, state, remaining, fuel, probe);
    if remaining == 0 || fuel == 0 {
    } else {
        let s1 = spec_step(state);
        let x = 1 + (s1 as int) % ((MAP_WIDTH - 2) as int);
        let s2 = spec_step(s1);
        let y = 1 + (s2 as int) % ((MAP_HEIGHT - 2) as int);
        if spec_tile_at(bytes, x, y) != MapTile::Empty || spec_is_spawn(spawns, x, y) {
            lemma_generate_from_changes(bytes, spawns, s2, remaining, (fuel - 1) as nat, probe);
        } else {
            let u = spec_bullet_passable(spec_tile_at(bytes, x, y - 1), Direction::Up);
            let d = spec_bullet_passable(spec_tile_at(bytes, x, y + 1), Direction::Down);
            let l = spec_bullet_passable(spec_tile_at(bytes, x - 1, y), Direction::Left);
            let rx = if probe == ProbeMode::Corrected {
                x + 1
            } else {
                x - 1
            };
            let r = spec_bullet_passable(spec_tile_at(bytes, rx, y), Direction::Right);
            match spec_classify(u, d, l, r) {
                CellClass::Skip => {
                    lemma_generate_from_changes(
                        bytes,
                        spawns,
                        s2,
                        remaining,
                        (fuel - 1) as nat,
                        probe,
                    );
                },
                class => {
                    let (t, snext) = if class == CellClass::PlaceUp {
                        (MapTile::UpMirror, s2)
                    } else if class == CellClass::PlaceDown {
                        (MapTile::DownMirror, s2)
                    } else {
                        let s3 = spec_step(s2);
                        (
                            if s3 % 2 == 1 {
                                MapTile::UpMirror
                            } else {
                                MapTile::DownMirror
                            },
                            s3,
                        )
                    };
                    let nb = spec_packed_set(bytes, x, y, spec_tile_code(t));
                    lemma_pack_round_trip(bytes, x, y, t);
                    lemma_generate_from_changes(
                        nb,
                        spawns,
                        snext,
                        (remaining - 1) as u8,
                        (fuel - 1) as nat,
                        probe,
                    );
                    assert forall|xo: int, yo: int|
                        0 <= xo < MAP_WIDTH && 0 <= yo < MAP_HEIGHT && spec_tile_at(out, xo, yo)
                            != spec_tile_at(bytes, xo, yo) implies spec_tile_at(bytes, xo, yo)
                        == MapTile::Empty && (spec_tile_at(out, xo, yo) == MapTile::UpMirror
                        || spec_tile_at(out, xo, yo) == MapTile::DownMirror) && !spec_is_spawn(
                        spawns,
                        xo,
                        yo,
                    ) && 1 <= xo < MAP_WIDTH - 1 && 1 <= yo < MAP_HEIGHT - 1 by {
                        if (xo, yo) == (x, y) {
                            assert(spec_tile_at(nb, x, y) == t);
                            if spec_tile_at(out, x, y) != spec_tile_at(nb, x, y) {
                                assert(spec_tile_at(nb, x, y) == MapTile::Empty);
                            }
                        } else {
                            assert(spec_tile_at(nb, xo, yo) == spec_tile_at(bytes, xo, yo));
                        }
                    }
                },
            }
        }
    }
}

/// A grid differs from itself at no cell.
proof fn lemma_changed_cells_self(bytes: Seq<u8>, n: nat)
    ensures
        spec_changed_cells(bytes, bytes, n) == 0,
    decreases n,
{
    if n > 0 {
        lemma_changed_cells_self(bytes, (n - 1) as nat);
    }
}

/// When `a` and `b` agree everywhere but at one cell, where `out` matches
/// `b` and not `a`, `out` differs from `a` at exactly one more cell than
/// from `b`.
proof fn lemma_changed_cells_shift(
    out: Seq<u8>,
    a: Seq<u8>,
    b: Seq<u8>,
    cx: int,
    cy: int,
    n: nat,
)
    requires
        0 <= cx < MAP_WIDTH,
        0 <= cy < MAP_HEIGHT,
        n <= MAP_WIDTH * MAP_HEIGHT,
        forall|x: int, y: int|
            0 <= x < MAP_WIDTH && 0 <= y < MAP_HEIGHT && (x, y) != (cx, cy) ==> (spec_tile_at(
                out,
                x,
                y,
            ) != spec_tile_at(a, x, y)) == (#[trigger] spec_tile_at(out, x, y) != spec_tile_at(
                b,
                x,
                y,
            )),
        spec_tile_at(out, cx, cy) != spec_tile_at(a, cx, cy),
        spec_tile_at(out, cx, cy) == spec_tile_at(b, cx, cy),
    ensures
        spec_changed_cells(out, a, n) == spec_changed_cells(out, b, n) + (if cy * MAP_WIDTH + cx
            < n {
            1 as nat
        } else {
            0 as nat
        }),
    decreases n,
{
    if n > 0 {
        lemma_changed_cells_shift(out, a, b, cx, cy, (n - 1) as nat);
        let i = (n - 1) as int;
        let x = i % (MAP_WIDTH as int);
        let y = i / (MAP_WIDTH as int);
        vstd::arithmetic::div_mod::lemma_fundamental_div_mod(i, MAP_WIDTH as int);
        assert(0 <= x < MAP_WIDTH) by {
            vstd::arithmetic::div_mod::lemma_mod_bound(i, MAP_WIDTH as int);
        }
        assert(0 <= y < MAP_HEIGHT) by (nonlinear_arith)
            requires
                y == i / (MAP_WIDTH as int),
                0 <= i < MAP_WIDTH * MAP_HEIGHT,
        ;
        if x == cx && y == cy {
            assert(i == cy * MAP_WIDTH + cx);
        } else {
            assert(i != cy * MAP_WIDTH + cx) by {
                if i == cy * MAP_WIDTH + cx {
                    vstd::arithmetic::div_mod::lemma_fundamental_div_mod_converse(
                        i,
                        MAP_WIDTH as int,
                        cy,
                        cx,
                    );
                }
            }
        }
    }
}

/// The rest of a generation pass changes exactly as many cells as mirrors
/// it places: the mirrors it had left to place, less those still owed when
/// it ends.
proof fn lemma_generate_from_count(
    bytes: Seq<u8>,
    spawns: Seq<(usize, usize)>,
    state: u64,
    remaining: u8,
    fuel: nat,
    probe: ProbeMode,
)
    requires
        bytes.len() == MAP_HEIGHT * MAP_BYTE_WIDTH,
    ensures
        spec_changed_cells(
            spec_generate_from(bytes, spawns, state, remaining, fuel, probe),
            bytes,
            (MAP_WIDTH * MAP_HEIGHT) as nat,
        ) == remaining - spec_remaining_after(bytes, spawns, state, remaining, fuel, probe),
    decreases fuel,
{
    let out = spec_generate_from(bytes, spawns, state, remaining, fuel, probe);
    let cells = (MAP_WIDTH * MAP_HEIGHT) as nat;
    if remaining == 0 || fuel == 0 {
        lemma_changed_cells_self(bytes, cells);
    } else {
        let s1 = spec_step(state);
        let x = 1 + (s1 as int) % ((MAP_WIDTH - 2) as int);
        let s2 = spec_step(s1);
        let y = 1 + (s2 as int) % ((MAP_HEIGHT - 2) as int);
        if spec_tile_at(bytes, x, y) != MapTile::Empty || spec_is_spawn(spawns, x, y) {
            lemma_generate_from_count(bytes, spawns, s2, remaining, (fuel - 1) as nat, probe);
        } else {
            let u = spec_bullet_passable(spec_tile_at(bytes, x, y - 1), Direction::Up);
            let d = spec_bullet_passable(spec_tile_at(bytes, x, y + 1), Direction::Down);
            let l = spec_bullet_passable(spec_tile_at(bytes, x - 1, y), Direction::Left);
            let rx = if probe == ProbeMode::Corrected {
                x + 1
            } else {
                x - 1
            };
            let r = spec_bullet_passable(spec_tile_at(bytes, rx, y), Direction::Right);
            match spec_classify(u, d, l, r) {
                CellClass::Skip => {
                    lemma_generate_from_count(
                        bytes,
                        spawns,
                        s2,
                        remaining,
                        (fuel - 1) as nat,
                        probe,
                    );
                },
                class => {
                    let (t, snext) = if class == CellClass::PlaceUp {
                        (MapTile::UpMirror, s2)
                    } else if class == CellClass::PlaceDown {
                        (MapTile::DownMirror, s2)
                    } else {
                        let s3 = spec_step(s2);
                        (
                            if s3 % 2 == 1 {
                                MapTile::UpMirror
                            } else {
                                MapTile::DownMirror
                            },
                            s3,
                        )
                    };
                    let nb = spec_packed_set(bytes, x, y, spec_tile_code(t));
                    lemma_pack_round_trip(bytes, x, y, t);
                    lemma_generate_from_count(
                        nb,
                        spawns,
                        snext,
                        (remaining - 1) as u8,
                        (fuel - 1) as nat,
                        probe,
                    );
                    lemma_generate_from_changes(
                        nb,
                        spawns,
                        snext,
                        (remaining - 1) as u8,
                        (fuel - 1) as nat,
                        probe,
                    );
                    assert(spec_tile_at(out, x, y) == t);
                    lemma_changed_cells_shift(out, bytes, nb, x, y, cells);
                },
            }
        }
    }
}

/// Mirror-count law: a whole generation pass changes exactly as many cells
/// as the mirrors it placed — the drawn count, less whatever was still
/// owed if the draw bound ran out — and `lemma_generate_from_changes` says
/// each such cell was `Empty` and now holds a slanted mirror.
pub proof fn lemma_generate_mirror_count(
    bytes: Seq<u8>,
    spawns: Seq<(usize, usize)>,
    seed: u64,
    min: u8,
    max: u8,
    probe: ProbeMode,
)
    requires
        bytes.len() == MAP_HEIGHT * MAP_BYTE_WIDTH,
    ensures
        ({
            let s0 = spec_step(seed);
            let k = (min + (s0 as int) % (max - min + 1)) as u8;
            spec_changed_cells(
                spec_generate(bytes, spawns, seed, min, max, probe),
                bytes,
                (MAP_WIDTH * MAP_HEIGHT) as nat,
            ) == k - spec_remaining_after(bytes, spawns, s0, k, GEN_ITER_LIMIT as nat, probe)
        }),
{
    let s0 = spec_step(seed);
    let k = (min + (s0 as int) % (max - min + 1)) as u8;
    lemma_generate_from_count(bytes, spawns, s0, k, GEN_ITER_LIMIT as nat, probe);
}

/// Spawn-invariant law: a generation pass never rewrites a spawn cell, so
/// spawn cells that start `Empty` are `Empty` in the generated grid too.
pub proof fn lemma_generate_preserves_spawns(
    bytes: Seq<u8>,
    spawns: Seq<(usize, usize)>,
    seed: u64,
    min: u8,
    max: u8,
    probe: ProbeMode,
)
    requires
        bytes.len() == MAP_HEIGHT * MAP_BYTE_WIDTH,
    ensures
        forall|k: int|
            0 <= k < spawns.len() && (#[trigger] spawns[k]).0 < MAP_WIDTH && spawns[k].1
                < MAP_HEIGHT ==> spec_tile_at(
                spec_generate(bytes, spawns, seed, min, max, probe),
                spawns[k].0 as int,
                spawns[k].1 as int,
            ) == spec_tile_at(bytes, spawns[k].0 as int, spawns[k].1 as int),
{
    let s0 = spec_step(seed);
    let k0 = (min + (s0 as int) % (max - min + 1)) as u8;
    lemma_generate_from_changes(bytes, spawns, s0, k0, GEN_ITER_LIMIT as nat, probe);
    assert forall|k: int|
        0 <= k < spawns.len() && (#[trigger] spawns[k]).0 < MAP_WIDTH && spawns[k].1 < MAP_HEIGHT
            implies spec_tile_at(
        spec_generate(bytes, spawns, seed, min, max, probe),
        spawns[k].0 as int,
        spawns[k].1 as int,
    ) == spec_tile_at(bytes, spawns[k].0 as int, spawns[k].1 as int) by {
        let x = spawns[k].0 as int;
        let y = spawns[k].1 as int;
        if spec_tile_at(spec_generate(bytes, spawns, seed, min, max, probe), x, y) != spec_tile_at(
            bytes,
            x,
            y,
        ) {
            assert(spec_is_spawn(spawns, x, y));
        }
    }
}

/// The tile the honeycomb base layout holds at `(x, y)`: a solid border,
/// and a lattice of blocks on even columns left of the middle corridor and
/// odd columns right of it, crossed with even rows above the middle lane
/// and odd rows below it.
pub open spec fn spec_honeycomb_tile(x: int, y: int) -> MapTile {
    if x == 0 || x == MAP_WIDTH - 1 || y == 0 || y == MAP_HEIGHT - 1 {
        MapTile::Block
    } else if ((x % 2 == 0 && x <= 12) || (x % 2 == 1 && x >= 15)) && ((y % 2 == 0 && y <= 8) || (y
        % 2 == 1 && y >= 11)) {
        MapTile::Block
    } else {
        MapTile::Empty
    }
}

/// The honeycomb base layout: a fully walled border, a staggered block
/// lattice with open middle corridors, and the four spawn points in the
/// corners, each on an `Empty` cell.
pub fn honeycomb_base() -> (r: BaseMap)
    ensures
        r.wf(),
        r.spec_spawns() =~= seq![
            (1usize, 1usize),
            (1usize, (MAP_HEIGHT - 2) as usize),
            ((MAP_WIDTH - 2) as usize, 1usize),
            ((MAP_WIDTH - 2) as usize, (MAP_HEIGHT - 2) as usize),
        ],
        forall|x: int, y: int|
            0 <= x < MAP_WIDTH && 0 <= y < MAP_HEIGHT ==> r.spec_tile(x, y) == spec_honeycomb_tile(
                x,
                y,
            ),
        forall|k: int|
            0 <= k < 4 ==> r.spec_tile(
                (#[trigger] r.spec_spawns()[k]).0 as int,
                r.spec_spawns()[k].1 as int,
            ) == MapTile::Empty,
{
    let mut grid: Vec<Vec<MapTile>> = Vec::new();
    let mut y: usize = 0;
    while y < MAP_HEIGHT
        invariant
            y <= MAP_HEIGHT,
            grid@.len() == y,
            forall|yo: int| 0 <= yo < y ==> (#[trigger] grid@[yo])@.len() == MAP_WIDTH,
            forall|xo: int, yo: int|
                0 <= yo < y && 0 <= xo < MAP_WIDTH ==> grid@[yo]@[xo] == spec_honeycomb_tile(
                    xo,
                    yo,
                ),
        decreases MAP_HEIGHT - y,
    {
        let mut row: Vec<MapTile> = Vec::new();
        let mut x: usize = 0;
        while x < MAP_WIDTH
            invariant
                y < MAP_HEIGHT,
                x <= MAP_WIDTH,
                row@.len() == x,
                forall|xo: int| 0 <= xo < x ==> row@[xo] == spec_honeycomb_tile(xo, y as int),
            decreases MAP_WIDTH - x,
        {
            let tile = if x == 0 || x == MAP_WIDTH - 1 || y == 0 || y == MAP_HEIGHT - 1 {
                MapTile::Block
            } else if ((x % 2 == 0 && x <= 12) || (x % 2 == 1 && x >= 15)) && ((y % 2 == 0 && y
                <= 8) || (y % 2 == 1 && y >= 11)) {
                MapTile::Block
            } else {
                MapTile::Empty
            };
            row.push(tile);
            x += 1;
        }
        grid.push(row);
        y += 1;
    }
    let spawns: [(usize, usize); 4] = [
        (1, 1),
        (1, MAP_HEIGHT - 2),
        (MAP_WIDTH - 2, 1),
        (MAP_WIDTH - 2, MAP_HEIGHT - 2),
    ];
    let retvl = BaseMap::from_raw(&grid, spawns);
    proof {
        assert(retvl.spec_tile(1, 1) == spec_honeycomb_tile(1, 1));
        assert(retvl.spec_tile(1, MAP_HEIGHT - 2) == spec_honeycomb_tile(1, MAP_HEIGHT - 2));
        assert(retvl.spec_tile(MAP_WIDTH - 2, 1) == spec_honeycomb_tile(MAP_WIDTH - 2, 1));
        assert(retvl.spec_tile(MAP_WIDTH - 2, MAP_HEIGHT - 2) == spec_honeycomb_tile(
            MAP_WIDTH - 2,
            MAP_HEIGHT - 2,
        ));
        assert forall|k: int| 0 <= k < 4 implies retvl.spec_tile(
            (#[trigger] retvl.spec_spawns()[k]).0 as int,
            retvl.spec_spawns()[k].1 as int,
        ) == MapTile::Empty by {
            assert(retvl.spec_spawns()[k] == spawns@[k]);
        }
    }
    retvl
}

/// Whether all four spawn cells hold `Empty`.
pub fn verify_spawns(map: &BaseMap) -> (r: bool)
    requires
        map.wf(),
    ensures
        r == forall|k: int|
            0 <= k < 4 ==> map.spec_tile(
                (#[trigger] map.spec_spawns()[k]).0 as int,
                map.spec_spawns()[k].1 as int,
            ) == MapTile::Empty,
{
    let spawns = map.player_spawns();
    let mut ok = true;
    let mut k: usize = 0;
    while k < 4
        invariant
            k <= 4,
            spawns@ == map.spec_spawns(),
            map.wf(),
            ok == forall|j: int|
                0 <= j < k ==> map.spec_tile(
                    (#[trigger] map.spec_spawns()[j]).0 as int,
                    map.spec_spawns()[j].1 as int,
                ) == MapTile::Empty,
        decreases 4 - k,
    {
        let sp = spawns[k];
        let t = map.get(sp.0, sp.1);
        if t != MapTile::Empty {
            ok = false;
        }
        k += 1;
    }
    ok
}

} // verus!
