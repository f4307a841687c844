//! Fixed-point scalars, vectors and axis-aligned boxes.
//!
//! All positions, velocities and speeds are signed binary fixed-point
//! numbers with eight fractional bits: one pixel is `256` raw units, and the
//! bit `b` places below the integer boundary is worth `1/2^b` of a pixel.
//! Arithmetic is exact; every operation carries the bounds that keep the raw
//! `i32` from overflowing.

use vstd::prelude::*;

verus! {

/// Raw units per pixel: `2^8`.
pub const FRAC_ONE: i32 = 256;

/// The largest pure-fraction raw value, one raw unit below a whole pixel.
pub const MAX_FRAC_PORTION: i32 = 255;

/// A signed fixed-point scalar with eight fractional bits.
#[derive(Clone, Copy, PartialEq, Eq, Structural, Debug, Hash)]
pub struct FixedScalar {
    pub raw: i32,
}

impl FixedScalar {
    /// The scalar holding exactly `whole` pixels.
    pub fn from_int(whole: i32) -> (r: Self)
        requires
            -0x0040_0000 <= whole <= 0x0040_0000,
        ensures
            r.raw == whole * 256,
    {
        Self { raw: whole * 256 }
    }

    /// The scalar with the given raw (1/256-pixel) value.
    pub fn from_raw(raw: i32) -> (r: Self)
        ensures
            r.raw == raw,
    {
        Self { raw }
    }

    /// `whole` pixels plus `frac` raw 1/256-pixel units.
    pub fn from_parts(whole: i32, frac: i32) -> (r: Self)
        requires
            0 <= whole <= 0x0040_0000,
            0 <= frac <= 255,
        ensures
            r.raw == whole * 256 + frac,
    {
        Self { raw: whole * 256 + frac }
    }

    /// The scalar worth `1/2^bit` of a pixel.
    pub fn from_bit(bit: u32) -> (r: Self)
        requires
            1 <= bit <= 8,
        ensures
            r.raw == 1i32 << (8u32 - bit),
    {
        Self { raw: 1i32 << (8u32 - bit) }
    }

    pub fn add(self, other: Self) -> (r: Self)
        requires
            -0x8000_0000 <= self.raw + other.raw <= 0x7fff_ffff,
        ensures
            r.raw == self.raw + other.raw,
    {
        Self { raw: self.raw + other.raw }
    }

    pub fn sub(self, other: Self) -> (r: Self)
        requires
            -0x8000_0000 <= self.raw - other.raw <= 0x7fff_ffff,
        ensures
            r.raw == self.raw - other.raw,
    {
        Self { raw: self.raw - other.raw }
    }

    pub fn neg(self) -> (r: Self)
        requires
            self.raw != -0x8000_0000,
        ensures
            r.raw == -self.raw,
    {
        Self { raw: -self.raw }
    }

    pub fn mul_int(self, k: i32) -> (r: Self)
        requires
            -0x8000_0000 <= self.raw * k <= 0x7fff_ffff,
        ensures
            r.raw == self.raw * k,
    {
        Self { raw: self.raw * k }
    }

    pub fn lt(self, other: Self) -> (r: bool)
        ensures
            r == (self.raw < other.raw),
    {
        self.raw < other.raw
    }
}

/// A two-dimensional fixed-point vector; the coordinate system is screen
/// space, `x` growing rightwards and `y` growing downwards.
#[derive(Clone, Copy, PartialEq, Eq, Structural, Debug, Hash)]
pub struct Vec2 {
    pub x: FixedScalar,
    pub y: FixedScalar,
}

impl Vec2 {
    pub fn new(x: FixedScalar, y: FixedScalar) -> (r: Self)
        ensures
            r.x == x,
            r.y == y,
    {
        Self { x, y }
    }

    pub fn add(self, other: Self) -> (r: Self)
        requires
            -0x8000_0000 <= self.x.raw + other.x.raw <= 0x7fff_ffff,
            -0x8000_0000 <= self.y.raw + other.y.raw <= 0x7fff_ffff,
        ensures
            r.x.raw == self.x.raw + other.x.raw,
            r.y.raw == self.y.raw + other.y.raw,
    {
        Self { x: self.x.add(other.x), y: self.y.add(other.y) }
    }
}

/// One of the four axis directions.
#[derive(Clone, Copy, PartialEq, Eq, Structural, Debug, Hash)]
pub enum Direction {
    Up,
    Down,
    Left,
    Right,
}

impl Direction {
    pub open spec fn spec_is_horizontal(self) -> bool {
        self == Direction::Left || self == Direction::Right
    }

    pub open spec fn spec_is_vertical(self) -> bool {
        self == Direction::Up || self == Direction::Down
    }

    /// The opposite direction.
    pub open spec fn spec_flipped(self) -> Direction {
        match self {
            Direction::Up => Direction::Down,
            Direction::Down => Direction::Up,
            Direction::Left => Direction::Right,
            Direction::Right => Direction::Left,
        }
    }

    /// The unit vector of this direction scaled by a non-negative raw speed.
    pub open spec fn spec_scaled_raw(self, speed: int) -> (int, int) {
        match self {
            Direction::Up => (0, -speed),
            Direction::Down => (0, speed),
            Direction::Left => (-speed, 0),
            Direction::Right => (speed, 0),
        }
    }

    pub fn is_horizontal(self) -> (r: bool)
        ensures
            r == self.spec_is_horizontal(),
    {
        match self {
            Direction::Left | Direction::Right => true,
            Direction::Up | Direction::Down => false,
        }
    }

    pub fn is_vertical(self) -> (r: bool)
        ensures
            r == self.spec_is_vertical(),
    {
        !self.is_horizontal()
    }

    pub fn flipped(self) -> (r: Direction)
        ensures
            r == self.spec_flipped(),
    {
        match self {
            Direction::Up => Direction::Down,
            Direction::Down => Direction::Up,
            Direction::Left => Direction::Right,
            Direction::Right => Direction::Left,
        }
    }

    /// This direction's unit vector times `speed`.
    pub fn scaled_vec(self, speed: FixedScalar) -> (r: Vec2)
        requires
            0 <= speed.raw,
        ensures
            (r.x.raw as int, r.y.raw as int) == self.spec_scaled_raw(speed.raw as int),
    {
        let zero = FixedScalar::from_raw(0);
        match self {
            Direction::Up => Vec2::new(zero, speed.neg()),
            Direction::Down => Vec2::new(zero, speed),
            Direction::Left => Vec2::new(speed.neg(), zero),
            Direction::Right => Vec2::new(speed, zero),
        }
    }
}

/// An axis-aligned box given by its top-left corner and its extent.
#[derive(Clone, Copy, PartialEq, Eq, Structural, Debug, Hash)]
pub struct Rect {
    pub pos: Vec2,
    pub size: Vec2,
}

/// Whether two boxes overlap on both axes; touching edges do not count.
pub open spec fn spec_rects_overlap(a: Rect, b: Rect) -> bool {
    &&& a.pos.x.raw < b.pos.x.raw + b.size.x.raw
    &&& b.pos.x.raw < a.pos.x.raw + a.size.x.raw
    &&& a.pos.y.raw < b.pos.y.raw + b.size.y.raw
    &&& b.pos.y.raw < a.pos.y.raw + a.size.y.raw
}

impl Rect {
    pub fn new(pos: Vec2, size: Vec2) -> (r: Self)
        ensures
            r.pos == pos,
            r.size == size,
    {
        Self { pos, size }
    }

    /// Top-left corner.
    pub fn tl(self) -> (r: Vec2)
        ensures
            r == self.pos,
    {
        self.pos
    }

    /// Top-right corner.
    pub fn tr(self) -> (r: Vec2)
        requires
            -0x8000_0000 <= self.pos.x.raw + self.size.x.raw <= 0x7fff_ffff,
        ensures
            r.x.raw == self.pos.x.raw + self.size.x.raw,
            r.y == self.pos.y,
    {
        Vec2::new(self.pos.x.add(self.size.x), self.pos.y)
    }

    /// Bottom-left corner.
    pub fn bl(self) -> (r: Vec2)
        requires
            -0x8000_0000 <= self.pos.y.raw + self.size.y.raw <= 0x7fff_ffff,
        ensures
            r.x == self.pos.x,
            r.y.raw == self.pos.y.raw + self.size.y.raw,
    {
        Vec2::new(self.pos.x, self.pos.y.add(self.size.y))
    }

    /// Bottom-right corner.
    pub fn br(self) -> (r: Vec2)
        requires
            -0x8000_0000 <= self.pos.x.raw + self.size.x.raw <= 0x7fff_ffff,
            -0x8000_0000 <= self.pos.y.raw + self.size.y.raw <= 0x7fff_ffff,
        ensures
            r.x.raw == self.pos.x.raw + self.size.x.raw,
            r.y.raw == self.pos.y.raw + self.size.y.raw,
    {
        Vec2::new(self.pos.x.add(self.size.x), self.pos.y.add(self.size.y))
    }

    /// The midpoint of the box. Exact when both extents have even raw values.
    pub fn center(self) -> (r: Vec2)
        requires
            0 <= self.size.x.raw,
            0 <= self.size.y.raw,
            -0x8000_0000 <= self.pos.x.raw + self.size.x.raw <= 0x7fff_ffff,
            -0x8000_0000 <= self.pos.y.raw + self.size.y.raw <= 0x7fff_ffff,
        ensures
            r.x.raw == self.pos.x.raw + self.size.x.raw / 2,
            r.y.raw == self.pos.y.raw + self.size.y.raw / 2,
    {
        let half_x = FixedScalar::from_raw((self.size.x.raw as u32 / 2) as i32);
        let half_y = FixedScalar::from_raw((self.size.y.raw as u32 / 2) as i32);
        Vec2::new(self.pos.x.add(half_x), self.pos.y.add(half_y))
    }

    /// Whether this box overlaps `other`; touching edges do not count.
    pub fn overlaps(self, other: Rect) -> (r: bool)
        requires
            -0x8000_0000 <= self.pos.x.raw + self.size.x.raw <= 0x7fff_ffff,
            -0x8000_0000 <= self.pos.y.raw + self.size.y.raw <= 0x7fff_ffff,
            -0x8000_0000 <= other.pos.x.raw + other.size.x.raw <= 0x7fff_ffff,
            -0x8000_0000 <= other.pos.y.raw + other.size.y.raw <= 0x7fff_ffff,
        ensures
            r == spec_rects_overlap(self, other),
    {
        self.pos.x.raw < other.pos.x.raw + other.size.x.raw
            && other.pos.x.raw < self.pos.x.raw + self.size.x.raw
            && self.pos.y.raw < other.pos.y.raw + other.size.y.raw
            && other.pos.y.raw < self.pos.y.raw + self.size.y.raw
    }
}

/// Box overlap is symmetric: each entity's collision scan sees the other.
pub proof fn lemma_overlap_symmetric(a: Rect, b: Rect)
    ensures
        spec_rects_overlap(a, b) == spec_rects_overlap(b, a),
{
}

/// An axis-aligned velocity: a non-negative magnitude along a remembered
/// direction, so that a stopped entity still has a facing.
#[derive(Clone, Copy, PartialEq, Eq, Structural, Debug, Hash)]
pub struct AlignedVec {
    pub mag: FixedScalar,
    pub dir: Direction,
}

/// How one `step_to` call moves a magnitude toward a target: linearly by at
/// most `step`, never overshooting and never below zero (for non-negative
/// inputs).
pub open spec fn spec_step_toward(cur: int, step: int, target: int) -> int {
    if cur > target {
        if cur - step > target {
            cur - step
        } else {
            target
        }
    } else {
        if cur + step < target {
            cur + step
        } else {
            target
        }
    }
}

impl AlignedVec {
    /// The magnitude is never negative.
    pub open spec fn wf(self) -> bool {
        self.mag.raw >= 0
    }

    /// The zero velocity facing `dir`.
    pub fn zero(dir: Direction) -> (r: Self)
        ensures
            r.mag.raw == 0,
            r.dir == dir,
            r.wf(),
    {
        Self { mag: FixedScalar::from_raw(0), dir }
    }

    pub fn new(mag: FixedScalar, dir: Direction) -> (r: Self)
        requires
            0 <= mag.raw,
        ensures
            r.mag == mag,
            r.dir == dir,
            r.wf(),
    {
        Self { mag, dir }
    }

    pub fn magnitude(self) -> (r: FixedScalar)
        ensures
            r == self.mag,
    {
        self.mag
    }

    /// The vector this velocity stands for.
    pub fn as_vec2(self) -> (r: Vec2)
        requires
            self.wf(),
        ensures
            (r.x.raw as int, r.y.raw as int) == self.dir.spec_scaled_raw(self.mag.raw as int),
    {
        self.dir.scaled_vec(self.mag)
    }

    /// Moves the magnitude toward `target` by at most `step`, keeping the
    /// direction; used for friction decay.
    pub fn step_to(self, step: FixedScalar, target: FixedScalar) -> (r: Self)
        requires
            self.wf(),
            0 <= step.raw,
            0 <= target.raw,
            self.mag.raw + step.raw <= 0x7fff_ffff,
        ensures
            r.dir == self.dir,
            r.mag.raw == spec_step_toward(self.mag.raw as int, step.raw as int, target.raw as int),
            r.wf(),
    {
        let mag = if self.mag.raw > target.raw {
            if self.mag.raw - step.raw > target.raw {
                FixedScalar::from_raw(self.mag.raw - step.raw)
            } else {
                target
            }
        } else {
            if self.mag.raw + step.raw < target.raw {
                FixedScalar::from_raw(self.mag.raw + step.raw)
            } else {
                target
            }
        };
        Self { mag, dir: self.dir }
    }

    /// Moves the magnitude toward `target`'s magnitude by at most `step`
    /// while re-aligning the direction to `target`'s; used for acceleration
    /// under directional input.
    pub fn step_to_dir(self, step: FixedScalar, target: AlignedVec) -> (r: Self)
        requires
            self.wf(),
            target.wf(),
            0 <= step.raw,
            self.mag.raw + step.raw <= 0x7fff_ffff,
        ensures
            r.dir == target.dir,
            r.mag.raw == spec_step_toward(self.mag.raw as int, step.raw as int, target.mag.raw as int),
            r.wf(),
    {
        let stepped = self.step_to(step, target.mag);
        Self { mag: stepped.mag, dir: target.dir }
    }
}

/// One `step_to` call moves the magnitude by at most the step size, stops
/// exactly at the target rather than passing it, and never drives a
/// non-negative magnitude negative.
pub proof fn lemma_step_toward_bounded(cur: int, step: int, target: int)
    requires
        0 <= cur,
        0 <= step,
        0 <= target,
    ensures
        0 <= spec_step_toward(cur, step, target),
        cur <= target ==> spec_step_toward(cur, step, target) <= target,
        cur >= target ==> spec_step_toward(cur, step, target) >= target,
        spec_step_toward(cur, step, target) <= if cur > target {
            cur
        } else {
            target
        },
{
}

} // verus!
