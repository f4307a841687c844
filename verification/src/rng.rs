//! Deterministic pseudo-random number generation.
//!
//! A 64-bit xorshift generator: every draw consumes exactly one state
//! advance and hands back the advanced generator, so sequences are exactly
//! reproducible from a seed. Bounded draws use a modulo reduction, whose
//! slight bias for small ranges is an accepted, documented approximation.

use vstd::prelude::*;

verus! {

/// One xorshift advance of the 64-bit state.
pub open spec fn spec_step(cur: u64) -> u64 {
    let a = cur ^ (cur << 13u64);
    let b = a ^ (a >> 7u64);
    b ^ (b << 17u64)
}

/// Advances the xorshift state by one step.
pub fn step(cur: u64) -> (r: u64)
    ensures
        r == spec_step(cur),
{
    let mut retvl = cur;
    retvl = retvl ^ (retvl << 13u64);
    retvl = retvl ^ (retvl >> 7u64);
    retvl = retvl ^ (retvl << 17u64);
    retvl
}

/// A deterministic xorshift generator. Draw methods consume the generator
/// and return the advanced one alongside the drawn value; callers thread
/// the generator explicitly, so there is no hidden state.
pub struct Rng {
    cur_state: u64,
}

impl Rng {
    /// The current 64-bit state.
    pub closed spec fn state(self) -> u64 {
        self.cur_state
    }

    pub fn with_seed(seed: u64) -> (r: Self)
        ensures
            r.state() == seed,
    {
        Self { cur_state: seed }
    }

    /// Draws a boolean from the parity of the advanced state.
    pub fn bool_const(self) -> (r: (Self, bool))
        ensures
            r.0.state() == spec_step(self.state()),
            r.1 == (spec_step(self.state()) % 2 == 1),
    {
        let next_state = step(self.cur_state);
        (Self::with_seed(next_state), next_state % 2 == 1)
    }

    /// Draws from `[min, max]` inclusive by reducing the advanced state
    /// modulo the range size.
    pub fn u64_const(self, min: u64, max: u64) -> (r: (Self, u64))
        requires
            min <= max,
            max - min < u64::MAX,
        ensures
            r.0.state() == spec_step(self.state()),
            r.1 == min + spec_step(self.state()) as int % (max - min + 1),
            min <= r.1 <= max,
    {
        let next_state = step(self.cur_state);
        let range = max - min + 1;
        (Self::with_seed(next_state), min + next_state % range)
    }

    /// Draws from `[min, max]` inclusive as a `u8`.
    pub fn u8_const(self, min: u8, max: u8) -> (r: (Self, u8))
        requires
            min <= max,
        ensures
            r.0.state() == spec_step(self.state()),
            r.1 == min + spec_step(self.state()) as int % (max - min + 1),
            min <= r.1 <= max,
    {
        let (next, base) = self.u64_const(min as u64, max as u64);
        (next, base as u8)
    }

    /// Draws from `[min, max]` inclusive as a `usize`.
    pub fn usize_const(self, min: usize, max: usize) -> (r: (Self, usize))
        requires
            min <= max,
            max - min < u64::MAX,
        ensures
            r.0.state() == spec_step(self.state()),
            r.1 == min + spec_step(self.state()) as int % (max - min + 1),
            min <= r.1 <= max,
    {
        let (next, base) = self.u64_const(min as u64, max as u64);
        (next, base as usize)
    }

    /// Draws from `[min, max]` inclusive as an `i32`, using the low 31 bits
    /// of the advanced state as a non-negative dividend.
    pub fn i32_const(self, min: i32, max: i32) -> (r: (Self, i32))
        requires
            min <= max,
            max - min < 0x7fff_ffff,
        ensures
            r.0.state() == spec_step(self.state()),
            r.1 == min + (spec_step(self.state()) & 0x7fff_ffff) as int % (max - min + 1),
            min <= r.1 <= max,
    {
        let next_state = step(self.cur_state);
        let n = (next_state & 0x7fff_ffff) as u32;
        assert(next_state & 0x7fff_ffff <= 0x7fff_ffff) by (bit_vector);
        let range = (max as i64 - min as i64 + 1) as u32;
        let rem = n % range;
        (Self::with_seed(next_state), min + rem as i32)
    }
}

} // verus!
