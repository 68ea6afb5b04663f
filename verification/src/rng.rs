//! The seedable pseudo-random source of the generation engine.
//!
//! A linear congruential generator with the multiplier and increment of
//! Knuth's MMIX line. Draws come from the high half of the state, reduced
//! to the fixed-point unit interval: each draw is uniform over
//! `[1, SCALE]`, zero excluded so inverse-transform sampling never
//! divides by zero. The generator is deterministic: identical seeds give
//! identical draw sequences.

use crate::fixed::SCALE;
use vstd::prelude::*;

verus! {

pub const LCG_MULTIPLIER: u64 = 6364136223846793005;

pub const LCG_INCREMENT: u64 = 1442695040888963407;

pub const TWO_POW_64: u128 = 0x1_0000_0000_0000_0000;

pub const TWO_POW_32: u64 = 0x1_0000_0000;

/// The successor state of the generator.
#[verifier::opaque]
pub open spec fn lcg_next_spec(s: int) -> int {
    (s * (LCG_MULTIPLIER as int) + LCG_INCREMENT as int) % (TWO_POW_64 as int)
}

/// The value a state yields: the high 32 bits of the state, reduced to
/// `[1, SCALE]`.
#[verifier::opaque]
pub open spec fn draw_of_state_spec(s: int) -> int {
    (s / (TWO_POW_32 as int)) % (SCALE as int) + 1
}

/// The deterministic pseudo-random source.
#[derive(Clone, Copy, Debug, PartialEq, Eq, Structural)]
pub struct Rng {
    pub state: u64,
}

impl Rng {
    pub fn new(seed: u64) -> (r: Rng)
        ensures
            r.state == seed,
    {
        Rng { state: seed }
    }

    /// Advances the state once and yields one uniform draw in
    /// `[1, SCALE]`.
    pub fn draw(&mut self) -> (r: u64)
        ensures
            final(self).state as int == lcg_next_spec(old(self).state as int),
            r as int == draw_of_state_spec(final(self).state as int),
            1 <= r <= SCALE,
    {
        proof {
            reveal(lcg_next_spec);
            reveal(draw_of_state_spec);
            let s = old(self).state;
            assert((s as int) * (LCG_MULTIPLIER as int) + LCG_INCREMENT as int <= u128::MAX)
                by (nonlinear_arith)
                requires s <= u64::MAX && LCG_MULTIPLIER == 6364136223846793005 && LCG_INCREMENT
                    == 1442695040888963407;
        }
        let wide = (self.state as u128) * (LCG_MULTIPLIER as u128) + (LCG_INCREMENT as u128);
        let next = (wide % TWO_POW_64) as u64;
        self.state = next;
        next / TWO_POW_32 % SCALE + 1
    }
}

} // verus!
