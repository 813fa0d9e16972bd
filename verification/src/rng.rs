//! A small deterministic pseudo-random generator.
//!
//! Jitter and soft-shadow sampling draw from a per-pixel generator
//! seeded from the render seed and the pixel coordinates, so a render is
//! reproducible bit for bit from its seed, and parallel workers never
//! share random state.

use vstd::prelude::*;

verus! {

/// The linear congruential step, modulo `2^64` (Knuth's MMIX constants).
pub open spec fn next_state(s: int) -> int {
    (s * 6364136223846793005 + 1442695040888963407) % 0x1_0000_0000_0000_0000
}

/// The per-pixel seed: the render seed mixed with both coordinates.
pub open spec fn pixel_seed(seed: int, x: int, y: int) -> int {
    (seed + x * 0x9E3779B97F4A7C15 + y * 0x6A09E667F3BCC909) % 0x1_0000_0000_0000_0000
}

/// The fixed-point sample in `[0, 1)` drawn from a state: its top ten
/// bits.
pub open spec fn sample_of(s: int) -> int {
    s % 0x1_0000_0000_0000_0000 / 0x40_0000_0000_0000
}

/// Every drawn sample lies in `[0, 1)` in fixed point.
pub proof fn lemma_sample_of_range(s: int)
    ensures
        0 <= sample_of(s) < 1024,
{
    let m = s % 0x1_0000_0000_0000_0000;
    vstd::arithmetic::div_mod::lemma_mod_division_less_than_divisor(s, 0x1_0000_0000_0000_0000);
    vstd::arithmetic::div_mod::lemma_div_pos_is_pos(m, 0x40_0000_0000_0000);
    assert(0x40_0000_0000_0000 * 1024 == 0x1_0000_0000_0000_0000) by (nonlinear_arith);
    vstd::arithmetic::div_mod::lemma_multiply_divide_lt(m, 0x40_0000_0000_0000, 1024);
}

/// A deterministic pseudo-random generator (a 64-bit linear
/// congruential generator).
#[derive(Clone, Copy, Debug, PartialEq, Eq, Structural)]
pub struct Rng {
    pub state: u64,
}

impl Rng {
    /// The generator for one pixel of one seeded render.
    pub fn for_pixel(seed: u64, x: u32, y: u32) -> (r: Rng)
        ensures
            r.state as int == pixel_seed(seed as int, x as int, y as int),
    {
        let wide: u128 = (seed as u128) + (x as u128) * 0x9E3779B97F4A7C15u128 + (y as u128)
            * 0x6A09E667F3BCC909u128;
        let state = (wide % 0x1_0000_0000_0000_0000u128) as u64;
        Rng { state }
    }

    /// Advance the state and hand back a fixed-point sample in `[0, 1)`.
    pub fn next_fp(&mut self) -> (r: i64)
        ensures
            final(self).state as int == next_state(old(self).state as int),
            r as int == sample_of(final(self).state as int),
            0 <= r < 1024,
    {
        let wide: u128 = (self.state as u128) * 6364136223846793005u128 + 1442695040888963407u128;
        self.state = (wide % 0x1_0000_0000_0000_0000u128) as u64;
        let r = self.state / 0x40_0000_0000_0000u64;
        proof {
            vstd::arithmetic::div_mod::lemma_div_is_ordered(self.state as int,
                0xffff_ffff_ffff_ffff, 0x40_0000_0000_0000);
            vstd::arithmetic::div_mod::lemma_div_pos_is_pos(self.state as int,
                0x40_0000_0000_0000);
        }
        r as i64
    }
}

} // verus!
