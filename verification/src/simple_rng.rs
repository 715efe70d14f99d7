use vstd::prelude::*;

verus! {

/// One step of the linear congruential generator:
/// `(1664525 * s + 1013904223) mod 2^32`.
pub open spec fn lcg_next(s: int) -> int {
    (1664525 * s + 1013904223) % 0x1_0000_0000
}

/// The generator's state after `n` draws starting from `seed`.
pub open spec fn lcg_state(seed: int, n: nat) -> int
    decreases n,
{
    if n == 0 {
        seed
    } else {
        lcg_next(lcg_state(seed, (n - 1) as nat))
    }
}

/// A deterministic pseudo-random source: successive states of a linear
/// congruential generator, reproducible from the seed alone.
pub struct SimpleRng {
    seed: u64,
}

impl SimpleRng {
    /// The current state of the generator.
    pub closed spec fn state(&self) -> int {
        self.seed as int
    }

    /// Constructs a generator whose state is exactly `seed`.
    pub fn new(seed: u64) -> (rng: Self)
        ensures
            rng.state() == seed,
    {
        SimpleRng { seed }
    }

    /// Advances the state by one step and returns the new state, which
    /// always fits in 32 bits. The multiplication is carried out in
    /// 64-bit arithmetic before the reduction modulo 2^32, so the
    /// precondition only rules out states large enough to overflow it.
    pub fn next_u32(&mut self) -> (r: u32)
        requires
            1664525 * old(self).state() + 1013904223 <= u64::MAX,
        ensures
            final(self).state() == lcg_next(old(self).state()),
            0 <= final(self).state() < 0x1_0000_0000,
            r == final(self).state(),
    {
        self.seed = (1664525u64 * self.seed + 1013904223u64) % 0x1_0000_0000u64;
        self.seed as u32
    }
}

} // verus!
