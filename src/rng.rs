//! The deterministic generator behind all jitter: a 64-bit linear
//! congruential generator seeded per element, so that the same seed always
//! gives the same drawing.
use vstd::prelude::*;

verus! {

/// Multiplier of the linear-congruential step.
pub const LCG_MULTIPLIER: u64 = 6364136223846793005;

/// Constant mixed into every seed.
pub const SEED_MIX: u64 = 0x9E3779B97F4A7C15;

/// State used instead of a mixed seed of zero.
pub const ZERO_STATE_REPLACEMENT: u64 = 0xDEADBEEFCAFEBABE;

/// The state a generator starts in for a given seed.
pub open spec fn initial_state(seed: i32) -> u64 {
    let mixed = (seed as u64) ^ SEED_MIX;
    if mixed == 0 {
        ZERO_STATE_REPLACEMENT
    } else {
        mixed
    }
}

/// One step of the generator: `state * a + 1` modulo 2^64.
pub open spec fn lcg_step(state: u64) -> u64 {
    ((state as int * LCG_MULTIPLIER as int + 1) % 0x1_0000_0000_0000_0000) as u64
}

/// The state after `n` draws from a generator created with `seed`.
pub open spec fn state_after(seed: i32, n: nat) -> u64
    decreases n,
{
    if n == 0 {
        initial_state(seed)
    } else {
        lcg_step(state_after(seed, (n - 1) as nat))
    }
}

/// Seeded linear-congruential generator. Each element of a drawing gets its
/// own, created from the element's seed, so elements never share one.
pub struct LcgRng {
    pub state: u64,
}

impl LcgRng {
    /// A generator for `seed`: the seed, sign-extended to 64 bits, mixed with
    /// a constant; a mixed value of zero is replaced by a fixed non-zero state.
    pub fn new(seed: i32) -> (r: LcgRng)
        ensures
            r.state == initial_state(seed),
    {
        let mut s: u64 = seed as u64;
        s = s ^ SEED_MIX;
        if s == 0 {
            s = ZERO_STATE_REPLACEMENT;
        }
        LcgRng { state: s }
    }

    /// Advances the state one step and returns the new state.
    pub fn next_u64(&mut self) -> (r: u64)
        ensures
            final(self).state == lcg_step(old(self).state),
            r == final(self).state,
    {
        self.state = self.state.wrapping_mul(LCG_MULTIPLIER).wrapping_add(1);
        self.state
    }

    /// Advances the state one step and returns its top 53 bits; divided by
    /// 2^53 this is a uniform fraction in `[0, 1)`.
    pub fn next_bits53(&mut self) -> (r: u64)
        ensures
            final(self).state == lcg_step(old(self).state),
            r == final(self).state / 2048,
            r < 0x20_0000_0000_0000,
    {
        let v = self.next_u64();
        assert(v >> 11u64 == v / 2048) by (bit_vector);
        assert(v / 2048 < 0x20_0000_0000_0000);
        v >> 11
    }
}

/// The state after `n` steps from `state`.
pub open spec fn iterate(state: u64, n: nat) -> u64
    decreases n,
{
    if n == 0 {
        state
    } else {
        lcg_step(iterate(state, (n - 1) as nat))
    }
}

/// The first `n` values a generator in `state` draws with `next_u64`: the
/// `k`-th draw returns the state after `k + 1` steps.
pub open spec fn draws(state: u64, n: nat) -> Seq<u64> {
    Seq::new(n, |k: int| iterate(state, (k + 1) as nat))
}

proof fn lemma_iterate_from_seed(seed: i32, n: nat)
    ensures
        iterate(initial_state(seed), n) == state_after(seed, n),
    decreases n,
{
    if n > 0 {
        lemma_iterate_from_seed(seed, (n - 1) as nat);
    }
}

/// Generators created from the same seed draw the same values in the same
/// order, however many are drawn: for every `n`, the first `n` draws of both
/// are equal, and the `k`-th of them is `state_after(seed, k + 1)`.
pub proof fn lemma_same_seed_same_draws(a: LcgRng, b: LcgRng, seed: i32, n: nat)
    requires
        a.state == initial_state(seed),
        b.state == initial_state(seed),
    ensures
        draws(a.state, n) == draws(b.state, n),
        forall|k: int| 0 <= k < n ==> #[trigger] draws(a.state, n)[k] == state_after(seed, (k + 1) as nat),
{
    assert forall|k: int| 0 <= k < n implies #[trigger] draws(a.state, n)[k] == state_after(
        seed,
        (k + 1) as nat,
    ) by {
        lemma_iterate_from_seed(seed, (k + 1) as nat);
    }
}

} // verus!
