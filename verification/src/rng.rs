//! A small deterministic pseudo-random generator (a 64-bit xorshift) used to
//! seed the landscape. Identical seeds yield identical sample streams, which
//! is all the terrain source asks of its sampler.

use vstd::prelude::*;

verus! {

/// One step of the 64-bit xorshift generator.
pub open spec fn spec_next_state(s: u64) -> u64 {
    let a = s ^ (s << 13u64);
    let b = a ^ (a >> 7u64);
    b ^ (b << 17u64)
}

/// Advances the generator by one step.
pub fn next_state(s: u64) -> (r: u64)
    ensures
        r == spec_next_state(s),
{
    let a = s ^ (s << 13u64);
    let b = a ^ (a >> 7u64);
    b ^ (b << 17u64)
}

/// The generator state after `t` steps from `seed`.
pub open spec fn spec_rng_state(seed: u64, t: nat) -> u64
    decreases t,
{
    if t == 0 {
        seed
    } else {
        spec_next_state(spec_rng_state(seed, (t - 1) as nat))
    }
}

} // verus!
