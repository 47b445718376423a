//! Trusted boundary to the rand crate: an explicitly seeded, locally owned
//! generator handed into each harness run, so a failing run can be replayed
//! from its seed. Nothing is assumed about the values drawn beyond the
//! range the documentation promises.
use vstd::prelude::*;

verus! {

#[verifier::external_type_specification]
#[verifier::external_body]
pub struct ExStdRng(rand::rngs::StdRng);

/// Relies on rand::rngs::StdRng via rand::SeedableRng::seed_from_u64: builds
/// a generator from a 64-bit seed. The stream it will produce is not
/// portable across rand versions, so nothing is stated about it.
#[verifier::external_body]
pub fn seed_rng(seed: u64) -> rand::rngs::StdRng {
    <rand::rngs::StdRng as rand::SeedableRng>::seed_from_u64(seed)
}

/// Relies on rand::RngExt::random_range over a half-open u32 range: the
/// sample lies in [lo, hi). The precondition rules out the empty range, the
/// one case where the call panics.
#[verifier::external_body]
pub fn draw_range(rng: &mut rand::rngs::StdRng, lo: u32, hi: u32) -> (r: u32)
    requires
        lo < hi,
    ensures
        lo <= r < hi,
{
    rand::RngExt::random_range(rng, lo..hi)
}

/// Relies on rand::RngExt::random for a full 32-bit word; nothing is
/// assumed about the value drawn.
#[verifier::external_body]
pub fn draw_word(rng: &mut rand::rngs::StdRng) -> u32 {
    rand::RngExt::random(rng)
}

} // verus!
