use vstd::prelude::*;

verus! {

/// The seedable pseudo-random generator of the rand crate; a value of it is
/// opaque here and is only threaded through the drawing wrapper below.
#[verifier::external_type_specification]
#[verifier::external_body]
pub struct ExStdRng(rand::rngs::StdRng);

/// Relies on rand's SeedableRng::seed_from_u64: builds a generator whose
/// whole stream is determined by the seed, so runs are reproducible.
#[verifier::external_body]
pub(crate) fn kostka_z_ziarna(ziarno: u64) -> rand::rngs::StdRng {
    <rand::rngs::StdRng as rand::SeedableRng>::seed_from_u64(ziarno)
}

/// Relies on rand's RngExt::random_range: draws a value uniformly from the
/// half-open range `[dolny, gorny)`; the call panics on an empty range, so
/// the range must be non-empty here.
#[verifier::external_body]
pub(crate) fn losuj(kostka: &mut rand::rngs::StdRng, dolny: u64, gorny: u64) -> (r: u64)
    requires
        dolny < gorny,
    ensures
        dolny <= r < gorny,
{
    rand::RngExt::random_range(kostka, dolny..gorny)
}

} // verus!
