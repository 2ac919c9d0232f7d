//! The one source of chance in the game.

use vstd::prelude::*;
use rand::distributions::Uniform;
use rand::Rng;

verus! {

/// Draws an integer from the thread's random number generator.
///
/// Calls `rand::thread_rng`, builds the distribution with
/// `rand::distributions::Uniform::from` on the half-open range `low..high`
/// and draws once with `rand::Rng::sample`. The contract claims what the
/// documentation of `Uniform` promises: the value lies in the range, `low`
/// included and `high` excluded. An empty range makes `Uniform` panic and is
/// left out. Nothing is claimed about which value comes, and two calls may
/// differ. The generator is seeded by the operating system on first use and
/// panics if that fails.
#[verifier::external_body]
pub(crate) fn sample_uniform(low: i32, high: i32) -> (value: i32)
    requires
        low < high,
    ensures
        low <= value < high,
{
    rand::thread_rng().sample(Uniform::from(low..high))
}

} // verus!
