//! The one place where chance enters the rules.

use vstd::prelude::*;
use rand::Rng;

verus! {

/// Draws a whole number from `low..high`: a call of `rand::Rng::gen_range` on the
/// generator that `rand::thread_rng` hands out.
///
/// Trusted, not proved: `gen_range` panics on an empty range, which `requires` rules
/// out, and otherwise returns a member of the half-open range it is given. Nothing is
/// claimed about which member, and two calls with the same bounds may differ.
/// `thread_rng` panics if the system's source of randomness cannot be read when the
/// thread first asks for its generator; no argument has a say in that.
#[verifier::external_body]
pub(crate) fn random_in(low: i64, high: i64) -> (drawn: i64)
    requires
        low < high,
    ensures
        low <= drawn < high,
{
    rand::thread_rng().gen_range(low..high)
}

} // verus!
