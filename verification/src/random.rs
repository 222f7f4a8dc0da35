//! Trusted access to the process's random source: session nonces and email
//! verification codes. Nothing is promised of a drawn value beyond its range;
//! every caller's contract holds whatever comes back.

use vstd::prelude::*;
use rand::Rng;

verus! {

/// Relies on rand::random: one draw from the thread-local generator.
/// Nothing is promised of the value.
#[verifier::external_body]
pub fn random_i32() -> i32 {
    rand::random::<i32>()
}

/// Relies on rand::thread_rng and Rng::gen_range: a value uniformly drawn
/// from the given non-empty range.
#[verifier::external_body]
pub fn random_verification_code() -> (r: i32)
    ensures
        100000 <= r < 1000000,
{
    rand::thread_rng().gen_range(100_000..1_000_000)
}

} // verus!
