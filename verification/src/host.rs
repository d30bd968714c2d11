//! What the engine takes from its host: a monotonic clock and a source of
//! random bytes. Nothing in this file is proved; each item says what is
//! taken on trust.

use vstd::prelude::*;

verus! {

/// `std::time::Instant`, a reading of the monotonic clock. Nothing is known
/// of what a value holds.
#[verifier::external_type_specification]
#[verifier::external_body]
pub struct ExInstant(std::time::Instant);

/// `fastrand::Rng`, a pseudo-random number generator. Nothing is known of
/// what a value holds.
#[verifier::external_type_specification]
#[verifier::external_body]
pub struct ExRng(fastrand::Rng);

/// `Instant::now` reads the clock. Nothing is claimed of the reading.
pub assume_specification[ std::time::Instant::now ]() -> (now: std::time::Instant)
;

/// `Instant::elapsed` gives the time that went by since the reading was
/// taken. Nothing is claimed of the span.
pub assume_specification[ std::time::Instant::elapsed ](start: &std::time::Instant) -> (span:
    core::time::Duration)
;

/// `Duration::as_nanos` gives a span as a whole number of nanoseconds.
/// Nothing is claimed of the number.
pub assume_specification[ core::time::Duration::as_nanos ](span: &core::time::Duration) -> (nanos:
    u128)
;

/// `Instant::clone` copies a reading. Nothing is claimed of the copy.
pub assume_specification[ <std::time::Instant as Clone>::clone ](reading: &std::time::Instant) -> (copy:
    std::time::Instant)
;

/// `Rng::clone` makes a generator with the same seed. Nothing is claimed of
/// the copy.
pub assume_specification[ <fastrand::Rng as Clone>::clone ](rng: &fastrand::Rng) -> (copy:
    fastrand::Rng)
;

/// `Rng::new` makes a generator seeded by the thread's own generator.
/// Nothing is claimed of the seed.
pub assume_specification[ fastrand::Rng::new ]() -> (rng: fastrand::Rng)
;

/// `Rng::u8` over the range `low..high`: a byte at or above `low` and below
/// `high`. The call panics on an empty range, which `low < high` rules out.
/// Nothing is claimed of which byte comes out, nor of the generator after.
#[verifier::external_body]
pub(crate) fn random_u8(rng: &mut fastrand::Rng, low: u8, high: u8) -> (byte: u8)
    requires
        low < high,
    ensures
        low <= byte < high,
{
    rng.u8(low..high)
}

} // verus!
