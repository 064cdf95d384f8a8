//! The source of random bytes.

use vstd::prelude::*;

verus! {

/// Draws one byte from the thread-local generator of the `rand` crate:
/// `rand::thread_rng()`, then `Rng::gen::<u8>()` on it.
///
/// Nothing is claimed of the byte: the generator is seeded by the operating
/// system, so two draws may differ.
///
/// The call takes no input, so no precondition can rule out the three places
/// at which the generator panics when the machine fails it: the operating
/// system cannot seed it on first use, a later reseed from the operating
/// system fails, or the handler that makes a forked process reseed cannot be
/// registered.
#[verifier::external_body]
pub(crate) fn random_byte() -> (byte: u8) {
    rand::Rng::gen::<u8>(&mut rand::thread_rng())
}

} // verus!
