//! The random byte that the random-mask opcode draws.

use vstd::prelude::*;

verus! {

/// Relies on rand::random: a byte drawn from the thread-local generator.
/// Nothing can be promised of its value.
#[verifier::external_body]
pub(crate) fn random_byte() -> u8 {
    rand::random::<u8>()
}

} // verus!
