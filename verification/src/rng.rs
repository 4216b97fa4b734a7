//! The source of random bytes.

use vstd::prelude::*;

verus! {

/// A byte from `rand::random`, which draws it from the generator that the
/// `rand` crate keeps for the running thread. Nothing is known of the byte
/// beyond its type: two calls may well differ.
#[verifier::external_body]
pub(crate) fn random_byte() -> (byte: u8) {
    rand::random::<u8>()
}

} // verus!
