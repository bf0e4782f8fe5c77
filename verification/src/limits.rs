//! Global buffer-size bounds for requests entering the cryptographic
//! service. They are fixed at build time so that every buffer around the
//! engine can be statically sized; the surrounding request validator, not
//! the engine itself, rejects oversized requests.

use vstd::prelude::*;

verus! {

/// Maximum number of random bytes that can be requested at once.
pub const MAX_RANDOM_SIZE: usize = 1500;

/// Maximum plaintext length for symmetric encryption.
pub const MAX_PLAINTEXT_SIZE: usize = 1500;

/// Maximum ciphertext length for symmetric encryption.
pub const MAX_CIPHERTEXT_SIZE: usize = 1500;

/// The three buffer bounds are build-time constants, each one Ethernet MTU.
pub proof fn lemma_buffer_limits()
    ensures
        MAX_RANDOM_SIZE == 1500,
        MAX_PLAINTEXT_SIZE == 1500,
        MAX_CIPHERTEXT_SIZE == 1500,
{
}

} // verus!
