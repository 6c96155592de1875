//! Random bytes from the operating system's generator.

use ring::rand::SecureRandom;
use ring::rand::SystemRandom;
use vstd::prelude::*;

verus! {

/// The system generator could not supply random bytes.
#[derive(Clone, Copy, Debug, PartialEq, Eq)]
pub struct EntropyError;

impl EntropyError {
    /// Text for operators.
    pub fn message(&self) -> (text: String)
        ensures
            text@ == "RNG failure"@,
    {
        "RNG failure".to_string()
    }
}

/// Calls `ring::rand::SystemRandom::new` and `SecureRandom::fill` on a zeroed
/// buffer of `N` bytes. The bytes are random, so nothing is claimed of them;
/// `None` stands for the generator's failure.
#[verifier::external_body]
pub(crate) fn fill_random<const N: usize>() -> (bytes: Option<[u8; N]>) {
    let mut buffer = [0u8; N];
    match SystemRandom::new().fill(&mut buffer) {
        Ok(()) => Some(buffer),
        Err(_) => None,
    }
}

} // verus!
