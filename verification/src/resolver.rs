//! The client's side of the proof of work: it solves the challenge that the
//! server bound to the client's socket.

use crate::challenge::Resolver as Interface;
use crate::common::{bind_challenge, SocketV4};
use crate::hashcash::Hashcash;
use crate::resolver::error::Error;
use vstd::prelude::*;

pub mod error;

verus! {

/// Solves challenges at one difficulty.
pub struct Resolver {
    difficulty: u32,
}

impl Resolver {
    /// A resolver that looks for `difficulty` leading zero bits.
    pub fn new(difficulty: u32) -> (resolver: Self)
        ensures
            resolver.difficulty() == difficulty,
    {
        Resolver { difficulty }
    }
}

impl Interface for Resolver {
    closed spec fn difficulty(&self) -> u32 {
        self.difficulty
    }

    fn compute(&self, challenge: Vec<u8>, uk: SocketV4) -> (solved: Result<([u8; 32], u64), Error>)
    {
        let data = bind_challenge(challenge.as_slice(), &uk);
        let hk = Hashcash::new(data);
        match hk.compute(self.difficulty) {
            Some((hash, nonce)) => Ok((hash, nonce)),
            None => Err(Error::NonceNotFound),
        }
    }
}

} // verus!
