//! Why the resolver gives no solution.

use vstd::prelude::*;

verus! {

#[derive(Clone, Copy, Debug, PartialEq, Eq, Structural)]
pub enum Error {
    /// No nonce below `u64::MAX` is a proof of work.
    NonceNotFound,
}

} // verus!
