//! Why the engine gives no verdict.

use vstd::prelude::*;

verus! {

#[derive(Clone, Copy, Debug, PartialEq, Eq, Structural)]
pub enum Error {
    /// The whitelist map refused an update.
    MapError,
    /// No challenge is pending for the peer.
    ChallengeNotFound,
}

} // verus!
