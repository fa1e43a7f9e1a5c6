//! The server's side of the proof of work: it issues a challenge to a peer,
//! remembers it, and judges the solution that the peer hands in.

use crate::challenge::Engine as Interface;
use crate::common::{bind_challenge, pow_prefix, SocketV4};
use crate::engine::error::Error;
use crate::hashcash::{verifies, Hashcash};
use dashmap::DashMap;
use vstd::prelude::*;

pub mod error;

verus! {

/// `dashmap::DashMap`, a hash map that can be shared between threads.
#[verifier::external_type_specification]
#[verifier::external_body]
#[verifier::reject_recursive_types(K)]
#[verifier::reject_recursive_types(V)]
#[verifier::reject_recursive_types(S)]
pub struct ExDashMap<K, V, S>(DashMap<K, V, S>);

/// The entries of a map from a peer's key to the peer's challenge.
pub uninterp spec fn dashmap_entries(map: DashMap<u64, [u8; 8]>) -> Map<u64, Seq<u8>>;

/// Calls `dashmap::DashMap::new`. Trusted: the new map has no entry.
#[verifier::external_body]
fn dashmap_new() -> (map: DashMap<u64, [u8; 8]>)
    ensures
        forall|key: u64| !dashmap_entries(map).contains_key(key),
{
    DashMap::new()
}

/// Calls `dashmap::DashMap::insert`. Trusted: afterwards `key` has `value`,
/// whether or not it had one before, and every other key has what it had.
#[verifier::external_body]
fn dashmap_insert(map: &mut DashMap<u64, [u8; 8]>, key: u64, value: [u8; 8])
    ensures
        dashmap_entries(*final(map)) == dashmap_entries(*old(map)).insert(key, value@),
{
    map.insert(key, value);
}

/// Calls `dashmap::DashMap::get`. Trusted: it finds the value of `key` when
/// the map has that key, and nothing when it has not.
#[verifier::external_body]
fn dashmap_get(map: &DashMap<u64, [u8; 8]>, key: u64) -> (found: Option<[u8; 8]>)
    ensures
        match found {
            Some(value) => dashmap_entries(*map).contains_key(key) && dashmap_entries(*map)[key]
                == value@,
            None => !dashmap_entries(*map).contains_key(key),
        },
{
    map.get(&key).map(|entry| *entry.value())
}

/// Calls `rand::random` for eight bytes from the thread's generator, which
/// the system seeds. Nothing is claimed of the bytes.
#[verifier::external_body]
fn random_challenge() -> [u8; 8] {
    rand::random()
}

/// The value written for a whitelisted peer. Presence is the signal; the
/// value itself is not read.
pub const WHITELIST_VALUE: u32 = 1;

/// The flags of a whitelist update: create the entry or replace it.
pub const WHITELIST_FLAGS: u64 = 0;

/// The number of peers that the whitelist holds before it evicts the one
/// least recently used.
pub const WHITELIST_CAPACITY: u32 = 1024;

/// Issues challenges and judges solutions, for one difficulty. It keeps the
/// pending challenges and leaves the whitelist to its caller.
pub struct Engine {
    difficulty: u32,
    challenges: DashMap<u64, [u8; 8]>,
}

/// The number that a peer's challenge is filed under: the address in the
/// upper bits, the port in the lower sixteen.
pub open spec fn spec_pending_key(uk: SocketV4) -> u64 {
    (uk.address * 0x1_0000 + uk.port) as u64
}

#[verifier::when_used_as_spec(spec_pending_key)]
pub fn pending_key(uk: SocketV4) -> (key: u64)
    ensures
        key == spec_pending_key(uk),
{
    let address: u64 = uk.address as u64;
    let port: u64 = uk.port as u64;
    address * 0x1_0000 + port
}

impl Engine {
    /// An engine that asks for `difficulty` leading zero bits and has no
    /// challenge pending.
    pub fn new(difficulty: u32) -> (engine: Self)
        ensures
            engine.difficulty() == difficulty,
            engine.pending() == Map::<SocketV4, Seq<u8>>::empty(),
            engine.dependable(),
    {
        let engine = Engine { difficulty, challenges: dashmap_new() };
        assert(engine.pending() =~= Map::<SocketV4, Seq<u8>>::empty());
        engine
    }

    /// Records `challenge` as the one pending for `uk`, in place of any
    /// earlier one.
    pub fn issue(&mut self, uk: &SocketV4, challenge: [u8; 8])
        ensures
            final(self).difficulty() == old(self).difficulty(),
            final(self).dependable(),
            final(self).pending() == old(self).pending().insert(*uk, challenge@),
    {
        dashmap_insert(&mut self.challenges, pending_key(*uk), challenge);
        assert(self.pending() =~= old(self).pending().insert(*uk, challenge@));
    }
}

impl Interface for Engine {
    closed spec fn difficulty(&self) -> u32 {
        self.difficulty
    }

    /// This engine works on its own memory only: it is dependable.
    open spec fn dependable(&self) -> bool {
        true
    }

    closed spec fn pending(&self) -> Map<SocketV4, Seq<u8>> {
        Map::new(
            |uk: SocketV4| dashmap_entries(self.challenges).contains_key(spec_pending_key(uk)),
            |uk: SocketV4| dashmap_entries(self.challenges)[spec_pending_key(uk)],
        )
    }

    /// Issues a fresh random challenge to `uk`. It never fails.
    fn create_challenge(&mut self, uk: &SocketV4) -> (issued: Result<[u8; 8], Error>)
        ensures
            issued is Ok,
    {
        let challenge = random_challenge();
        self.issue(uk, challenge);
        Ok(challenge)
    }

    /// Judges a solution. It fails only when no challenge is pending for
    /// `uk`.
    fn check_solution(&self, uk: &SocketV4, hash: [u8; 32], nonce: u64) -> (checked: Result<
        bool,
        Error,
    >)
        ensures
            checked is Ok <==> self.pending().contains_key(*uk),
    {
        let challenge = match dashmap_get(&self.challenges, pending_key(*uk)) {
            Some(challenge) => challenge,
            None => {
                return Err(Error::ChallengeNotFound);
            },
        };
        let data = bind_challenge(challenge.as_slice(), uk);
        let hk = Hashcash::new(data);
        Ok(hk.verify(hash.as_slice(), nonce, self.difficulty))
    }
}

} // verus!
