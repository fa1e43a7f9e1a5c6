//! The peer identity shared by the challenge protocol and the packet filter.

use crate::endian::{
    be16, be32, lemma_from_be16_of_be16, lemma_from_be32_of_be32, u16_to_be, u32_to_be,
};
use crate::hashcash::{lemma_pow_input_tells_prefixes_apart, pow_input, sha256, verifies};
use vstd::prelude::*;

verus! {

/// An IPv4 socket: address and port, both in host byte order.
///
/// Two sockets are equal when both components are equal.
#[derive(Clone, Copy, Debug, PartialEq, Eq, Hash, Structural)]
pub struct SocketV4 {
    pub address: u32,
    pub port: u16,
}

impl SocketV4 {
    /// The four address octets followed by the two port octets, most
    /// significant first.
    pub open spec fn wire(self) -> Seq<u8> {
        be32(self.address) + be16(self.port)
    }

    pub fn new(address: u32, port: u16) -> (socket: Self)
        ensures
            socket.address == address,
            socket.port == port,
    {
        SocketV4 { address, port }
    }
}

/// What a proof of work is computed over for a challenge issued to `uk`: the
/// challenge, then the address and the port of `uk` in network byte order.
pub open spec fn pow_prefix(challenge: Seq<u8>, uk: SocketV4) -> Seq<u8> {
    challenge + uk.wire()
}

/// Builds the proof-of-work prefix of a challenge issued to `uk`.
pub fn bind_challenge(challenge: &[u8], uk: &SocketV4) -> (prefix: Vec<u8>)
    ensures
        prefix@ == pow_prefix(challenge@, *uk),
{
    let address_bytes = u32_to_be(uk.address);
    let port_bytes = u16_to_be(uk.port);
    let mut prefix: Vec<u8> = Vec::new();
    prefix.extend_from_slice(challenge);
    prefix.extend_from_slice(address_bytes.as_slice());
    prefix.extend_from_slice(port_bytes.as_slice());
    assert(prefix@ =~= pow_prefix(challenge@, *uk));
    prefix
}

/// Two different sockets have different encodings.
pub proof fn lemma_wire_tells_sockets_apart(uk: SocketV4, other: SocketV4)
    requires
        uk != other,
    ensures
        uk.wire().len() == 6,
        other.wire().len() == 6,
        uk.wire() != other.wire(),
{
    lemma_from_be32_of_be32(uk.address);
    lemma_from_be32_of_be32(other.address);
    lemma_from_be16_of_be16(uk.port);
    lemma_from_be16_of_be16(other.port);
    assert(uk.wire().subrange(0, 4) =~= be32(uk.address));
    assert(other.wire().subrange(0, 4) =~= be32(other.address));
    assert(uk.wire().subrange(4, 6) =~= be16(uk.port));
    assert(other.wire().subrange(4, 6) =~= be16(other.port));
}

/// One challenge issued to two different sockets gives two different
/// prefixes of one length.
pub proof fn lemma_pow_prefix_binds_socket(challenge: Seq<u8>, uk: SocketV4, other: SocketV4)
    requires
        uk != other,
    ensures
        pow_prefix(challenge, uk).len() == pow_prefix(challenge, other).len(),
        pow_prefix(challenge, uk) != pow_prefix(challenge, other),
{
    lemma_wire_tells_sockets_apart(uk, other);
    let len = challenge.len() as int;
    assert(pow_prefix(challenge, uk).subrange(len, len + 6) =~= uk.wire());
    assert(pow_prefix(challenge, other).subrange(len, len + 6) =~= other.wire());
}

/// A solution is bound to the socket that its challenge was issued to: the
/// input hashed for another socket is another byte string, so a hash and a
/// nonce that verify for one socket verify for another only where SHA-256
/// gives both inputs the same digest.
pub proof fn lemma_solution_binds_socket(
    challenge: Seq<u8>,
    uk: SocketV4,
    other: SocketV4,
    hash: Seq<u8>,
    nonce: u64,
    difficulty: u32,
)
    requires
        uk != other,
        verifies(pow_prefix(challenge, uk), hash, nonce, difficulty),
    ensures
        pow_input(pow_prefix(challenge, uk), nonce) != pow_input(
            pow_prefix(challenge, other),
            nonce,
        ),
        verifies(pow_prefix(challenge, other), hash, nonce, difficulty) ==> sha256(
            pow_input(pow_prefix(challenge, uk), nonce),
        ) == sha256(pow_input(pow_prefix(challenge, other), nonce)),
{
    lemma_pow_prefix_binds_socket(challenge, uk, other);
    lemma_pow_input_tells_prefixes_apart(
        pow_prefix(challenge, uk),
        pow_prefix(challenge, other),
        nonce,
        nonce,
    );
}

} // verus!
