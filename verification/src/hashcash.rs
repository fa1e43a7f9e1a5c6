//! Hashcash over SHA-256: a nonce is a proof of work for a prefix when the
//! digest of the prefix followed by the nonce starts with enough zero bits.

use crate::endian::{be64, lemma_from_be64_of_be64, u64_to_be};
use sha2::{Digest, Sha256};
use vstd::prelude::*;
use vstd::std_specs::bits::{axiom_u8_leading_zeros, u8_leading_zeros};

verus! {

/// The SHA-256 digest of a byte string.
pub uninterp spec fn sha256(data: Seq<u8>) -> Seq<u8>;

/// Calls `sha2::Sha256::digest` (the `digest` method of `sha2::Digest`) on
/// `data`. Trusted: the 32 bytes returned are the SHA-256 digest of `data`,
/// which depends on `data` alone.
#[verifier::external_body]
fn sha256_digest(data: &[u8]) -> (hash: [u8; 32])
    ensures
        hash@ == sha256(data@),
{
    Sha256::digest(data).into()
}

/// The number of zero bits before the first one bit of `hash`, read from its
/// first byte on, each byte from its most significant bit on. A hash of zero
/// bytes only has eight times its length.
pub open spec fn leading_zero_bits(hash: Seq<u8>) -> nat
    decreases hash.len(),
{
    if hash.len() == 0 {
        0
    } else if hash[0] == 0 {
        8 + leading_zero_bits(hash.drop_first())
    } else {
        u8_leading_zeros(hash[0]) as nat
    }
}

/// What is hashed for a nonce: the prefix, then the nonce as eight
/// big-endian bytes.
pub open spec fn pow_input(prefix: Seq<u8>, nonce: u64) -> Seq<u8> {
    prefix + be64(nonce)
}

/// `nonce` is a proof of work of the given difficulty for `prefix`.
pub open spec fn solves(prefix: Seq<u8>, nonce: u64, difficulty: u32) -> bool {
    leading_zero_bits(sha256(pow_input(prefix, nonce))) >= difficulty
}

/// `hash` is the digest that `nonce` gives for `prefix`, and `nonce` is a
/// proof of work of the given difficulty.
pub open spec fn verifies(prefix: Seq<u8>, hash: Seq<u8>, nonce: u64, difficulty: u32) -> bool {
    sha256(pow_input(prefix, nonce)) == hash && solves(prefix, nonce, difficulty)
}

/// Two different nonces give two different inputs, whatever the prefix.
pub proof fn lemma_pow_input_tells_nonces_apart(prefix: Seq<u8>, nonce: u64, other: u64)
    requires
        nonce != other,
    ensures
        pow_input(prefix, nonce) != pow_input(prefix, other),
{
    lemma_from_be64_of_be64(nonce);
    lemma_from_be64_of_be64(other);
    let at = prefix.len() as int;
    assert(pow_input(prefix, nonce).subrange(at, at + 8) =~= be64(nonce));
    assert(pow_input(prefix, other).subrange(at, at + 8) =~= be64(other));
}

/// Two different prefixes of one length give two different inputs, whatever
/// the nonces.
pub proof fn lemma_pow_input_tells_prefixes_apart(
    prefix: Seq<u8>,
    other: Seq<u8>,
    nonce: u64,
    other_nonce: u64,
)
    requires
        prefix.len() == other.len(),
        prefix != other,
    ensures
        pow_input(prefix, nonce) != pow_input(other, other_nonce),
{
    let len = prefix.len() as int;
    assert(pow_input(prefix, nonce).subrange(0, len) =~= prefix);
    assert(pow_input(other, other_nonce).subrange(0, len) =~= other);
}

/// With a nonce that verifies, no other hash verifies: altering the hash in
/// any way makes the verification fail.
pub proof fn lemma_altered_hash_is_rejected(
    prefix: Seq<u8>,
    hash: Seq<u8>,
    altered: Seq<u8>,
    nonce: u64,
    difficulty: u32,
)
    requires
        verifies(prefix, hash, nonce, difficulty),
        altered != hash,
    ensures
        !verifies(prefix, altered, nonce, difficulty),
{
}

/// The input hashed for another nonce is another byte string, so a hash
/// that verifies with one nonce verifies with another only where SHA-256
/// gives both inputs the same digest.
pub proof fn lemma_altered_nonce_needs_collision(
    prefix: Seq<u8>,
    hash: Seq<u8>,
    nonce: u64,
    altered: u64,
    difficulty: u32,
)
    requires
        verifies(prefix, hash, nonce, difficulty),
        altered != nonce,
    ensures
        pow_input(prefix, nonce) != pow_input(prefix, altered),
        verifies(prefix, hash, altered, difficulty) ==> sha256(pow_input(prefix, nonce))
            == sha256(pow_input(prefix, altered)),
{
    lemma_pow_input_tells_nonces_apart(prefix, nonce, altered);
}

/// A proof-of-work instance for one fixed prefix.
pub struct Hashcash {
    data: Vec<u8>,
}

impl View for Hashcash {
    type V = Seq<u8>;

    /// The prefix.
    closed spec fn view(&self) -> Seq<u8> {
        self.data@
    }
}

/// Whether two byte strings are the same.
fn same_bytes(a: &[u8], b: &[u8]) -> (same: bool)
    ensures
        same == (a@ == b@),
{
    if a.len() != b.len() {
        return false;
    }
    let mut i: usize = 0;
    while i < a.len()
        invariant
            i <= a.len(),
            a.len() == b.len(),
            forall|j: int| 0 <= j < i ==> a@[j] == b@[j],
        decreases a.len() - i,
    {
        if a[i] != b[i] {
            return false;
        }
        i += 1;
    }
    assert(a@ =~= b@);
    true
}

impl Hashcash {
    pub fn new(data: Vec<u8>) -> (hashcash: Self)
        ensures
            hashcash@ == data@,
    {
        Hashcash { data }
    }

    /// The digest of the prefix followed by `nonce`.
    fn digest(&self, nonce: u64) -> (hash: [u8; 32])
        ensures
            hash@ == sha256(pow_input(self@, nonce)),
    {
        let mut input: Vec<u8> = Vec::new();
        input.extend_from_slice(self.data.as_slice());
        let suffix = u64_to_be(nonce);
        input.extend_from_slice(suffix.as_slice());
        assert(input@ =~= pow_input(self@, nonce));
        sha256_digest(input.as_slice())
    }

    /// Searches the nonces from 0 upward, `u64::MAX` excluded, for the first
    /// proof of work of the given difficulty, and returns it with its digest.
    pub fn compute(&self, difficulty: u32) -> (found: Option<([u8; 32], u64)>)
        ensures
            match found {
                Some((hash, nonce)) => {
                    &&& nonce < u64::MAX
                    &&& verifies(self@, hash@, nonce, difficulty)
                    &&& forall|lower: u64| lower < nonce ==> !solves(self@, lower, difficulty)
                },
                None => forall|nonce: u64| nonce < u64::MAX ==> !solves(self@, nonce, difficulty),
            },
    {
        let mut nonce: u64 = 0;
        while nonce < u64::MAX
            invariant
                forall|lower: u64| lower < nonce ==> !solves(self@, lower, difficulty),
            decreases u64::MAX - nonce,
        {
            let hash = self.digest(nonce);
            if Self::check_difficulty(hash.as_slice(), difficulty) {
                return Some((hash, nonce));
            }
            nonce += 1;
        }
        None
    }

    /// Whether `hash` starts with at least `difficulty` zero bits.
    pub fn check_difficulty(hash: &[u8], difficulty: u32) -> (enough: bool)
        ensures
            enough == (leading_zero_bits(hash@) >= difficulty),
    {
        let mut zeroes: u64 = 0;
        let mut i: usize = 0;
        let mut done = false;
        assert(hash@.skip(0) =~= hash@);
        while i < hash.len() && !done
            invariant
                i <= hash.len(),
                zeroes == 0 || zeroes < difficulty || done,
                zeroes <= 0xffff_ffff + 8,
                !done ==> leading_zero_bits(hash@) == zeroes + leading_zero_bits(
                    hash@.skip(i as int),
                ),
                done ==> (leading_zero_bits(hash@) >= difficulty) == (zeroes >= difficulty),
            decreases hash.len() - i + (if done { 0int } else { 1int }),
        {
            let z: u32 = hash[i].leading_zeros();
            proof {
                axiom_u8_leading_zeros(hash[i as int]);
                assert(hash@.skip(i as int)[0] == hash[i as int]);
                assert(hash@.skip(i as int).drop_first() =~= hash@.skip(i + 1));
            }
            zeroes += z as u64;
            i += 1;
            if z != 8 || zeroes >= difficulty as u64 {
                done = true;
            }
        }
        zeroes >= difficulty as u64
    }

    /// Whether `input_hash` and `nonce` are a proof of work of the given
    /// difficulty for this prefix.
    pub fn verify(&self, input_hash: &[u8], nonce: u64, difficulty: u32) -> (valid: bool)
        ensures
            valid == verifies(self@, input_hash@, nonce, difficulty),
    {
        let calculated_hash = self.digest(nonce);
        same_bytes(calculated_hash.as_slice(), input_hash) && Self::check_difficulty(
            calculated_hash.as_slice(),
            difficulty,
        )
    }
}

} // verus!
