//! The server's answer to one datagram.

use crate::challenge::error::Error;
use crate::challenge::{
    bytes_to_vec, bytes_view, parse_request, Engine, Request, RequestView, Response, ResponseView,
};
use crate::common::{pow_prefix, SocketV4};
use crate::engine::error::Error as EngineError;
use crate::engine::WHITELIST_VALUE;
use crate::hashcash::verifies;
use bytes::Bytes;
use vstd::prelude::*;

verus! {

/// What the server does with a datagram: the response to send, or why
/// nothing is sent.
pub type Answer = Result<Response<[u8; 8], SocketV4>, Error<EngineError>>;

/// The response to a challenge request, from what the engine issued: the
/// challenge with the peer's socket, or the engine's failure.
pub fn answer_challenge(issued: Result<[u8; 8], EngineError>, uniq_key: SocketV4) -> (answer:
    Answer)
    ensures
        match issued {
            Ok(challenge) => answer matches Ok(response) && response@
                == (ResponseView::SendChallenge { challenge: challenge@, uniq_key }),
            Err(e) => answer == Err::<Response<[u8; 8], SocketV4>, Error<EngineError>>(
                Error::Engine(e),
            ),
        },
{
    match issued {
        Ok(challenge) => Ok(Response::SendChallenge { challenge, uniq_key }),
        Err(e) => Err(Error::Engine(e)),
    }
}

/// What the server answers once the engine has checked a solution: the
/// engine's finding as a confirmation; a refusal when the peer had no
/// challenge pending; and nothing for any other failure of the engine.
pub fn answer_solution(checked: Result<bool, EngineError>) -> (answer: Answer)
    ensures
        match checked {
            Ok(valid) => answer matches Ok(response) && response@ == ResponseView::Confirmation(
                valid,
            ),
            Err(EngineError::ChallengeNotFound) => answer matches Ok(response) && response@
                == ResponseView::Confirmation(false),
            Err(e) => answer == Err::<Response<[u8; 8], SocketV4>, Error<EngineError>>(
                Error::Engine(e),
            ),
        },
{
    match checked {
        Ok(valid) => Ok(Response::Confirmation(valid)),
        Err(EngineError::ChallengeNotFound) => Ok(Response::Confirmation(false)),
        Err(e) => Err(Error::Engine(e)),
    }
}

/// The whitelist entry that an answer calls for: the peer's socket with the
/// value to store, exactly when the answer confirms the peer's solution. The
/// entry is to be written before the answer is sent, and the answer is to be
/// withheld when the entry cannot be written.
pub fn admission(answer: &Answer, peer: SocketV4) -> (entry: Option<(SocketV4, u32)>)
    ensures
        entry == if answer matches Ok(response) && response@ == ResponseView::Confirmation(true) {
            Some((peer, WHITELIST_VALUE))
        } else {
            None
        },
{
    match answer {
        Ok(Response::Confirmation(true)) => Some((peer, WHITELIST_VALUE)),
        _ => None,
    }
}

/// Whether `answer` and the pending challenges `after` are what a datagram
/// `data` from `peer` leads to, for an engine of the given difficulty with
/// the challenges `before` pending.
///
/// - A datagram that is no request gets no response, and nothing changes.
/// - A challenge request gets a challenge bound to `peer`, which is then the
///   one pending for `peer`.
/// - A solution gets a confirmation: `true` exactly when `peer` has a
///   challenge pending and the solution is a proof of work for it.
/// - Where the engine fails, nothing is sent and nothing changes; a
///   dependable engine does not fail.
pub open spec fn processed(
    data: Seq<u8>,
    peer: SocketV4,
    difficulty: u32,
    dependable: bool,
    before: Map<SocketV4, Seq<u8>>,
    after: Map<SocketV4, Seq<u8>>,
    answer: Answer,
) -> bool {
    match parse_request(data) {
        Err(e) => {
            &&& answer == Err::<Response<[u8; 8], SocketV4>, Error<EngineError>>(
                Error::ParseRequest(e),
            )
            &&& after == before
        },
        Ok(RequestView::Challenge) => match answer {
            Ok(response) => match response@ {
                ResponseView::SendChallenge { challenge, uniq_key } => {
                    &&& uniq_key == peer
                    &&& after == before.insert(peer, challenge)
                },
                ResponseView::Confirmation(_) => false,
            },
            Err(e) => {
                &&& e is Engine
                &&& !dependable
                &&& after == before
            },
        },
        Ok(RequestView::Solution { hash, nonce }) => {
            &&& after == before
            &&& match answer {
                Ok(response) => response@ == ResponseView::Confirmation(
                    before.contains_key(peer) && verifies(
                        pow_prefix(before[peer], peer),
                        hash,
                        nonce,
                        difficulty,
                    ),
                ),
                Err(e) => {
                    &&& e matches Error::Engine(failure) && failure
                        != EngineError::ChallengeNotFound
                    &&& !dependable
                    &&& before.contains_key(peer)
                },
            }
        },
    }
}

/// The server confirms no solution without a proof of work: where the answer
/// is a confirmation of success, the datagram is a solution request, the peer
/// had a challenge pending, and the hash and the nonce are a proof of work for
/// that challenge as bound to the peer.
pub proof fn lemma_confirmation_needs_proof_of_work(
    data: Seq<u8>,
    peer: SocketV4,
    difficulty: u32,
    dependable: bool,
    before: Map<SocketV4, Seq<u8>>,
    after: Map<SocketV4, Seq<u8>>,
    answer: Answer,
)
    requires
        processed(data, peer, difficulty, dependable, before, after, answer),
        answer matches Ok(response) && response@ == ResponseView::Confirmation(true),
    ensures
        before.contains_key(peer),
        parse_request(data) matches Ok(RequestView::Solution { hash, nonce }) && verifies(
            pow_prefix(before[peer], peer),
            hash,
            nonce,
            difficulty,
        ),
{
}

/// A datagram that is no request gets no response, whatever the engine.
pub proof fn lemma_malformed_datagram_gets_no_response(
    data: Seq<u8>,
    peer: SocketV4,
    difficulty: u32,
    dependable: bool,
    before: Map<SocketV4, Seq<u8>>,
    after: Map<SocketV4, Seq<u8>>,
    answer: Answer,
)
    requires
        processed(data, peer, difficulty, dependable, before, after, answer),
        parse_request(data) is Err,
    ensures
        answer is Err,
        after == before,
{
}

/// Answers datagrams with the help of an engine.
pub struct Processor<E> {
    engine: E,
}

impl<E: Engine> Processor<E> {
    /// The difficulty of the engine.
    pub closed spec fn difficulty(&self) -> u32 {
        self.engine.difficulty()
    }

    /// The challenges pending at the engine.
    pub closed spec fn pending(&self) -> Map<SocketV4, Seq<u8>> {
        self.engine.pending()
    }

    /// Whether the engine is dependable.
    pub closed spec fn dependable(&self) -> bool {
        self.engine.dependable()
    }

    pub fn new(engine: E) -> (processor: Self)
        ensures
            processor.difficulty() == engine.difficulty(),
            processor.pending() == engine.pending(),
            processor.dependable() == engine.dependable(),
    {
        Processor { engine }
    }

    /// Answers the datagram `datagram` received from `uniq_key`.
    pub fn process_datagram(&mut self, datagram: &[u8], uniq_key: SocketV4) -> (answer: Answer)
        ensures
            final(self).difficulty() == old(self).difficulty(),
            final(self).dependable() == old(self).dependable(),
            processed(
                datagram@,
                uniq_key,
                old(self).difficulty(),
                old(self).dependable(),
                old(self).pending(),
                final(self).pending(),
                answer,
            ),
    {
        let req = match Request::decode(datagram) {
            Ok(req) => req,
            Err(e) => {
                return Err(Error::ParseRequest(e));
            },
        };
        match req {
            Request::Challenge => {
                let issued = self.engine.create_challenge(&uniq_key);
                answer_challenge(issued, uniq_key)
            },
            Request::Solution { hash, nonce } => {
                let checked = self.engine.check_solution(&uniq_key, hash, nonce);
                answer_solution(checked)
            },
        }
    }

    /// Answers the datagram in `packet` received from `uniq_key`.
    pub fn process(&mut self, packet: Bytes, uniq_key: SocketV4) -> (answer: Answer)
        ensures
            final(self).difficulty() == old(self).difficulty(),
            final(self).dependable() == old(self).dependable(),
            processed(
                bytes_view(packet),
                uniq_key,
                old(self).difficulty(),
                old(self).dependable(),
                old(self).pending(),
                final(self).pending(),
                answer,
            ),
    {
        let datagram = bytes_to_vec(&packet);
        self.process_datagram(datagram.as_slice(), uniq_key)
    }
}

} // verus!
