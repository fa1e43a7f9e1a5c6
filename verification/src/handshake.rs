//! The client's handshake, one event at a time.
//!
//! The client sends a challenge request and listens. Each thing that then
//! happens on its socket is an event, and `udp_handshake` says what to do
//! about it: keep listening, send the solution, connect, or give up. The
//! caller owns the socket; it sends what it is told to send and comes back
//! with the next event.

use crate::challenge::error::ParseResponseErr;
use crate::challenge::{
    lemma_parse_request_of_wire, parse_request, parse_response, Request, RequestView, Resolver,
    Response, ResponseView, CONFIRMATION_LEN, SEND_CHALLENGE_LEN,
};
use crate::common::{pow_prefix, SocketV4};
use crate::hashcash::{solves, verifies};
use vstd::prelude::*;

verus! {

/// Where a handshake stands.
#[derive(Clone, Copy, Debug, PartialEq, Eq, Structural)]
pub enum Handshake {
    /// The challenge request is out and the challenge is awaited.
    AwaitChallenge,
    /// The solution is out and the confirmation is awaited. The server saw
    /// the client at `uniq_key`.
    AwaitConfirmation { uniq_key: SocketV4 },
    /// The handshake is over, well or badly.
    Closed,
}

/// What happened on the client's socket.
pub enum Event {
    /// Receiving failed.
    ReceiveFailed,
    /// A datagram came in. `data` is what of it fits the buffer of the length
    /// that the handshake expects.
    Datagram { from_server: bool, data: Vec<u8> },
}

/// Why a handshake is given up.
#[derive(Clone, Copy, Debug, PartialEq, Eq, Structural)]
pub enum Failure {
    /// The server's datagram has not the length of the frame awaited.
    WrongSize { expected: usize, actual: usize },
    /// The server's datagram is no response.
    Parse(ParseResponseErr),
    /// The server's response is not the one awaited.
    UnexpectedResponse,
    /// No nonce solves the challenge.
    NonceNotFound,
    /// The server refused the solution.
    SolvedWrong,
}

/// What the client does next.
#[derive(Clone, Debug, PartialEq, Eq)]
pub enum Action {
    /// Keep listening.
    Wait,
    /// Send this frame to the server, then listen.
    Send(Vec<u8>),
    /// Open the TCP connection from this local socket.
    Connect(SocketV4),
    /// Give up.
    Abort(Failure),
}

impl Handshake {
    /// The length of the frame awaited, which is the length of the buffer to
    /// receive into.
    pub fn expected_len(&self) -> (len: usize)
        ensures
            len == match *self {
                Handshake::AwaitChallenge => SEND_CHALLENGE_LEN,
                Handshake::AwaitConfirmation { .. } => CONFIRMATION_LEN,
                Handshake::Closed => 0,
            },
    {
        match self {
            Handshake::AwaitChallenge => SEND_CHALLENGE_LEN,
            Handshake::AwaitConfirmation { .. } => CONFIRMATION_LEN,
            Handshake::Closed => 0,
        }
    }
}

/// Whether `frame` is the solution to `challenge` as issued to `uniq_key`:
/// the solution request with the smallest nonce below `u64::MAX` that is a
/// proof of work of the given difficulty, and with that nonce's hash.
pub open spec fn is_solution_frame(
    frame: Seq<u8>,
    challenge: Seq<u8>,
    uniq_key: SocketV4,
    difficulty: u32,
) -> bool {
    match parse_request(frame) {
        Ok(RequestView::Solution { hash, nonce }) => {
            &&& frame == (RequestView::Solution { hash, nonce }).wire()
            &&& nonce < u64::MAX
            &&& verifies(pow_prefix(challenge, uniq_key), hash, nonce, difficulty)
            &&& forall|lower: u64|
                lower < nonce ==> !solves(pow_prefix(challenge, uniq_key), lower, difficulty)
        },
        _ => false,
    }
}

/// Whether no nonce below `u64::MAX` solves `challenge` as issued to
/// `uniq_key`.
pub open spec fn unsolvable(challenge: Seq<u8>, uniq_key: SocketV4, difficulty: u32) -> bool {
    forall|nonce: u64|
        nonce < u64::MAX ==> !solves(pow_prefix(challenge, uniq_key), nonce, difficulty)
}

/// Whether a client that awaits a challenge goes on to `next` with `action`
/// on the datagram `data` from the server.
pub open spec fn challenge_step(data: Seq<u8>, difficulty: u32, next: Handshake, action: Action)
    -> bool {
    if data.len() != 15 {
        next == Handshake::Closed && action == Action::Abort(
            Failure::WrongSize { expected: 15, actual: data.len() as usize },
        )
    } else {
        match parse_response(data) {
            Err(e) => next == Handshake::Closed && action == Action::Abort(Failure::Parse(e)),
            Ok(ResponseView::Confirmation(_)) => next == Handshake::Closed && action
                == Action::Abort(Failure::UnexpectedResponse),
            Ok(ResponseView::SendChallenge { challenge, uniq_key }) => match action {
                Action::Send(frame) => {
                    &&& next == Handshake::AwaitConfirmation { uniq_key }
                    &&& is_solution_frame(frame@, challenge, uniq_key, difficulty)
                },
                Action::Abort(failure) => {
                    &&& next == Handshake::Closed
                    &&& failure == Failure::NonceNotFound
                    &&& unsolvable(challenge, uniq_key, difficulty)
                },
                _ => false,
            },
        }
    }
}

/// What a client that awaits the confirmation for `uniq_key` does on the
/// datagram `data` from the server. The handshake is closed in each case.
pub open spec fn confirmation_step(data: Seq<u8>, uniq_key: SocketV4) -> Action {
    if data.len() != 2 {
        Action::Abort(Failure::WrongSize { expected: 2, actual: data.len() as usize })
    } else {
        match parse_response(data) {
            Err(e) => Action::Abort(Failure::Parse(e)),
            Ok(ResponseView::SendChallenge { .. }) => Action::Abort(Failure::UnexpectedResponse),
            Ok(ResponseView::Confirmation(false)) => Action::Abort(Failure::SolvedWrong),
            Ok(ResponseView::Confirmation(true)) => Action::Connect(uniq_key),
        }
    }
}

/// Whether a handshake in `state`, solving at `difficulty`, goes on to `next`
/// with `action` when `event` happens.
///
/// - A failed receive and a datagram from anyone but the server change
///   nothing: the client keeps listening. So does any event once the
///   handshake is closed.
/// - A datagram from the server of another length than the frame awaited, one
///   that is no response, and a response of the other type each close the
///   handshake with that failure.
/// - A challenge is solved: the client sends the solution with the smallest
///   nonce below `u64::MAX` that is a proof of work for the challenge bound
///   to the socket named in the response, and awaits the confirmation. With
///   no such nonce the handshake closes.
/// - A confirmation closes the handshake: the client connects from the socket
///   that the challenge named, or gives up where the server refused.
pub open spec fn stepped(
    state: Handshake,
    difficulty: u32,
    event: Event,
    next: Handshake,
    action: Action,
) -> bool {
    match event {
        Event::ReceiveFailed => next == state && action == Action::Wait,
        Event::Datagram { from_server, data } => if !from_server {
            next == state && action == Action::Wait
        } else {
            match state {
                Handshake::Closed => next == state && action == Action::Wait,
                Handshake::AwaitChallenge => challenge_step(data@, difficulty, next, action),
                Handshake::AwaitConfirmation { uniq_key } => next == Handshake::Closed && action
                    == confirmation_step(data@, uniq_key),
            }
        },
    }
}

/// The frame that opens a handshake, and the state that the handshake is in
/// once the frame is sent.
pub fn start_handshake() -> (opening: (Handshake, Vec<u8>))
    ensures
        opening.0 == Handshake::AwaitChallenge,
        opening.1@ == RequestView::Challenge.wire(),
{
    (Handshake::AwaitChallenge, Request::Challenge.encode())
}

/// What a client that awaits a challenge does about the datagram `data` from
/// the server, and where the handshake then stands.
pub fn on_challenge<R: Resolver>(resolver: &R, data: &[u8]) -> (step: (Handshake, Action))
    ensures
        challenge_step(data@, resolver.difficulty(), step.0, step.1),
{
    if data.len() != SEND_CHALLENGE_LEN {
        return (
            Handshake::Closed,
            Action::Abort(Failure::WrongSize { expected: SEND_CHALLENGE_LEN, actual: data.len() }),
        );
    }
    let (challenge, uniq_key) = match Response::decode(data) {
        Err(e) => {
            return (Handshake::Closed, Action::Abort(Failure::Parse(e)));
        },
        Ok(Response::Confirmation(_)) => {
            return (Handshake::Closed, Action::Abort(Failure::UnexpectedResponse));
        },
        Ok(Response::SendChallenge { challenge, uniq_key }) => (challenge, uniq_key),
    };
    // calculate solution
    match resolver.compute(challenge, uniq_key) {
        Err(_) => (Handshake::Closed, Action::Abort(Failure::NonceNotFound)),
        Ok((hash, nonce)) => {
            let frame = (Request::Solution { hash, nonce }).encode();
            proof {
                lemma_parse_request_of_wire(RequestView::Solution { hash: hash@, nonce });
            }
            (Handshake::AwaitConfirmation { uniq_key }, Action::Send(frame))
        },
    }
}

/// What a client that awaits the confirmation for `uniq_key` does about the
/// datagram `data` from the server.
pub fn on_confirmation(uniq_key: SocketV4, data: &[u8]) -> (action: Action)
    ensures
        action == confirmation_step(data@, uniq_key),
{
    if data.len() != CONFIRMATION_LEN {
        return Action::Abort(
            Failure::WrongSize { expected: CONFIRMATION_LEN, actual: data.len() },
        );
    }
    match Response::decode(data) {
        Err(e) => Action::Abort(Failure::Parse(e)),
        Ok(Response::SendChallenge { .. }) => Action::Abort(Failure::UnexpectedResponse),
        Ok(Response::Confirmation(false)) => Action::Abort(Failure::SolvedWrong),
        Ok(Response::Confirmation(true)) => Action::Connect(uniq_key),
    }
}

/// What the client does about `event`, and where the handshake then stands.
pub fn udp_handshake<R: Resolver>(resolver: &R, state: Handshake, event: Event) -> (step: (
    Handshake,
    Action,
))
    ensures
        stepped(state, resolver.difficulty(), event, step.0, step.1),
{
    match event {
        Event::ReceiveFailed => (state, Action::Wait),
        Event::Datagram { from_server, data } => {
            if !from_server {
                return (state, Action::Wait);
            }
            match state {
                Handshake::Closed => (state, Action::Wait),
                Handshake::AwaitChallenge => on_challenge(resolver, data.as_slice()),
                Handshake::AwaitConfirmation { uniq_key } => (
                    Handshake::Closed,
                    on_confirmation(uniq_key, data.as_slice()),
                ),
            }
        },
    }
}

} // verus!
