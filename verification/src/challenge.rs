//! The challenge protocol: four frames, each one datagram, with all integers
//! in network byte order.
//!
//! | frame            | bytes | layout                                              |
//! |------------------|-------|-----------------------------------------------------|
//! | challenge request| 1     | type `0x00`                                         |
//! | send challenge   | 15    | type `0x01`, address (4), port (2), challenge (8)   |
//! | solution request | 41    | type `0x02`, hash (32), nonce (8)                   |
//! | confirmation     | 2     | type `0x03`, then `0x00` for failure, else success  |
//!
//! Bytes after a frame's length are ignored.

use crate::challenge::error::{ParseRequestErr, ParseResponseErr};
use crate::common::{pow_prefix, SocketV4};
use crate::endian::{
    be16, be32, be64, from_be16, from_be32, from_be64, lemma_from_be16_of_be16,
    lemma_from_be32_of_be32, lemma_from_be64_of_be64, u16_from_be, u16_to_be, u32_from_be,
    u32_to_be, u64_from_be, u64_to_be,
};
use crate::hashcash::{solves, verifies};
use bytes::Bytes;
use vstd::prelude::*;

pub mod client;
pub mod error;
pub mod helper;
pub mod server;

verus! {

/// `bytes::Bytes`, a buffer of bytes that only its owner's methods read.
#[verifier::external_type_specification]
#[verifier::external_body]
pub struct ExBytes(bytes::Bytes);

/// The bytes that a buffer holds, first to last.
pub uninterp spec fn bytes_view(buffer: Bytes) -> Seq<u8>;

/// Calls `bytes::Bytes::copy_from_slice`. Trusted: the new buffer holds a copy
/// of `data`.
#[verifier::external_body]
fn bytes_copy_from_slice(data: &[u8]) -> (buffer: Bytes)
    ensures
        bytes_view(buffer) == data@,
{
    Bytes::copy_from_slice(data)
}

/// Reads a buffer through `Deref for bytes::Bytes`. Trusted: the vector
/// holds a copy of the buffer's bytes.
#[verifier::external_body]
pub(crate) fn bytes_to_vec(buffer: &Bytes) -> (data: Vec<u8>)
    ensures
        data@ == bytes_view(*buffer),
{
    buffer.to_vec()
}

/// The length of each frame, type byte included.
pub const CHALLENGE_REQUEST_LEN: usize = 1;

pub const SEND_CHALLENGE_LEN: usize = 15;

pub const SOLUTION_REQUEST_LEN: usize = 41;

pub const CONFIRMATION_LEN: usize = 2;

/// The type byte of a request.
#[derive(Clone, Copy, Debug, PartialEq, Eq, Structural)]
pub enum RequestType {
    RequestChallenge,
    Solution,
}

impl RequestType {
    /// The byte that opens a request of this type.
    pub open spec fn spec_code(self) -> u8 {
        match self {
            RequestType::RequestChallenge => 0,
            RequestType::Solution => 2,
        }
    }

    #[verifier::when_used_as_spec(spec_code)]
    pub fn code(self) -> (byte: u8)
        ensures
            byte == self.spec_code(),
    {
        match self {
            RequestType::RequestChallenge => 0,
            RequestType::Solution => 2,
        }
    }

    /// The type of a request.
    pub fn from(value: &Request) -> (request_type: Self)
        ensures
            request_type == match *value {
                Request::Challenge => RequestType::RequestChallenge,
                Request::Solution { .. } => RequestType::Solution,
            },
    {
        match value {
            Request::Challenge => RequestType::RequestChallenge,
            Request::Solution { .. } => RequestType::Solution,
        }
    }

    /// The request type that `value` opens, if any.
    pub fn try_from(value: u8) -> (parsed: Result<Self, ParseRequestErr>)
        ensures
            parsed == match value {
                0u8 => Ok::<Self, ParseRequestErr>(RequestType::RequestChallenge),
                2u8 => Ok(RequestType::Solution),
                _ => Err(ParseRequestErr::UnknownRequestType(value)),
            },
    {
        match value {
            0 => Ok(RequestType::RequestChallenge),
            2 => Ok(RequestType::Solution),
            _ => Err(ParseRequestErr::UnknownRequestType(value)),
        }
    }
}

/// What a client sends.
#[derive(Clone, Copy, Debug, PartialEq, Eq)]
pub enum Request {
    /// Asks for a challenge.
    Challenge,
    /// Hands in a proof of work.
    Solution { hash: [u8; 32], nonce: u64 },
}

/// A request as contracts see it.
pub enum RequestView {
    Challenge,
    Solution { hash: Seq<u8>, nonce: u64 },
}

impl RequestView {
    /// A solution's hash has 32 bytes.
    pub open spec fn wf(self) -> bool {
        match self {
            RequestView::Challenge => true,
            RequestView::Solution { hash, .. } => hash.len() == 32,
        }
    }

    /// The frame of this request.
    pub open spec fn wire(self) -> Seq<u8> {
        match self {
            RequestView::Challenge => seq![0u8],
            RequestView::Solution { hash, nonce } => seq![2u8] + hash + be64(nonce),
        }
    }
}

impl View for Request {
    type V = RequestView;

    open spec fn view(&self) -> RequestView {
        match *self {
            Request::Challenge => RequestView::Challenge,
            Request::Solution { hash, nonce } => RequestView::Solution { hash: hash@, nonce },
        }
    }
}

/// The request that a datagram holds, or why it holds none.
pub open spec fn parse_request(data: Seq<u8>) -> Result<RequestView, ParseRequestErr> {
    if data.len() == 0 {
        Err(ParseRequestErr::EmptyRequest)
    } else if data[0] == 0 {
        Ok(RequestView::Challenge)
    } else if data[0] == 2 {
        if data.len() < 41 {
            Err(ParseRequestErr::BadRequest)
        } else {
            Ok(
                RequestView::Solution {
                    hash: data.subrange(1, 33),
                    nonce: from_be64(data.subrange(33, 41)),
                },
            )
        }
    } else {
        Err(ParseRequestErr::UnknownRequestType(data[0]))
    }
}

/// A request's frame parses as that request.
pub proof fn lemma_parse_request_of_wire(request: RequestView)
    requires
        request.wf(),
    ensures
        parse_request(request.wire()) == Ok::<RequestView, ParseRequestErr>(request),
{
    match request {
        RequestView::Challenge => {},
        RequestView::Solution { hash, nonce } => {
            lemma_from_be64_of_be64(nonce);
            let data = request.wire();
            assert(data.subrange(1, 33) =~= hash);
            assert(data.subrange(33, 41) =~= be64(nonce));
        },
    }
}

impl Request {
    /// The frame of this request.
    pub fn encode(&self) -> (frame: Vec<u8>)
        ensures
            frame@ == self@.wire(),
            self@.wf(),
    {
        let rt_byte = RequestType::from(self).code();
        let mut frame: Vec<u8> = Vec::new();
        frame.push(rt_byte);
        match self {
            Request::Challenge => {
                assert(frame@ =~= self@.wire());
            },
            Request::Solution { hash, nonce } => {
                frame.extend_from_slice(hash.as_slice());
                let nonce_bytes = u64_to_be(*nonce);
                frame.extend_from_slice(nonce_bytes.as_slice());
                assert(frame@ =~= self@.wire());
            },
        }
        frame
    }

    /// The frame of this request, as a buffer.
    pub fn to_bytes(&self) -> (buffer: Bytes)
        ensures
            bytes_view(buffer) == self@.wire(),
    {
        let frame = self.encode();
        bytes_copy_from_slice(frame.as_slice())
    }

    /// Reads a request from a datagram.
    pub fn decode(data: &[u8]) -> (parsed: Result<Request, ParseRequestErr>)
        ensures
            match parsed {
                Ok(request) => parse_request(data@) == Ok::<RequestView, ParseRequestErr>(
                    request@,
                ),
                Err(e) => parse_request(data@) == Err::<RequestView, ParseRequestErr>(e),
            },
    {
        if data.len() == 0 {
            return Err(ParseRequestErr::EmptyRequest);
        }
        match RequestType::try_from(data[0]) {
            Err(e) => Err(e),
            Ok(RequestType::RequestChallenge) => Ok(Request::Challenge),
            Ok(RequestType::Solution) => {
                if data.len() < SOLUTION_REQUEST_LEN {
                    Err(ParseRequestErr::BadRequest)
                } else {
                    let mut hash = [0u8; 32];
                    let mut i: usize = 0;
                    while i < 32
                        invariant
                            i <= 32,
                            data.len() >= 41,
                            forall|j: int| 0 <= j < i ==> hash@[j] == data@[1 + j],
                        decreases 32 - i,
                    {
                        hash[i] = data[1 + i];
                        i += 1;
                    }
                    assert(hash@ =~= data@.subrange(1, 33));
                    let nonce = u64_from_be(data, 33);
                    Ok(Request::Solution { hash, nonce })
                }
            },
        }
    }

    /// Reads a request from a datagram held in a buffer.
    pub fn try_from(value: Bytes) -> (parsed: Result<Request, ParseRequestErr>)
        ensures
            match parsed {
                Ok(request) => parse_request(bytes_view(value)) == Ok::<
                    RequestView,
                    ParseRequestErr,
                >(request@),
                Err(e) => parse_request(bytes_view(value)) == Err::<RequestView, ParseRequestErr>(
                    e,
                ),
            },
    {
        let data = bytes_to_vec(&value);
        Self::decode(data.as_slice())
    }
}

/// The type byte of a response.
#[derive(Clone, Copy, Debug, PartialEq, Eq, Structural)]
pub enum ResponseType {
    SendChallenge,
    Confirmation,
}

impl ResponseType {
    /// The byte that opens a response of this type.
    pub open spec fn spec_code(self) -> u8 {
        match self {
            ResponseType::SendChallenge => 1,
            ResponseType::Confirmation => 3,
        }
    }

    #[verifier::when_used_as_spec(spec_code)]
    pub fn code(self) -> (byte: u8)
        ensures
            byte == self.spec_code(),
    {
        match self {
            ResponseType::SendChallenge => 1,
            ResponseType::Confirmation => 3,
        }
    }

    /// The response type that `value` opens, if any.
    pub fn try_from(value: u8) -> (parsed: Result<Self, ParseResponseErr>)
        ensures
            parsed == match value {
                1u8 => Ok::<Self, ParseResponseErr>(ResponseType::SendChallenge),
                3u8 => Ok(ResponseType::Confirmation),
                _ => Err(ParseResponseErr::UnknownResponseType(value)),
            },
    {
        match value {
            1 => Ok(ResponseType::SendChallenge),
            3 => Ok(ResponseType::Confirmation),
            _ => Err(ParseResponseErr::UnknownResponseType(value)),
        }
    }

    /// The type of a response.
    pub fn from<T, UK>(value: &Response<T, UK>) -> (response_type: Self)
        ensures
            response_type == match *value {
                Response::SendChallenge { .. } => ResponseType::SendChallenge,
                Response::Confirmation(_) => ResponseType::Confirmation,
            },
    {
        match value {
            Response::SendChallenge { .. } => ResponseType::SendChallenge,
            Response::Confirmation(_) => ResponseType::Confirmation,
        }
    }
}

/// What the server answers. `T` holds the challenge's bytes and `UK` names
/// the peer that the challenge is bound to.
#[derive(Clone, Debug, PartialEq, Eq)]
pub enum Response<T, UK> {
    /// A challenge, with the socket that the server saw the request come from.
    SendChallenge { challenge: T, uniq_key: UK },
    /// Whether the solution was accepted.
    Confirmation(bool),
}

/// A response as contracts see it.
pub enum ResponseView {
    SendChallenge { challenge: Seq<u8>, uniq_key: SocketV4 },
    Confirmation(bool),
}

impl ResponseView {
    /// A challenge has 8 bytes.
    pub open spec fn wf(self) -> bool {
        match self {
            ResponseView::SendChallenge { challenge, .. } => challenge.len() == 8,
            ResponseView::Confirmation(_) => true,
        }
    }

    /// The frame of this response.
    pub open spec fn wire(self) -> Seq<u8> {
        match self {
            ResponseView::SendChallenge { challenge, uniq_key } => seq![1u8] + be32(
                uniq_key.address,
            ) + be16(uniq_key.port) + challenge,
            ResponseView::Confirmation(successful) => seq![
                3u8,
                if successful {
                    1u8
                } else {
                    0u8
                },
            ],
        }
    }
}

impl<T: View<V = Seq<u8>>> View for Response<T, SocketV4> {
    type V = ResponseView;

    open spec fn view(&self) -> ResponseView {
        match *self {
            Response::SendChallenge { challenge, uniq_key } => ResponseView::SendChallenge {
                challenge: challenge@,
                uniq_key,
            },
            Response::Confirmation(successful) => ResponseView::Confirmation(successful),
        }
    }
}

/// The response that a datagram holds, or why it holds none.
pub open spec fn parse_response(data: Seq<u8>) -> Result<ResponseView, ParseResponseErr> {
    if data.len() == 0 {
        Err(ParseResponseErr::EmptyResponse)
    } else if data[0] == 1 {
        if data.len() < 15 {
            Err(ParseResponseErr::BadResponse)
        } else {
            Ok(
                ResponseView::SendChallenge {
                    challenge: data.subrange(7, 15),
                    uniq_key: SocketV4 {
                        address: from_be32(data.subrange(1, 5)),
                        port: from_be16(data.subrange(5, 7)),
                    },
                },
            )
        }
    } else if data[0] == 3 {
        if data.len() < 2 {
            Err(ParseResponseErr::BadResponse)
        } else {
            Ok(ResponseView::Confirmation(data[1] != 0))
        }
    } else {
        Err(ParseResponseErr::UnknownResponseType(data[0]))
    }
}

/// A response's frame parses as that response.
pub proof fn lemma_parse_response_of_wire(response: ResponseView)
    requires
        response.wf(),
    ensures
        parse_response(response.wire()) == Ok::<ResponseView, ParseResponseErr>(response),
{
    match response {
        ResponseView::SendChallenge { challenge, uniq_key } => {
            lemma_from_be32_of_be32(uniq_key.address);
            lemma_from_be16_of_be16(uniq_key.port);
            let data = response.wire();
            assert(data.subrange(1, 5) =~= be32(uniq_key.address));
            assert(data.subrange(5, 7) =~= be16(uniq_key.port));
            assert(data.subrange(7, 15) =~= challenge);
        },
        ResponseView::Confirmation(_) => {},
    }
}

impl Response<[u8; 8], SocketV4> {
    /// The frame of this response.
    pub fn encode(&self) -> (frame: Vec<u8>)
        ensures
            frame@ == self@.wire(),
            self@.wf(),
    {
        let rt_byte = ResponseType::from(self).code();
        let mut frame: Vec<u8> = Vec::new();
        frame.push(rt_byte);
        match self {
            Response::SendChallenge { challenge, uniq_key } => {
                let address_bytes = u32_to_be(uniq_key.address);
                let port_bytes = u16_to_be(uniq_key.port);
                frame.extend_from_slice(address_bytes.as_slice());
                frame.extend_from_slice(port_bytes.as_slice());
                frame.extend_from_slice(challenge.as_slice());
                assert(frame@ =~= self@.wire());
            },
            Response::Confirmation(successful) => {
                frame.push(
                    if *successful {
                        1
                    } else {
                        0
                    },
                );
                assert(frame@ =~= self@.wire());
            },
        }
        frame
    }

    /// The frame of this response, as a buffer.
    pub fn to_bytes(self) -> (buffer: Bytes)
        ensures
            bytes_view(buffer) == self@.wire(),
    {
        let frame = self.encode();
        bytes_copy_from_slice(frame.as_slice())
    }
}

impl Response<Vec<u8>, SocketV4> {
    /// Reads a response from a datagram.
    pub fn decode(data: &[u8]) -> (parsed: Result<Self, ParseResponseErr>)
        ensures
            match parsed {
                Ok(response) => parse_response(data@) == Ok::<ResponseView, ParseResponseErr>(
                    response@,
                ),
                Err(e) => parse_response(data@) == Err::<ResponseView, ParseResponseErr>(e),
            },
    {
        if data.len() == 0 {
            return Err(ParseResponseErr::EmptyResponse);
        }
        match ResponseType::try_from(data[0]) {
            Err(e) => Err(e),
            Ok(ResponseType::Confirmation) => {
                if data.len() < CONFIRMATION_LEN {
                    Err(ParseResponseErr::BadResponse)
                } else {
                    Ok(Response::Confirmation(data[1] > 0))
                }
            },
            Ok(ResponseType::SendChallenge) => {
                if data.len() < SEND_CHALLENGE_LEN {
                    Err(ParseResponseErr::BadResponse)
                } else {
                    let address = u32_from_be(data, 1);
                    let port = u16_from_be(data, 5);
                    let mut challenge: Vec<u8> = Vec::new();
                    let mut i: usize = 7;
                    while i < 15
                        invariant
                            7 <= i <= 15,
                            data.len() >= 15,
                            challenge@ == data@.subrange(7, i as int),
                        decreases 15 - i,
                    {
                        challenge.push(data[i]);
                        assert(challenge@ =~= data@.subrange(7, i + 1));
                        i += 1;
                    }
                    Ok(Response::SendChallenge { challenge, uniq_key: SocketV4::new(address, port) })
                }
            },
        }
    }

    /// Reads a response from a datagram held in a buffer.
    pub fn try_from(value: Bytes) -> (parsed: Result<Self, ParseResponseErr>)
        ensures
            match parsed {
                Ok(response) => parse_response(bytes_view(value)) == Ok::<
                    ResponseView,
                    ParseResponseErr,
                >(response@),
                Err(e) => parse_response(bytes_view(value)) == Err::<
                    ResponseView,
                    ParseResponseErr,
                >(e),
            },
    {
        let data = bytes_to_vec(&value);
        Self::decode(data.as_slice())
    }
}

/// The server's judge: it issues challenges and checks solutions.
pub trait Engine {
    /// The number of leading zero bits that a solution's hash must have.
    spec fn difficulty(&self) -> u32;

    /// The challenge pending for each peer that has one.
    spec fn pending(&self) -> Map<SocketV4, Seq<u8>>;

    /// Whether this engine always issues a challenge and always gives a
    /// verdict on a solution to a pending challenge. An engine that reaches
    /// outside itself for either may fail, and then says `false` here.
    spec fn dependable(&self) -> bool;

    /// Issues a challenge to `uk`. On success the challenge is the one
    /// pending for `uk`, in place of any earlier one; on failure nothing
    /// changes. A dependable engine succeeds.
    fn create_challenge(&mut self, uk: &SocketV4) -> (issued: Result<
        [u8; 8],
        crate::engine::error::Error,
    >)
        ensures
            final(self).difficulty() == old(self).difficulty(),
            final(self).dependable() == old(self).dependable(),
            old(self).dependable() ==> issued is Ok,
            match issued {
                Ok(challenge) => final(self).pending() == old(self).pending().insert(
                    *uk,
                    challenge@,
                ),
                Err(_) => final(self).pending() == old(self).pending(),
            },
    ;

    /// Checks the solution that `uk` hands in against the challenge pending
    /// for `uk`. Without such a challenge the answer is `ChallengeNotFound`,
    /// and that answer is given in no other case. A verdict is `true`
    /// exactly when the hash and the nonce are a proof of work for the
    /// challenge bound to `uk`. A dependable engine gives a verdict whenever
    /// a challenge is pending.
    fn check_solution(&self, uk: &SocketV4, hash: [u8; 32], nonce: u64) -> (checked: Result<
        bool,
        crate::engine::error::Error,
    >)
        ensures
            self.dependable() && self.pending().contains_key(*uk) ==> checked is Ok,
            match checked {
                Ok(valid) => self.pending().contains_key(*uk) && valid == verifies(
                    pow_prefix(self.pending()[*uk], *uk),
                    hash@,
                    nonce,
                    self.difficulty(),
                ),
                Err(e) => e == crate::engine::error::Error::ChallengeNotFound
                    <==> !self.pending().contains_key(*uk),
            },
    ;
}

/// The client's solver: it finds the proof of work for a challenge.
pub trait Resolver {
    /// The number of leading zero bits that a solution's hash must have.
    spec fn difficulty(&self) -> u32;

    /// Solves `challenge` as issued to `uk`: the result is the smallest nonce
    /// below `u64::MAX` that is a proof of work for the challenge bound to
    /// `uk`, with its hash, and `NonceNotFound` when there is no such nonce.
    fn compute(&self, challenge: Vec<u8>, uk: SocketV4) -> (solved: Result<
        ([u8; 32], u64),
        crate::resolver::error::Error,
    >)
        ensures
            match solved {
                Ok((hash, nonce)) => {
                    &&& nonce < u64::MAX
                    &&& verifies(pow_prefix(challenge@, uk), hash@, nonce, self.difficulty())
                    &&& forall|lower: u64|
                        lower < nonce ==> !solves(
                            pow_prefix(challenge@, uk),
                            lower,
                            self.difficulty(),
                        )
                },
                Err(e) => {
                    &&& e == crate::resolver::error::Error::NonceNotFound
                    &&& forall|nonce: u64|
                        nonce < u64::MAX ==> !solves(
                            pow_prefix(challenge@, uk),
                            nonce,
                            self.difficulty(),
                        )
                },
            },
    ;
}

} // verus!
