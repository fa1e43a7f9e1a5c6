//! The frames that a client sends and reads, for a client that solves
//! challenges with a resolver of type `T`.

use crate::challenge::error::ParseResponseErr;
use crate::challenge::{
    bytes_view, parse_response, Request, RequestView, Resolver, Response, ResponseView,
};
use crate::common::SocketV4;
use bytes::Bytes;
use std::marker::PhantomData;
use vstd::prelude::*;

verus! {

pub struct Client<T: Resolver> {
    resolver: PhantomData<T>,
}

impl<T: Resolver> Client<T> {
    pub fn new() -> Self {
        Self { resolver: PhantomData }
    }

    /// The frame that asks for a challenge.
    pub fn challenge_request() -> (frame: Bytes)
        ensures
            bytes_view(frame) == RequestView::Challenge.wire(),
    {
        Request::Challenge.to_bytes()
    }

    /// Reads the server's response.
    pub fn decode_response(b: Bytes) -> (parsed: Result<
        Response<Vec<u8>, SocketV4>,
        ParseResponseErr,
    >)
        ensures
            match parsed {
                Ok(response) => parse_response(bytes_view(b)) == Ok::<
                    ResponseView,
                    ParseResponseErr,
                >(response@),
                Err(e) => parse_response(bytes_view(b)) == Err::<ResponseView, ParseResponseErr>(e),
            },
    {
        Response::try_from(b)
    }

    /// The frame that hands in a solution.
    pub fn solution_request(hash: &[u8; 32], nonce: u64) -> (frame: Bytes)
        ensures
            bytes_view(frame) == (RequestView::Solution { hash: hash@, nonce }).wire(),
    {
        (Request::Solution { hash: *hash, nonce }).to_bytes()
    }
}

} // verus!
