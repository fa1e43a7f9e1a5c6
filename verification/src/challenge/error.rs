//! What can go wrong when a datagram is read or answered.

use vstd::prelude::*;

verus! {

/// Why a datagram is not a request.
#[derive(Clone, Copy, Debug, PartialEq, Eq, Structural)]
pub enum ParseRequestErr {
    /// The first byte is not the type of any request.
    UnknownRequestType(u8),
    /// The datagram holds no byte.
    EmptyRequest,
    /// The datagram is shorter than a request of its type.
    BadRequest,
}

/// Why a datagram is not a response.
#[derive(Clone, Copy, Debug, PartialEq, Eq, Structural)]
pub enum ParseResponseErr {
    /// The first byte is not the type of any response.
    UnknownResponseType(u8),
    /// The datagram holds no byte.
    EmptyResponse,
    /// The datagram is shorter than a response of its type.
    BadResponse,
}

/// Why a datagram gets no answer.
#[derive(Clone, Copy, Debug, PartialEq, Eq)]
pub enum Error<EngineErr> {
    /// The engine failed.
    Engine(EngineErr),
    /// The datagram is not a request.
    ParseRequest(ParseRequestErr),
}

} // verus!
