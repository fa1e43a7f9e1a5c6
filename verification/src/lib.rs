//! Proof-of-work gate for a TCP service.
//!
//! A peer earns the right to open a TCP connection by solving a Hashcash
//! challenge over UDP. The challenge is bound to the peer's IPv4 socket, and a
//! packet filter lets a TCP SYN through only for sockets that have been
//! whitelisted.

pub mod common;
pub mod endian;
pub mod hashcash;
pub mod challenge;
pub mod engine;
pub mod resolver;
pub mod filter;
pub mod handshake;
