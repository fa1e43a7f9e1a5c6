//! The SYN filter: what happens to a packet that arrives at the protected
//! host, written over the bytes of the packet and the sockets that are
//! whitelisted at that moment.
//!
//! A packet is an Ethernet frame. The filter reads an Ethernet header of 14
//! bytes, an IPv4 header of 20 bytes and a TCP header of 20 bytes, one after
//! the other, with every number in network byte order. Only a TCP SYN to the
//! protected port is held up: it passes if its source is whitelisted.

use crate::common::SocketV4;
use crate::endian::{from_be16, from_be32, u16_from_be, u32_from_be};
use vstd::prelude::*;

verus! {

/// The packet could not be read: it is reported, not forwarded.
pub const XDP_ABORTED: u32 = 0;

/// The packet is discarded.
pub const XDP_DROP: u32 = 1;

/// The packet goes on to the network stack.
pub const XDP_PASS: u32 = 2;

pub const ETH_HDR_LEN: usize = 14;

pub const IPV4_HDR_LEN: usize = 20;

pub const TCP_HDR_LEN: usize = 20;

/// The Ethernet type of IPv4.
pub const ETHER_TYPE_IPV4: u16 = 0x0800;

/// The IPv4 protocol number of TCP.
pub const IP_PROTO_TCP: u8 = 6;

/// What the headers of a packet say.
pub enum Inspection {
    /// A header that had to be read does not fit in the packet.
    Malformed,
    /// The packet is not a TCP SYN over IPv4 to the protected port.
    Ungated,
    /// The packet is a TCP SYN over IPv4 to the protected port, from this
    /// socket.
    Gated(SocketV4),
}

/// Whether the SYN flag is set in the byte of TCP flags.
pub open spec fn syn_flag(flags: u8) -> bool {
    flags / 2 % 2 == 1
}

/// Reads the headers of `packet`, as far as needed, for the protected
/// `port`. A header is read only when the one before it names it, and each
/// header that is read must fit.
pub open spec fn inspect(packet: Seq<u8>, port: u16) -> Inspection {
    if packet.len() < 14 {
        Inspection::Malformed
    } else if from_be16(packet.subrange(12, 14)) != ETHER_TYPE_IPV4 {
        Inspection::Ungated
    } else if packet.len() < 34 {
        Inspection::Malformed
    } else if packet[23] != IP_PROTO_TCP {
        Inspection::Ungated
    } else if packet.len() < 54 {
        Inspection::Malformed
    } else if !syn_flag(packet[47]) {
        Inspection::Ungated
    } else if from_be16(packet.subrange(36, 38)) != port {
        Inspection::Ungated
    } else {
        Inspection::Gated(
            SocketV4 {
                address: from_be32(packet.subrange(26, 30)),
                port: from_be16(packet.subrange(34, 36)),
            },
        )
    }
}

/// The action on `packet`, with the sockets in `whitelist` whitelisted.
pub open spec fn verdict(packet: Seq<u8>, port: u16, whitelist: Set<SocketV4>) -> u32 {
    match inspect(packet, port) {
        Inspection::Malformed => XDP_ABORTED,
        Inspection::Ungated => XDP_PASS,
        Inspection::Gated(source) => if whitelist.contains(source) {
            XDP_PASS
        } else {
            XDP_DROP
        },
    }
}

/// A SYN to the protected port passes exactly when its source is
/// whitelisted, and is dropped otherwise; a packet that is well formed and
/// is no such SYN passes whatever the whitelist holds.
pub proof fn lemma_only_whitelisted_syn_passes(
    packet: Seq<u8>,
    port: u16,
    whitelist: Set<SocketV4>,
)
    ensures
        inspect(packet, port) matches Inspection::Gated(source) ==> {
            &&& verdict(packet, port, whitelist) == XDP_PASS <==> whitelist.contains(source)
            &&& verdict(packet, port, whitelist) == XDP_DROP <==> !whitelist.contains(source)
        },
        inspect(packet, port) is Ungated ==> verdict(packet, port, whitelist) == XDP_PASS,
        verdict(packet, port, whitelist) == XDP_DROP ==> inspect(packet, port) is Gated,
{
}

/// The place of a header of `len` bytes at `offset`, if it fits in the
/// packet.
pub fn ptr_at(packet: &[u8], offset: usize, len: usize) -> (at: Result<usize, ()>)
    ensures
        at == (if offset + len <= packet.len() {
            Ok::<usize, ()>(offset)
        } else {
            Err::<usize, ()>(())
        }),
{
    if offset > packet.len() || len > packet.len() - offset {
        Err(())
    } else {
        Ok(offset)
    }
}

/// Whether a SYN from `address` is to be dropped: when `address` is not
/// whitelisted.
pub fn block_ip(address: SocketV4, whitelist: &[SocketV4]) -> (blocked: bool)
    ensures
        blocked == !whitelist@.to_set().contains(address),
{
    let mut i: usize = 0;
    while i < whitelist.len()
        invariant
            i <= whitelist.len(),
            forall|j: int| 0 <= j < i ==> whitelist@[j] != address,
        decreases whitelist.len() - i,
    {
        if whitelist[i].address == address.address && whitelist[i].port == address.port {
            assert(whitelist@.contains(whitelist@[i as int]));
            return false;
        }
        i += 1;
    }
    assert(!whitelist@.contains(address));
    true
}

/// Judges a packet that can be read, and fails on one that cannot.
pub fn try_ddos_protection_task(packet: &[u8], port: u16, whitelist: &[SocketV4]) -> (action:
    Result<u32, ()>)
    ensures
        match action {
            Ok(code) => !(inspect(packet@, port) is Malformed) && code == verdict(
                packet@,
                port,
                whitelist@.to_set(),
            ),
            Err(_) => inspect(packet@, port) is Malformed,
        },
{
    let ethhdr = match ptr_at(packet, 0, ETH_HDR_LEN) {
        Ok(at) => at,
        Err(e) => {
            return Err(e);
        },
    };
    // skip non ipv4 packets
    if u16_from_be(packet, ethhdr + 12) != ETHER_TYPE_IPV4 {
        return Ok(XDP_PASS);
    }
    let ipv4hdr = match ptr_at(packet, ETH_HDR_LEN, IPV4_HDR_LEN) {
        Ok(at) => at,
        Err(e) => {
            return Err(e);
        },
    };
    if packet[ipv4hdr + 9] != IP_PROTO_TCP {
        return Ok(XDP_PASS);
    }
    let tcphdr = match ptr_at(packet, ETH_HDR_LEN + IPV4_HDR_LEN, TCP_HDR_LEN) {
        Ok(at) => at,
        Err(e) => {
            return Err(e);
        },
    };
    if packet[tcphdr + 13] / 2 % 2 == 0 {
        return Ok(XDP_PASS);
    }
    let dst_port = u16_from_be(packet, tcphdr + 2);
    if dst_port != port {
        return Ok(XDP_PASS);
    }
    let source_addr = u32_from_be(packet, ipv4hdr + 12);
    let source_port = u16_from_be(packet, tcphdr);
    let source = SocketV4::new(source_addr, source_port);
    let action = if block_ip(source, whitelist) {
        XDP_DROP
    } else {
        XDP_PASS
    };
    Ok(action)
}

/// The action on `packet`: a packet that cannot be read is reported as
/// aborted.
pub fn ddos_protection_task(packet: &[u8], port: u16, whitelist: &[SocketV4]) -> (action: u32)
    ensures
        action == verdict(packet@, port, whitelist@.to_set()),
{
    match try_ddos_protection_task(packet, port, whitelist) {
        Ok(ret) => ret,
        Err(_) => XDP_ABORTED,
    }
}

} // verus!
