//! A verified core for a packet capture-and-dissection pipeline: layered
//! header decoders, a layer walker, a filter-record adapter around an
//! embedded scripting predicate, and the control logic of an interactive,
//! cancellable capture session.
use vstd::prelude::*;

pub mod bytes;
pub mod filter;
pub mod headers;
pub mod session;
pub mod summary;
pub mod text;
pub mod walk;

verus! {

/// The ethertype code that announces an IPv4 payload.
pub const ETHERTYPE_IPV4: u16 = 0x0800;

/// The ethertype code that announces an IPv6 payload.
pub const ETHERTYPE_IPV6: u16 = 0x86DD;

/// The IP next-protocol code for TCP.
pub const IP_PROTO_TCP: u8 = 6;

/// The IP next-protocol code for UDP.
pub const IP_PROTO_UDP: u8 = 17;

} // verus!
